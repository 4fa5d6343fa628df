use vstd::prelude::*;

use crate::screen::AppState;

verus! {

/// Positions and lengths in this module are in thousandths of a pixel.
pub const UNITS_PER_PIXEL: i32 = 1000;

/// The turtle's collision radius: 25 pixels.
pub const TURTLE_RADIUS: i32 = 25 * UNITS_PER_PIXEL;

/// Half the side of the teacup's square: the cup is 40 pixels wide.
pub const TEA_HALF_SIZE: i32 = 20 * UNITS_PER_PIXEL;

/// A point of the playfield.
#[derive(Clone, Copy, Debug, PartialEq, Eq, Structural)]
pub struct Point {
    pub x: i32,
    pub y: i32,
}

/// `v` moved into `lo ..= hi`.
pub open spec fn clamp(v: int, lo: int, hi: int) -> int {
    if v < lo {
        lo
    } else if v > hi {
        hi
    } else {
        v
    }
}

/// The squared distance between two points.
pub open spec fn dist2(ax: int, ay: int, bx: int, by: int) -> int {
    (ax - bx) * (ax - bx) + (ay - by) * (ay - by)
}

/// The circle around `c` of radius `r` touches the axis-aligned square around
/// `s` of half side `half`: the point of the square nearest to `c` lies within `r`.
pub open spec fn circle_meets_square(c: Point, r: int, s: Point, half: int) -> bool {
    let nx: int = clamp(c.x as int, s.x - half, s.x + half);
    let ny: int = clamp(c.y as int, s.y - half, s.y + half);
    dist2(c.x as int, c.y as int, nx, ny) <= r * r
}

/// Whether the circle around `center` of `radius` touches the square around
/// `square` of half side `half`.
pub fn circle_touches_square(center: Point, radius: i32, square: Point, half: i32) -> (b: bool)
    requires
        half >= 0,
    ensures
        b == circle_meets_square(center, radius as int, square, half as int),
{
    let nx: i64 = clamp_i64(center.x as i64, square.x as i64 - half as i64, square.x as i64 + half as i64);
    let ny: i64 = clamp_i64(center.y as i64, square.y as i64 - half as i64, square.y as i64 + half as i64);
    let dx: i128 = center.x as i128 - nx as i128;
    let dy: i128 = center.y as i128 - ny as i128;
    assert(-0x4_0000_0000 <= dx <= 0x4_0000_0000);
    assert(-0x4_0000_0000 <= dy <= 0x4_0000_0000);
    assert(dx * dx <= 0x10_0000_0000_0000_0000) by (nonlinear_arith)
        requires
            -0x4_0000_0000 <= dx <= 0x4_0000_0000,
    ;
    assert(dy * dy <= 0x10_0000_0000_0000_0000) by (nonlinear_arith)
        requires
            -0x4_0000_0000 <= dy <= 0x4_0000_0000,
    ;
    assert(0 <= dx * dx) by (nonlinear_arith);
    assert(0 <= dy * dy) by (nonlinear_arith);
    let r: i128 = radius as i128;
    assert(r * r <= 0x4000_0000_0000_0000) by (nonlinear_arith)
        requires
            -0x8000_0000 <= r <= 0x8000_0000,
    ;
    assert(0 <= r * r) by (nonlinear_arith);
    dx * dx + dy * dy <= r * r
}

fn clamp_i64(v: i64, lo: i64, hi: i64) -> (c: i64)
    requires
        lo <= hi,
    ensures
        c == clamp(v as int, lo as int, hi as int),
{
    if v < lo {
        lo
    } else if v > hi {
        hi
    } else {
        v
    }
}

/// The turtle has reached its tea when its circle touches the cup's square:
/// the game then switches to the win screen.
pub fn check_collision(turtle: Point, tea: Point) -> (next: Option<AppState>)
    ensures
        next == (if circle_meets_square(turtle, TURTLE_RADIUS as int, tea, TEA_HALF_SIZE as int) {
            Some(AppState::Win)
        } else {
            None
        }),
{
    if circle_touches_square(turtle, TURTLE_RADIUS, tea, TEA_HALF_SIZE) {
        Some(AppState::Win)
    } else {
        None
    }
}

/// `(x, y)` lies in the square around `s` of half side `half`.
pub open spec fn in_square(x: int, y: int, s: Point, half: int) -> bool {
    s.x - half <= x <= s.x + half && s.y - half <= y <= s.y + half
}

/// The collision test is exact: the turtle's circle touches the cup's square
/// if and only if some point of the square lies within the circle.
pub proof fn lemma_collision_iff_square_point_within_reach(c: Point, r: int, s: Point, half: int)
    requires
        half >= 0,
    ensures
        circle_meets_square(c, r, s, half) <==> exists|px: int, py: int|
            in_square(px, py, s, half) && #[trigger] dist2(c.x as int, c.y as int, px, py) <= r
                * r,
{
    let nx: int = clamp(c.x as int, s.x - half, s.x + half);
    let ny: int = clamp(c.y as int, s.y - half, s.y + half);
    if circle_meets_square(c, r, s, half) {
        assert(in_square(nx, ny, s, half));
        assert(dist2(c.x as int, c.y as int, nx, ny) <= r * r);
    }
    if exists|px: int, py: int|
        in_square(px, py, s, half) && #[trigger] dist2(c.x as int, c.y as int, px, py) <= r * r {
        let (px, py) = choose|px: int, py: int|
            in_square(px, py, s, half) && #[trigger] dist2(c.x as int, c.y as int, px, py) <= r
                * r;
        lemma_clamp_is_nearest(c.x as int, s.x - half, s.x + half, px);
        lemma_clamp_is_nearest(c.y as int, s.y - half, s.y + half, py);
    }
}

/// Clamping into `lo ..= hi` gives the point of the interval nearest to `v`.
proof fn lemma_clamp_is_nearest(v: int, lo: int, hi: int, p: int)
    requires
        lo <= p <= hi,
    ensures
        (v - clamp(v, lo, hi)) * (v - clamp(v, lo, hi)) <= (v - p) * (v - p),
{
    let c: int = clamp(v, lo, hi);
    let a: int = if v >= c { v - c } else { c - v };
    let b: int = if v >= p { v - p } else { p - v };
    assert(0 <= a <= b);
    assert(a * a <= b * b) by (nonlinear_arith)
        requires
            0 <= a <= b,
    ;
    assert((v - c) * (v - c) == a * a) by (nonlinear_arith)
        requires
            a == v - c || a == c - v,
    ;
    assert((v - p) * (v - p) == b * b) by (nonlinear_arith)
        requires
            b == v - p || b == p - v,
    ;
}

} // verus!
