use turtle_goes_to_tea::collision::{
    check_collision, circle_touches_square, Point, TEA_HALF_SIZE, TURTLE_RADIUS,
};
use turtle_goes_to_tea::screen::AppState;

fn px(x: i32, y: i32) -> Point {
    Point { x: x * 1000, y: y * 1000 }
}

#[test]
fn radii_in_thousandths_of_a_pixel() {
    assert_eq!(TURTLE_RADIUS, 25_000);
    assert_eq!(TEA_HALF_SIZE, 20_000);
}

#[test]
fn far_turtle_does_not_reach_tea() {
    assert_eq!(check_collision(px(-350, 0), px(300, 0)), None);
}

#[test]
fn turtle_touching_cup_side_wins() {
    // cup spans x in 280..=320; a radius of 25 reaches it from x = 255
    assert_eq!(check_collision(px(255, 0), px(300, 0)), Some(AppState::Win));
    assert_eq!(check_collision(Point { x: 254_999, y: 0 }, px(300, 0)), None);
}

#[test]
fn turtle_inside_cup_wins() {
    assert_eq!(check_collision(px(300, 5), px(300, 0)), Some(AppState::Win));
}

#[test]
fn corner_uses_true_distance() {
    // corner of the cup at (320, 20); (335, 40) is sqrt(15^2 + 20^2) = 25 away
    assert_eq!(check_collision(px(335, 40), px(300, 0)), Some(AppState::Win));
    // (336, 40) is sqrt(16^2 + 20^2) > 25 away, though each axis alone is within 25
    assert_eq!(check_collision(px(336, 40), px(300, 0)), None);
}

#[test]
fn general_circle_square_test() {
    assert!(circle_touches_square(px(0, 0), 1000, px(2, 0), 1000));
    assert!(!circle_touches_square(px(0, 0), 999, px(2, 0), 1000));
    assert!(circle_touches_square(Point { x: i32::MIN, y: i32::MIN }, 0, Point { x: i32::MIN, y: i32::MIN }, 0));
    assert!(!circle_touches_square(Point { x: i32::MIN, y: 0 }, i32::MAX, Point { x: i32::MAX, y: 0 }, 0));
}
