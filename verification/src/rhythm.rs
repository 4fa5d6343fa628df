use vstd::prelude::*;

verus! {

/// Hop length, in pixels, at neutral rhythm.
pub const BASE_STEP: u32 = 60;

/// Hop length after sustained mashing.
pub const MIN_STEP: u32 = 5;

/// Hop length at the peak of a sustained good rhythm.
pub const MAX_STEP: u32 = 100;

/// Bonus per tap in the sweet zone.
pub const STEP_REWARD: u32 = 10;

/// Penalty per tap that comes too fast.
pub const STEP_PENALTY: u32 = 10;

/// Taps closer than this (in microseconds) count as mashing.
pub const TOO_FAST_MICROS: u64 = 200_000;

/// Start of the sweet zone between taps.
pub const SWEET_LO_MICROS: u64 = 300_000;

/// End of the sweet zone between taps.
pub const SWEET_HI_MICROS: u64 = 700_000;

/// A pause longer than this resets the hop length to the base.
pub const RHYTHM_RESET_MICROS: u64 = 1_500_000;

/// Velocity kept per frame, in percent, while a direction key is held.
pub const FRICTION_HELD_PERCENT: u32 = 20;

/// Velocity kept per frame, in percent, while the turtle glides freely.
pub const FRICTION_FREE_PERCENT: u32 = 60;

/// The frame rate the friction coefficients are tuned for.
pub const FRAMES_PER_SECOND: u32 = 60;

/// Converts a hop length (pixels) into the initial velocity (pixels per
/// second) whose free glide covers about that length: each frame moves by
/// the velocity, then keeps `FRICTION_FREE_PERCENT` of it, so the first frame
/// moves 0.4 of the hop and the whole glide sums to the hop.
pub const VELOCITY_SCALE: u32 = FRAMES_PER_SECOND * (100 - FRICTION_FREE_PERCENT) / 100;

/// The arrow/letter keys seen in one frame of play.
#[derive(Clone, Copy, Debug, PartialEq, Eq, Structural)]
pub struct MoveKeys {
    /// Left (arrow or A) was just pressed.
    pub tapped_left: bool,
    /// Right (arrow or D) was just pressed.
    pub tapped_right: bool,
    /// Left is held down.
    pub held_left: bool,
    /// Right is held down.
    pub held_right: bool,
}

/// What a frame of play decides for the turtle's motion.
#[derive(Clone, Copy, Debug, PartialEq, Eq, Structural)]
pub struct MoveDecision {
    /// The new velocity (pixels per second) when a hop starts this frame.
    pub impulse: Option<i32>,
    /// The share of velocity, in percent, kept per sixtieth of a second.
    pub decay_percent: u32,
}

/// The rhythm state of the turtle: its current hop length and when it was
/// last tapped (microseconds since the game clock started).
pub struct TurtleMovement {
    step_size: u32,
    last_tap_micros: u64,
}

/// The direction of a tap: -1 for left alone, 1 for right alone, else 0.
pub open spec fn tap_direction(left: bool, right: bool) -> int {
    if left && !right {
        -1
    } else if right && !left {
        1
    } else {
        0
    }
}

/// The hop length after a tap that comes `interval` microseconds after the
/// previous one.
pub open spec fn next_step(step: int, interval: int) -> int {
    if interval < TOO_FAST_MICROS {
        if step - STEP_PENALTY >= MIN_STEP {
            step - STEP_PENALTY
        } else {
            MIN_STEP as int
        }
    } else if SWEET_LO_MICROS <= interval <= SWEET_HI_MICROS {
        if step + STEP_REWARD <= MAX_STEP {
            step + STEP_REWARD
        } else {
            MAX_STEP as int
        }
    } else if interval > RHYTHM_RESET_MICROS {
        BASE_STEP as int
    } else {
        step
    }
}

/// A direction key is held, and no direction was tapped this frame.
pub open spec fn is_braking(keys: MoveKeys) -> bool {
    (keys.held_left || keys.held_right) && !(keys.tapped_left || keys.tapped_right)
}

/// The hop length after `k` taps, each `interval` microseconds after the one before.
pub open spec fn steps_after_streak(step: int, interval: int, k: nat) -> int
    decreases k,
{
    if k == 0 {
        step
    } else {
        steps_after_streak(next_step(step, interval), interval, (k - 1) as nat)
    }
}

impl TurtleMovement {
    #[verifier::type_invariant]
    spec fn step_in_range(self) -> bool {
        MIN_STEP <= self.step_size <= MAX_STEP
    }

    /// The current hop length in pixels.
    pub closed spec fn step(self) -> int {
        self.step_size as int
    }

    /// The time of the last tap, in microseconds.
    pub closed spec fn last_tap(self) -> int {
        self.last_tap_micros as int
    }

    /// The current hop length in pixels; always between `MIN_STEP` and `MAX_STEP`.
    pub fn step_size(&self) -> (s: u32)
        ensures
            s == self.step(),
            MIN_STEP <= s <= MAX_STEP,
    {
        proof {
            use_type_invariant(self);
        }
        self.step_size
    }

    /// The time of the last tap, in microseconds.
    pub fn last_tap_micros(&self) -> (t: u64)
        ensures
            t == self.last_tap(),
    {
        self.last_tap_micros
    }

    /// One frame of play: a tap in exactly one direction starts a hop, sized
    /// by the rhythm of the taps; holding a direction without tapping brakes.
    pub fn move_turtle(&mut self, keys: MoveKeys, now_micros: u64) -> (d: MoveDecision)
        ensures
            MIN_STEP <= final(self).step() <= MAX_STEP,
            d.decay_percent == (if is_braking(keys) {
                FRICTION_HELD_PERCENT
            } else {
                FRICTION_FREE_PERCENT
            }),
            keys.tapped_left || keys.tapped_right ==> d.decay_percent == FRICTION_FREE_PERCENT,
            !keys.tapped_left && !keys.tapped_right && (keys.held_left || keys.held_right)
                ==> d.decay_percent == FRICTION_HELD_PERCENT,
            !keys.held_left && !keys.held_right ==> d.decay_percent == FRICTION_FREE_PERCENT,
            tap_direction(keys.tapped_left, keys.tapped_right) != 0 ==> {
                &&& final(self).step() == next_step(
                    old(self).step(),
                    now_micros - old(self).last_tap(),
                )
                &&& final(self).last_tap() == now_micros
                &&& d.impulse matches Some(v) && v == tap_direction(
                    keys.tapped_left,
                    keys.tapped_right,
                ) * final(self).step() * VELOCITY_SCALE
            },
            tap_direction(keys.tapped_left, keys.tapped_right) == 0 ==> {
                &&& final(self).step() == old(self).step()
                &&& final(self).last_tap() == old(self).last_tap()
                &&& d.impulse is None
            },
    {
        proof {
            use_type_invariant(&*self);
        }
        let tapped: bool = keys.tapped_left || keys.tapped_right;
        let held: bool = (keys.held_left || keys.held_right) && !tapped;
        let mut impulse: Option<i32> = None;
        if tapped {
            let direction: i32 = match (keys.tapped_left, keys.tapped_right) {
                (true, false) => -1,
                (false, true) => 1,
                _ => 0,
            };
            if direction != 0 {
                let step: u32 = next_step_size(self.step_size, self.last_tap_micros, now_micros);
                self.step_size = step;
                self.last_tap_micros = now_micros;
                assert(VELOCITY_SCALE == 24);
                assert(step * VELOCITY_SCALE <= MAX_STEP * 24) by (nonlinear_arith)
                    requires
                        step <= MAX_STEP,
                        VELOCITY_SCALE == 24,
                ;
                let scaled: i32 = (step * VELOCITY_SCALE) as i32;
                impulse = Some(direction * scaled);
                assert(direction * scaled == direction * step * VELOCITY_SCALE) by (nonlinear_arith)
                    requires
                        scaled == step * VELOCITY_SCALE,
                ;
            }
        }
        let decay_percent: u32 = if held {
            FRICTION_HELD_PERCENT
        } else {
            FRICTION_FREE_PERCENT
        };
        proof {
            use_type_invariant(&*self);
        }
        MoveDecision { impulse, decay_percent }
    }
}

impl Default for TurtleMovement {
    /// A fresh game: neutral hop length, last tap at time zero.
    fn default() -> (m: Self)
        ensures
            m.step() == BASE_STEP,
            m.last_tap() == 0,
    {
        TurtleMovement { step_size: BASE_STEP, last_tap_micros: 0 }
    }
}

/// The hop length after a tap at `now` when the previous tap was at `last`.
fn next_step_size(step: u32, last: u64, now: u64) -> (s: u32)
    requires
        MIN_STEP <= step <= MAX_STEP,
    ensures
        s == next_step(step as int, now - last),
        MIN_STEP <= s <= MAX_STEP,
{
    if now < last || now - last < TOO_FAST_MICROS {
        if step >= MIN_STEP + STEP_PENALTY {
            step - STEP_PENALTY
        } else {
            MIN_STEP
        }
    } else {
        let interval: u64 = now - last;
        if SWEET_LO_MICROS <= interval && interval <= SWEET_HI_MICROS {
            if step + STEP_REWARD <= MAX_STEP {
                step + STEP_REWARD
            } else {
                MAX_STEP
            }
        } else if interval > RHYTHM_RESET_MICROS {
            BASE_STEP
        } else {
            step
        }
    }
}

/// The hop length never leaves `MIN_STEP ..= MAX_STEP`, whatever the rhythm.
pub proof fn lemma_next_step_in_range(step: int, interval: int)
    requires
        MIN_STEP <= step <= MAX_STEP,
    ensures
        MIN_STEP <= next_step(step, interval) <= MAX_STEP,
{
}

/// Mashing never lengthens the hop, a tap in the sweet zone never shortens it,
/// a long pause resets it to the base, and any other interval keeps it.
pub proof fn lemma_rhythm_rewards_and_penalties(step: int, interval: int)
    requires
        MIN_STEP <= step <= MAX_STEP,
    ensures
        interval < TOO_FAST_MICROS ==> next_step(step, interval) <= step,
        interval < TOO_FAST_MICROS && step > MIN_STEP ==> next_step(step, interval) < step,
        SWEET_LO_MICROS <= interval <= SWEET_HI_MICROS ==> next_step(step, interval) >= step,
        SWEET_LO_MICROS <= interval <= SWEET_HI_MICROS && step < MAX_STEP ==> next_step(
            step,
            interval,
        ) > step,
        interval > RHYTHM_RESET_MICROS ==> next_step(step, interval) == BASE_STEP,
        (TOO_FAST_MICROS <= interval < SWEET_LO_MICROS || SWEET_HI_MICROS < interval
            <= RHYTHM_RESET_MICROS) ==> next_step(step, interval) == step,
{
}

/// A streak of `k` taps in the sweet zone lengthens the hop by the reward per
/// tap, up to the peak; ten such taps reach the peak from any hop length.
pub proof fn lemma_sweet_streak_reaches_peak(step: int, interval: int, k: nat)
    requires
        MIN_STEP <= step <= MAX_STEP,
        SWEET_LO_MICROS <= interval <= SWEET_HI_MICROS,
    ensures
        steps_after_streak(step, interval, k) == capped_at(step + STEP_REWARD * k, MAX_STEP as int),
        k >= 10 ==> steps_after_streak(step, interval, k) == MAX_STEP,
    decreases k,
{
    if k > 0 {
        lemma_sweet_streak_reaches_peak(next_step(step, interval), interval, (k - 1) as nat);
    }
}

/// A streak of `k` mashed taps shortens the hop by the penalty per tap, down
/// to the minimum; ten such taps reach the minimum from any hop length.
pub proof fn lemma_mashing_streak_bottoms_out(step: int, interval: int, k: nat)
    requires
        MIN_STEP <= step <= MAX_STEP,
        interval < TOO_FAST_MICROS,
    ensures
        steps_after_streak(step, interval, k) == floored_at(step - STEP_PENALTY * k, MIN_STEP as int),
        k >= 10 ==> steps_after_streak(step, interval, k) == MIN_STEP,
    decreases k,
{
    if k > 0 {
        lemma_mashing_streak_bottoms_out(next_step(step, interval), interval, (k - 1) as nat);
    }
}

pub open spec fn capped_at(a: int, b: int) -> int {
    if a <= b {
        a
    } else {
        b
    }
}

pub open spec fn floored_at(a: int, b: int) -> int {
    if a >= b {
        a
    } else {
        b
    }
}

/// The same keys with left and right exchanged.
pub open spec fn mirrored(keys: MoveKeys) -> MoveKeys {
    MoveKeys {
        tapped_left: keys.tapped_right,
        tapped_right: keys.tapped_left,
        held_left: keys.held_right,
        held_right: keys.held_left,
    }
}

/// Friction: a frame with a tap in either direction glides freely; a frame
/// without a tap brakes exactly when a direction key (left or right) is held;
/// and the rule does not depend on which side is which.
pub proof fn lemma_braking_rule(keys: MoveKeys)
    ensures
        keys.tapped_left || keys.tapped_right ==> !is_braking(keys),
        !keys.tapped_left && !keys.tapped_right ==> (is_braking(keys) <==> (keys.held_left
            || keys.held_right)),
        is_braking(keys) == is_braking(mirrored(keys)),
        tap_direction(mirrored(keys).tapped_left, mirrored(keys).tapped_right) == -tap_direction(
            keys.tapped_left,
            keys.tapped_right,
        ),
{
}

} // verus!
