use turtle_goes_to_tea::rhythm::{
    MoveKeys, TurtleMovement, BASE_STEP, FRICTION_FREE_PERCENT, FRICTION_HELD_PERCENT, MAX_STEP,
    MIN_STEP, VELOCITY_SCALE,
};

fn tap_right() -> MoveKeys {
    MoveKeys { tapped_left: false, tapped_right: true, held_left: false, held_right: true }
}

fn tap_left() -> MoveKeys {
    MoveKeys { tapped_left: true, tapped_right: false, held_left: true, held_right: false }
}

fn no_keys() -> MoveKeys {
    MoveKeys { tapped_left: false, tapped_right: false, held_left: false, held_right: false }
}

const SEC: u64 = 1_000_000;

#[test]
fn fresh_movement_is_neutral() {
    let m = TurtleMovement::default();
    assert_eq!(m.step_size(), BASE_STEP);
    assert_eq!(m.step_size(), 60);
    assert_eq!(m.last_tap_micros(), 0);
}

#[test]
fn velocity_scale_is_sixty_frames_of_free_glide() {
    assert_eq!(VELOCITY_SCALE, 24);
}

#[test]
fn first_tap_after_long_pause_hops_at_base() {
    let mut m = TurtleMovement::default();
    let d = m.move_turtle(tap_right(), 10 * SEC);
    assert_eq!(d.impulse, Some(60 * 24));
    assert_eq!(d.decay_percent, FRICTION_FREE_PERCENT);
    assert_eq!(m.step_size(), 60);
    assert_eq!(m.last_tap_micros(), 10 * SEC);
}

#[test]
fn left_tap_goes_left() {
    let mut m = TurtleMovement::default();
    let d = m.move_turtle(tap_left(), 3 * SEC);
    assert_eq!(d.impulse, Some(-1440));
}

#[test]
fn sweet_rhythm_grows_to_peak() {
    let mut m = TurtleMovement::default();
    let mut t = 5 * SEC;
    m.move_turtle(tap_right(), t);
    let expected = [70, 80, 90, 100, 100];
    for e in expected {
        t += 500_000;
        let d = m.move_turtle(tap_right(), t);
        assert_eq!(m.step_size(), e);
        assert_eq!(d.impulse, Some(e as i32 * 24));
    }
    assert_eq!(m.step_size(), MAX_STEP);
}

#[test]
fn sweet_zone_bounds_are_inclusive() {
    let mut m = TurtleMovement::default();
    m.move_turtle(tap_right(), 5 * SEC);
    m.move_turtle(tap_right(), 5 * SEC + 300_000);
    assert_eq!(m.step_size(), 70);
    m.move_turtle(tap_right(), 5 * SEC + 1_000_000);
    assert_eq!(m.step_size(), 80);
}

#[test]
fn mashing_shrinks_to_minimum() {
    let mut m = TurtleMovement::default();
    let mut t = 5 * SEC;
    m.move_turtle(tap_right(), t);
    let expected = [50, 40, 30, 20, 10, 5, 5];
    for e in expected {
        t += 100_000;
        m.move_turtle(tap_left(), t);
        assert_eq!(m.step_size(), e);
    }
    assert_eq!(m.step_size(), MIN_STEP);
}

#[test]
fn dead_zones_keep_step() {
    let mut m = TurtleMovement::default();
    m.move_turtle(tap_right(), 5 * SEC);
    m.move_turtle(tap_right(), 5 * SEC + 250_000);
    assert_eq!(m.step_size(), 60);
    m.move_turtle(tap_right(), 5 * SEC + 1_250_000);
    assert_eq!(m.step_size(), 60);
    m.move_turtle(tap_right(), 5 * SEC + 2_750_000);
    assert_eq!(m.step_size(), 60);
}

#[test]
fn long_pause_resets_to_base() {
    let mut m = TurtleMovement::default();
    let mut t = 5 * SEC;
    m.move_turtle(tap_right(), t);
    for _ in 0..3 {
        t += 400_000;
        m.move_turtle(tap_right(), t);
    }
    assert_eq!(m.step_size(), 90);
    m.move_turtle(tap_right(), t + 1_500_001);
    assert_eq!(m.step_size(), BASE_STEP);
}

#[test]
fn pause_of_exactly_reset_keeps_step() {
    let mut m = TurtleMovement::default();
    m.move_turtle(tap_right(), 5 * SEC);
    m.move_turtle(tap_right(), 5 * SEC + 500_000);
    assert_eq!(m.step_size(), 70);
    m.move_turtle(tap_right(), 5 * SEC + 2_000_000);
    assert_eq!(m.step_size(), 70);
}

#[test]
fn clock_going_back_counts_as_mashing() {
    let mut m = TurtleMovement::default();
    m.move_turtle(tap_right(), 5 * SEC);
    m.move_turtle(tap_right(), 4 * SEC);
    assert_eq!(m.step_size(), 50);
}

#[test]
fn both_directions_at_once_do_not_hop() {
    let mut m = TurtleMovement::default();
    let keys = MoveKeys { tapped_left: true, tapped_right: true, held_left: true, held_right: true };
    let d = m.move_turtle(keys, 5 * SEC);
    assert_eq!(d.impulse, None);
    assert_eq!(d.decay_percent, FRICTION_FREE_PERCENT);
    assert_eq!(m.last_tap_micros(), 0);
    assert_eq!(m.step_size(), 60);
}

#[test]
fn holding_without_tapping_brakes() {
    let mut m = TurtleMovement::default();
    let keys = MoveKeys { tapped_left: false, tapped_right: false, held_left: true, held_right: false };
    let d = m.move_turtle(keys, 5 * SEC);
    assert_eq!(d.impulse, None);
    assert_eq!(d.decay_percent, FRICTION_HELD_PERCENT);
    assert_eq!(FRICTION_HELD_PERCENT, 20);
}

#[test]
fn no_keys_glide_freely() {
    let mut m = TurtleMovement::default();
    let d = m.move_turtle(no_keys(), 5 * SEC);
    assert_eq!(d.impulse, None);
    assert_eq!(d.decay_percent, 60);
}
