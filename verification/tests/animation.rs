//! The two-state animation clock: transitions, steady state, easing.

use image_gallery::anim::{Animation, Easing, QUICK_MS};

#[test]
fn fresh_animation_is_at_rest() {
    let a = Animation::new(false);
    assert!(!a.is_animating(0));
    assert!(!a.is_animating(1_000_000));
    // At rest on `false`, the value sits on the `from` endpoint.
    assert_eq!(a.interpolate(0, 800, 500), 0);
}

#[test]
fn go_starts_a_transition_and_reaches_steady_state() {
    let a = Animation::new(false).go(true, 100);
    assert!(!a.is_animating(99));
    assert!(a.is_animating(100));
    assert!(a.is_animating(100 + QUICK_MS - 1));
    assert!(!a.is_animating(100 + QUICK_MS));
    assert!(!a.is_animating(100 + 10 * QUICK_MS));
    // Once steady, the value sits on the `to` endpoint.
    assert_eq!(a.interpolate(0, 1000, 100 + QUICK_MS), 1000);
}

#[test]
fn go_with_unchanged_target_is_idempotent() {
    let mut a = Animation::new(false).go(true, 100);
    // A second transition to the same target must not restart the clock.
    a.go_mut(true, 150);
    assert_eq!(a.start, 100);
    assert!(!a.is_animating(100 + QUICK_MS));
    // A real change does restart it.
    a.go_mut(false, 150);
    assert_eq!(a.start, 150);
    assert!(a.is_animating(150 + QUICK_MS - 1));
}

#[test]
fn linear_interpolation_moves_proportionally() {
    let a = Animation::new(false).go(true, 0);
    // Halfway through a 200 ms transition from 0 to 1000.
    assert_eq!(a.interpolate(0, 1000, QUICK_MS / 2), 500);
    // A quarter through.
    assert_eq!(a.interpolate(0, 1000, QUICK_MS / 4), 250);
    // Before the transition instant the value is still at the start.
    let b = Animation::new(false).go(true, 500);
    assert_eq!(b.interpolate(0, 1000, 499), 0);
}

#[test]
fn ease_in_out_is_slow_at_the_edges() {
    let a = Animation::new(false).easing(Easing::EaseInOut).go(true, 0);
    // Midpoint is unchanged by the symmetric curve.
    assert_eq!(a.interpolate(0, 1000, QUICK_MS / 2), 500);
    // A quarter of the time covers only 2*250^2/1000 = 125 thousandths.
    assert_eq!(a.interpolate(0, 1000, QUICK_MS / 4), 125);
    assert_eq!(a.interpolate(0, 1000, 3 * QUICK_MS / 4), 875);
}

#[test]
fn descending_endpoints_interpolate_downwards() {
    // The image scale track runs from 1500 down to 1000 thousandths.
    let a = Animation::new(false).go(true, 0);
    assert_eq!(a.interpolate(1500, 1000, 0), 1500);
    assert_eq!(a.interpolate(1500, 1000, QUICK_MS / 2), 1250);
    assert_eq!(a.interpolate(1500, 1000, QUICK_MS), 1000);
    // At rest on `false` the value sits on `from`.
    let b = Animation::new(false);
    assert_eq!(b.interpolate(1500, 1000, 77), 1500);
}

#[test]
fn negative_endpoints_are_handled() {
    let a = Animation::new(false).go(true, 0);
    assert_eq!(a.interpolate(-1000, 1000, QUICK_MS / 2), 0);
    assert_eq!(a.interpolate(-500, -100, QUICK_MS), -100);
    assert_eq!(a.interpolate(-500, -100, 0), -500);
}
