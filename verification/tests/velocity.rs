//! Friction, settling and the velocity domain.

use paga::ball::{BallVelocity, FRICTION_FP, SETTLE_THRESHOLD_FP};
use paga::geo::Vec2;

#[test]
fn friction_scales_each_component_exactly() {
    let mut v = BallVelocity::new(1_000_000, -500_000);
    v.slow();
    assert_eq!(v.x(), 998_000);
    assert_eq!(v.y(), -499_000);
}

#[test]
fn friction_strictly_decreases_l1_until_settle() {
    let mut v = BallVelocity::new(2_000_000, -1_500_000);
    let mut l1 = v.x().abs() + v.y().abs();
    let mut steps = 0u32;
    while !v.velocity_below(SETTLE_THRESHOLD_FP) {
        v.slow();
        let next = v.x().abs() + v.y().abs();
        assert!(next < l1, "friction must strictly shrink a moving ball");
        l1 = next;
        steps += 1;
        assert!(steps < 20_000, "friction decay must reach the threshold");
    }
    v.stop();
    assert_eq!(v.x(), 0);
    assert_eq!(v.y(), 0);
}

#[test]
fn friction_never_reverses_sign() {
    let mut v = BallVelocity::new(300_000, -300_000);
    for _ in 0..10_000 {
        v.slow();
        assert!(v.x() >= 0);
        assert!(v.y() <= 0);
    }
}

#[test]
fn tiny_component_decays_to_exact_zero() {
    let mut v = BallVelocity::new(2, -2);
    v.slow();
    assert_eq!(v.x(), 1);
    assert_eq!(v.y(), -1);
    v.slow();
    assert_eq!(v.x(), 0);
    assert_eq!(v.y(), 0);
}

#[test]
fn velocity_below_uses_the_l1_norm() {
    let v = BallVelocity::new(60_000, -50_000);
    assert!(!v.velocity_below(100_000));
    assert!(v.velocity_below(110_001));
}

#[test]
fn invert_reflects_one_axis_only() {
    let mut v = BallVelocity::new(250_000, -125_000);
    v.invert_x();
    assert_eq!(v.x(), -250_000);
    assert_eq!(v.y(), -125_000);
    v.invert_y();
    assert_eq!(v.x(), -250_000);
    assert_eq!(v.y(), 125_000);
}

#[test]
fn fresh_velocity_carries_the_friction_constant() {
    let v = BallVelocity::new(0, 0);
    assert_eq!(v.friction, FRICTION_FP);
    assert_eq!(v.vec2().x, 0);
    assert_eq!(v.vec2().y, 0);
}

#[test]
fn to_map_point_floors_to_pixels_and_clamps_negatives() {
    let v = BallVelocity::new(2_500_000, -1_500_000);
    let p = v.to_map_point();
    assert_eq!(p.x, 2);
    assert_eq!(p.y, 0);
}

#[test]
fn update_replaces_the_vector() {
    let mut v = BallVelocity::new(1, 2);
    v.update(Vec2::new(-7, 9));
    assert_eq!(v.x(), -7);
    assert_eq!(v.y(), 9);
}
