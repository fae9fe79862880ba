//! Angle and power adjustment: shared stepping, strict power bounds.

use paga::ball::{
    BallAngle, BallPower, InputAdjustment, MinMaxAdj, POWER_MAX_FP, POWER_MIN_FP,
    POWER_START_FP, POWER_STEP_MAX_FP, POWER_STEP_MIN_FP, SPEED_FP, THETA_START_FP,
    THETA_STEP_MAX_FP, THETA_STEP_MIN_FP,
};
use paga::controls::AdjustmentType;

#[test]
fn fresh_power_holds_the_documented_constants() {
    let p = BallPower::new();
    assert_eq!(p.power, POWER_START_FP);
    assert_eq!(p.speed, SPEED_FP);
    assert_eq!(p.min_power_step, POWER_STEP_MIN_FP);
    assert_eq!(p.max_power_step, POWER_STEP_MAX_FP);
}

#[test]
fn power_steps_move_by_the_selected_step() {
    let mut p = BallPower::new();
    p.decrease(AdjustmentType::Min);
    assert_eq!(p.power, POWER_START_FP - POWER_STEP_MIN_FP);
    p.decrease(AdjustmentType::Max);
    assert_eq!(p.power, POWER_START_FP - POWER_STEP_MIN_FP - POWER_STEP_MAX_FP);
    p.increase(AdjustmentType::Min);
    assert_eq!(p.power, POWER_START_FP - POWER_STEP_MAX_FP);
}

#[test]
fn coarse_increase_at_the_top_is_rejected_entirely() {
    // power starts at POWER_MAX - 0.3; a coarse step of 1.0 would
    // cross the bound, so the whole step is dropped
    let mut p = BallPower::new();
    assert_eq!(p.power, POWER_MAX_FP - 300_000);
    p.increase(AdjustmentType::Max);
    assert_eq!(p.power, POWER_MAX_FP - 300_000);
}

#[test]
fn decrease_never_reaches_the_lower_bound() {
    let mut p = BallPower::new();
    for _ in 0..100 {
        p.decrease(AdjustmentType::Min);
        assert!(p.power > POWER_MIN_FP);
    }
    for _ in 0..100 {
        p.decrease(AdjustmentType::Max);
        assert!(p.power > POWER_MIN_FP);
    }
}

#[test]
fn increase_never_reaches_the_upper_bound() {
    let mut p = BallPower::new();
    for _ in 0..100 {
        p.increase(AdjustmentType::Min);
        assert!(p.power < POWER_MAX_FP);
    }
    for _ in 0..100 {
        p.increase(AdjustmentType::Max);
        assert!(p.power < POWER_MAX_FP);
    }
}

#[test]
fn step_just_inside_the_bound_is_applied() {
    let mut p = BallPower::new();
    p.power = POWER_MIN_FP + 600_000;
    p.decrease(AdjustmentType::Min);
    assert_eq!(p.power, POWER_MIN_FP + 100_000);
    // the next fine step would land exactly on the bound: rejected
    p.decrease(AdjustmentType::Min);
    assert_eq!(p.power, POWER_MIN_FP + 100_000);
}

#[test]
fn four_way_stepping_matches_the_dispatcher() {
    let mut a = BallPower::new();
    let mut b = BallPower::new();
    a.min_increase();
    b.increase(AdjustmentType::Min);
    assert_eq!(a.power, b.power);
    a.max_decrease();
    b.decrease(AdjustmentType::Max);
    assert_eq!(a.power, b.power);
}

#[test]
fn fresh_angle_holds_the_documented_constants() {
    let a = BallAngle::new();
    assert_eq!(a.theta, THETA_START_FP);
    assert_eq!(a.min_theta_step, THETA_STEP_MIN_FP);
    assert_eq!(a.max_theta_step, THETA_STEP_MAX_FP);
}

#[test]
fn angle_accumulates_without_bounds() {
    let mut a = BallAngle::new();
    a.increase(AdjustmentType::Min);
    assert_eq!(a.theta, THETA_START_FP + THETA_STEP_MIN_FP);
    a.increase(AdjustmentType::Max);
    assert_eq!(a.theta, THETA_START_FP + THETA_STEP_MIN_FP + THETA_STEP_MAX_FP);
    for _ in 0..2000 {
        a.decrease(AdjustmentType::Max);
    }
    assert_eq!(
        a.theta,
        THETA_START_FP + THETA_STEP_MIN_FP + THETA_STEP_MAX_FP - 2000 * THETA_STEP_MAX_FP
    );
    assert!(a.theta < 0);
}

#[test]
fn angle_saturates_at_the_machine_range() {
    let mut a = BallAngle::new();
    a.theta = i64::MAX - 5_000;
    a.increase(AdjustmentType::Max);
    assert_eq!(a.theta, i64::MAX);
    a.theta = i64::MIN + 5_000;
    a.decrease(AdjustmentType::Max);
    assert_eq!(a.theta, i64::MIN);
}
