//! The fixed-point base: truncating division, saturation, pixel
//! flooring and the trigonometric kernel.

use paga::fixed::{abs_i64, fp_floor_px, sat_add_i64, sat_sub_i64, tdiv_i64, HALF_PI_FP, PI_FP};
use paga::trig::{cos_i64, sin_i64};

#[test]
fn truncating_division_rounds_toward_zero() {
    assert_eq!(tdiv_i64(7, 2), 3);
    assert_eq!(tdiv_i64(-7, 2), -3);
    assert_eq!(tdiv_i64(0, 5), 0);
    assert_eq!(tdiv_i64(-1, 1_000_000), 0);
}

#[test]
fn saturating_addition_clamps_at_the_machine_range() {
    assert_eq!(sat_add_i64(i64::MAX, 1), i64::MAX);
    assert_eq!(sat_add_i64(i64::MIN, -1), i64::MIN);
    assert_eq!(sat_add_i64(40, 2), 42);
    assert_eq!(sat_sub_i64(i64::MIN, 1), i64::MIN);
    assert_eq!(sat_sub_i64(40, 2), 38);
}

#[test]
fn pixel_floor_truncates_and_clamps_negatives() {
    assert_eq!(fp_floor_px(2_999_999), 2);
    assert_eq!(fp_floor_px(-5), 0);
    assert_eq!(fp_floor_px(0), 0);
    assert_eq!(fp_floor_px(632_000_000), 632);
}

#[test]
fn absolute_value_of_velocities() {
    assert_eq!(abs_i64(-3), 3);
    assert_eq!(abs_i64(3), 3);
    assert_eq!(abs_i64(0), 0);
}

#[test]
fn sine_kernel_hits_the_cardinal_points() {
    assert_eq!(sin_i64(0), 0);
    assert_eq!(sin_i64(HALF_PI_FP), 999_844);
    assert_eq!(sin_i64(PI_FP), 0);
    assert_eq!(sin_i64(-HALF_PI_FP), -999_844);
    assert_eq!(cos_i64(0), 999_844);
    assert_eq!(cos_i64(PI_FP), -999_844);
}

#[test]
fn sine_kernel_is_periodic_and_bounded() {
    assert_eq!(sin_i64(785_398), 707_107);  // a quarter of a half turn
    assert_eq!(sin_i64(6_283_186), 0);  // one full turn
    assert_eq!(sin_i64(7_853_983 + 6_283_186), sin_i64(7_853_983));
    for k in -20i64..20 {
        let v = sin_i64(k * 500_000);
        assert!((-1_000_000..=1_000_000).contains(&v));
    }
}
