//! Fixed-point arithmetic base.
//!
//! Continuous quantities (sub-pixel positions, velocities, radians,
//! power) are stored as `i64` counts of millionths of a unit, so the
//! constants of the game (friction 0.998, settle threshold 0.1, power
//! bounds 0.7 and 10.3, ...) are represented exactly and every
//! computation on them is exact integer arithmetic.

use vstd::arithmetic::div_mod::{
    lemma_div_by_multiple, lemma_div_is_ordered, lemma_div_nonincreasing, lemma_div_pos_is_pos,
    lemma_multiply_divide_lt,
};
use vstd::prelude::*;

verus! {

/// Sub-units per unit: one pixel, one radian or one power point is
/// `SCALE` sub-units.
pub const SCALE: i64 = 1_000_000;

/// Half a unit, the rounding offset the aim projection adds.
pub const HALF_SCALE: i64 = 500_000;

/// The circle constant, in sub-units of a radian.
pub const PI_FP: i64 = 3_141_593;

/// A quarter turn, in sub-units of a radian.
pub const HALF_PI_FP: i64 = 1_570_796;

/// Three quarter turns, in sub-units of a radian.
pub const THREE_HALF_PI_FP: i64 = 4_712_388;

/// A full turn, in sub-units of a radian.
pub const TWO_PI_FP: i64 = 6_283_186;

/// Integer absolute value.
pub open spec fn iabs(a: int) -> int {
    if a < 0 {
        -a
    } else {
        a
    }
}

/// Division that rounds toward zero, the behaviour of `/` on the
/// machine integers (`/` on `int` in specifications is Euclidean and
/// rounds toward minus infinity for a negative dividend).
pub open spec fn tdiv(a: int, d: int) -> int {
    if a >= 0 {
        a / d
    } else {
        -((-a) / d)
    }
}

/// Addition clamped to the `i64` range.
pub open spec fn sat_add(a: int, b: int) -> int {
    if a + b > i64::MAX {
        i64::MAX as int
    } else if a + b < i64::MIN {
        i64::MIN as int
    } else {
        a + b
    }
}

/// The integer pixel holding a fixed-point coordinate: the coordinate
/// divided down to whole pixels, rounded toward zero and clamped to
/// the `usize` range, exactly the effect of converting the continuous
/// coordinate to an unsigned pixel index.
pub open spec fn fp_to_px(fp: int) -> int {
    if fp < 0 {
        0
    } else if fp / (SCALE as int) > usize::MAX {
        usize::MAX as int
    } else {
        fp / (SCALE as int)
    }
}

/// Truncating division never grows the magnitude of the dividend's bound.
pub proof fn lemma_tdiv_bound(a: int, d: int, bound: int)
    requires
        0 < d,
        -bound <= a <= bound,
    ensures
        -(bound / d) <= tdiv(a, d) <= bound / d,
        tdiv(a, d) <= iabs(a),
        a >= 0 ==> 0 <= tdiv(a, d),
        a <= 0 ==> tdiv(a, d) <= 0,
{
    if a >= 0 {
        lemma_div_pos_is_pos(a, d);
        lemma_div_is_ordered(a, bound, d);
        lemma_div_nonincreasing(a, d);
    } else {
        lemma_div_pos_is_pos(-a, d);
        lemma_div_is_ordered(-a, bound, d);
        lemma_div_nonincreasing(-a, d);
    }
}

/// A fixed-point coordinate lands in a pixel up to `lim` exactly when
/// it lies strictly below the first coordinate of pixel `lim + 1`.
pub proof fn lemma_fp_px_range(v: int, lim: int)
    requires
        0 <= lim < usize::MAX,
    ensures
        (fp_to_px(v) <= lim) <==> (v < (lim + 1) * (SCALE as int)),
{
    let s = SCALE as int;
    if v >= 0 {
        lemma_div_pos_is_pos(v, s);
        if v < (lim + 1) * s {
            lemma_multiply_divide_lt(v, s, lim + 1);
        }
        if v >= (lim + 1) * s {
            lemma_div_by_multiple(lim + 1, s);
            lemma_div_is_ordered((lim + 1) * s, v, s);
        }
    }
}

/// A whole pixel count scaled up and divided back down is itself.
pub proof fn lemma_px_round_trip(x: int)
    requires
        0 <= x < usize::MAX,
    ensures
        fp_to_px(x * (SCALE as int)) == x,
{
    lemma_div_by_multiple(x, SCALE as int);
    assert(0 <= x * (SCALE as int)) by (nonlinear_arith)
        requires
            0 <= x,
    ;
}

/// Truncating division by a positive divisor, as an executable step.
pub fn tdiv_i64(a: i64, d: i64) -> (r: i64)
    requires
        0 < d,
    ensures
        r as int == tdiv(a as int, d as int),
{
    proof {
        lemma_tdiv_bound(a as int, d as int, iabs(a as int));
        lemma_div_nonincreasing(iabs(a as int), d as int);
    }
    match a.checked_div(d) {
        Some(q) => q,
        None => 0,  // unreachable: the divisor is positive
    }
}

/// Saturating `i64` addition, as an executable step.
pub fn sat_add_i64(a: i64, b: i64) -> (r: i64)
    ensures
        r as int == sat_add(a as int, b as int),
{
    match a.checked_add(b) {
        Some(s) => s,
        None => {
            if b > 0 {
                i64::MAX
            } else {
                i64::MIN
            }
        },
    }
}

/// Saturating `i64` subtraction, as an executable step.
pub fn sat_sub_i64(a: i64, b: i64) -> (r: i64)
    ensures
        r as int == sat_add(a as int, -(b as int)),
{
    match a.checked_sub(b) {
        Some(s) => s,
        None => {
            if b < 0 {
                i64::MAX
            } else {
                i64::MIN
            }
        },
    }
}

/// Whole-pixel part of a fixed-point coordinate.
pub fn fp_floor_px(fp: i64) -> (r: usize)
    ensures
        r as int == fp_to_px(fp as int),
{
    if fp < 0 {
        0
    } else {
        proof {
            lemma_div_pos_is_pos(fp as int, SCALE as int);
        }
        let q: u64 = (fp as u64) / (SCALE as u64);
        if q > usize::MAX as u64 {
            usize::MAX
        } else {
            q as usize
        }
    }
}

/// Absolute value of a velocity-sized quantity.
pub fn abs_i64(a: i64) -> (r: i64)
    requires
        a != i64::MIN,
    ensures
        r as int == iabs(a as int),
{
    if a < 0 {
        -a
    } else {
        a
    }
}

} // verus!
