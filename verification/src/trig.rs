//! Fixed-point sine and cosine.
//!
//! An angle is an `i64` count of millionths of a radian.  The sine is
//! evaluated by reducing the angle into one turn, folding it onto the
//! quarter-wave interval around zero, summing the degree-seven Taylor
//! polynomial in fixed point, and clamping the result to one unit of
//! magnitude (a direction component never exceeds one).

use crate::fixed::{tdiv, tdiv_i64, HALF_PI_FP, PI_FP, SCALE, THREE_HALF_PI_FP, TWO_PI_FP};
use vstd::arithmetic::div_mod::{
    lemma_add_mod_noop, lemma_mod_bound, lemma_mod_multiples_vanish, lemma_small_mod,
};
use vstd::prelude::*;

verus! {

/// Magnitude bound of a folded angle (a hair over a quarter turn,
/// because the stored circle constants round the real ones).
pub const FOLD_BOUND: i64 = 1_570_798;

/// Fold an angle already reduced to [0, 2π) onto [-π/2, π/2] without
/// changing its sine.
pub open spec fn fold_angle(r: int) -> int {
    if r <= HALF_PI_FP {
        r
    } else if r <= THREE_HALF_PI_FP {
        PI_FP - r
    } else {
        r - TWO_PI_FP
    }
}

/// Degree-seven Taylor polynomial of the sine, each power scaled back
/// down as it is built.
pub open spec fn sin_taylor(t: int) -> int {
    let t2 = tdiv(t * t, SCALE as int);
    let t3 = tdiv(t2 * t, SCALE as int);
    let t5 = tdiv(t3 * t2, SCALE as int);
    let t7 = tdiv(t5 * t2, SCALE as int);
    t - tdiv(t3, 6) + tdiv(t5, 120) - tdiv(t7, 5040)
}

/// Clamp to one unit of magnitude.
pub open spec fn clamp_unit(v: int) -> int {
    if v > SCALE {
        SCALE as int
    } else if v < -SCALE {
        -(SCALE as int)
    } else {
        v
    }
}

/// Fixed-point sine of an angle in millionths of a radian.
pub open spec fn sin_fp(theta: int) -> int {
    clamp_unit(sin_taylor(fold_angle(theta % (TWO_PI_FP as int))))
}

/// Fixed-point cosine, the sine shifted by a quarter turn.
pub open spec fn cos_fp(theta: int) -> int {
    sin_fp(theta + HALF_PI_FP)
}

/// A product of bounded factors is bounded by the product of the bounds.
pub proof fn lemma_mul_bound(a: int, b: int, bound_a: int, bound_b: int)
    by (nonlinear_arith)
    requires
        -bound_a <= a <= bound_a,
        -bound_b <= b <= bound_b,
        0 <= bound_a,
        0 <= bound_b,
    ensures
        -(bound_a * bound_b) <= a * b <= bound_a * bound_b,
{
}

/// Congruent angles stay congruent under a common shift, so they have
/// the same sine.
pub proof fn lemma_mod_congruent_shift(a: int, b: int, s: int, m: int)
    requires
        0 < m,
        a % m == b % m,
    ensures
        (a + s) % m == (b + s) % m,
{
    lemma_add_mod_noop(a, s, m);
    lemma_add_mod_noop(b, s, m);
}

/// Reduce an angle into [0, 2π).
pub fn rem_two_pi(theta: i64) -> (m: i64)
    ensures
        m as int == (theta as int) % (TWO_PI_FP as int),
        0 <= m < TWO_PI_FP,
{
    proof {
        lemma_mod_bound(theta as int, TWO_PI_FP as int);
    }
    match theta.checked_rem_euclid(TWO_PI_FP) {
        Some(m) => m,
        None => 0,  // unreachable: the divisor is positive
    }
}

/// Sine of an angle already reduced to [0, 2π).
fn sin_reduced(m: i64) -> (r: i64)
    requires
        0 <= m < TWO_PI_FP,
    ensures
        r as int == clamp_unit(sin_taylor(fold_angle(m as int))),
        -SCALE <= r <= SCALE,
{
    let t: i64 = if m <= HALF_PI_FP {
        m
    } else if m <= THREE_HALF_PI_FP {
        PI_FP - m
    } else {
        m - TWO_PI_FP
    };
    assert(t as int == fold_angle(m as int));
    assert(-FOLD_BOUND <= t <= FOLD_BOUND);
    proof {
        lemma_mul_bound(t as int, t as int, FOLD_BOUND as int, FOLD_BOUND as int);
    }
    let t2: i64 = tdiv_i64(t * t, SCALE);
    proof {
        crate::fixed::lemma_tdiv_bound((t * t) as int, SCALE as int, 2_470_000_000_000);
        lemma_mul_bound(t2 as int, t as int, 2_470_000, FOLD_BOUND as int);
    }
    let t3: i64 = tdiv_i64(t2 * t, SCALE);
    proof {
        crate::fixed::lemma_tdiv_bound((t2 * t) as int, SCALE as int, 3_890_000_000_000);
        lemma_mul_bound(t3 as int, t2 as int, 3_890_000, 2_470_000);
    }
    let t5: i64 = tdiv_i64(t3 * t2, SCALE);
    proof {
        crate::fixed::lemma_tdiv_bound((t3 * t2) as int, SCALE as int, 9_610_000_000_000);
        lemma_mul_bound(t5 as int, t2 as int, 9_610_000, 2_470_000);
    }
    let t7: i64 = tdiv_i64(t5 * t2, SCALE);
    proof {
        crate::fixed::lemma_tdiv_bound((t5 * t2) as int, SCALE as int, 23_740_000_000_000);
        crate::fixed::lemma_tdiv_bound(t3 as int, 6, 3_890_000);
        crate::fixed::lemma_tdiv_bound(t5 as int, 120, 9_610_000);
        crate::fixed::lemma_tdiv_bound(t7 as int, 5040, 23_740_000);
    }
    let a3: i64 = tdiv_i64(t3, 6);
    let a5: i64 = tdiv_i64(t5, 120);
    let a7: i64 = tdiv_i64(t7, 5040);
    let s: i64 = t - a3 + a5 - a7;
    if s > SCALE {
        SCALE
    } else if s < -SCALE {
        -SCALE
    } else {
        s
    }
}

/// Fixed-point sine.
pub fn sin_i64(theta: i64) -> (r: i64)
    ensures
        r as int == sin_fp(theta as int),
        -SCALE <= r <= SCALE,
{
    let m = rem_two_pi(theta);
    sin_reduced(m)
}

/// Fixed-point cosine.
pub fn cos_i64(theta: i64) -> (r: i64)
    ensures
        r as int == cos_fp(theta as int),
        -SCALE <= r <= SCALE,
{
    let m = rem_two_pi(theta);
    let shifted: i64 = m + HALF_PI_FP;
    let m2: i64 = if shifted >= TWO_PI_FP {
        shifted - TWO_PI_FP
    } else {
        shifted
    };
    proof {
        let big = TWO_PI_FP as int;
        lemma_add_mod_noop(theta as int, HALF_PI_FP as int, big);
        lemma_small_mod(HALF_PI_FP as nat, big as nat);
        if shifted >= TWO_PI_FP {
            lemma_mod_multiples_vanish(1, m2 as int, big);
            lemma_small_mod(m2 as nat, big as nat);
        } else {
            lemma_small_mod(m2 as nat, big as nat);
        }
        assert((theta as int + HALF_PI_FP) % big == m2 as int);
    }
    sin_reduced(m2)
}

} // verus!
