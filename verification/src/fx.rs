//! Saturating fixed-point arithmetic on `i64` values scaled by [`SCALE`].
//!
//! A fixed-point value `v` stands for the real number `v / SCALE`. Sums and
//! differences saturate at the `i64` range; products and quotients are
//! computed in 128-bit intermediates, truncated toward zero and saturated.

use vstd::prelude::*;

verus! {

/// Number of fixed-point units in one whole unit.
pub const SCALE: i64 = 1_000_000;

/// A mathematical integer saturated into the `i64` range.
pub open spec fn sat64(x: int) -> int {
    if x > i64::MAX as int {
        i64::MAX as int
    } else if x < i64::MIN as int {
        i64::MIN as int
    } else {
        x
    }
}

/// Division truncated toward zero (hardware division), for a positive divisor.
pub open spec fn tdiv(n: int, d: int) -> int
    recommends
        d > 0,
{
    if n >= 0 {
        n / d
    } else {
        -((-n) / d)
    }
}

/// The fixed-point product: `(a·b) / SCALE`, truncated and saturated.
pub open spec fn fmul(a: int, b: int) -> int {
    sat64(tdiv(a * b, SCALE as int))
}

/// The fixed-point quotient: `(a·SCALE) / b`, truncated and saturated.
pub open spec fn fdiv(a: int, b: int) -> int
    recommends
        b > 0,
{
    sat64(tdiv(a * (SCALE as int), b))
}

/// A 128-bit intermediate saturated into `i64`.
fn clamp_to_i64(x: i128) -> (r: i64)
    ensures
        r as int == sat64(x as int),
{
    if x > i64::MAX as i128 {
        i64::MAX
    } else if x < i64::MIN as i128 {
        i64::MIN
    } else {
        x as i64
    }
}

/// Truncating 128-bit division, computed on magnitudes so that the
/// rounding direction is explicit.
fn tdiv_i128(n: i128, d: i128) -> (q: i128)
    requires
        d > 0,
        n > i128::MIN,
    ensures
        q as int == tdiv(n as int, d as int),
{
    let dd: u128 = d as u128;
    if n >= 0 {
        let nn: u128 = n as u128;
        let qq: u128 = nn / dd;
        assert(qq <= nn) by {
            vstd::arithmetic::div_mod::lemma_div_is_ordered_by_denominator(
                nn as int,
                1,
                dd as int,
            );
        }
        qq as i128
    } else {
        let nn: u128 = (-n) as u128;
        let qq: u128 = nn / dd;
        assert(qq <= nn) by {
            vstd::arithmetic::div_mod::lemma_div_is_ordered_by_denominator(
                nn as int,
                1,
                dd as int,
            );
        }
        -(qq as i128)
    }
}

/// Saturating fixed-point sum.
pub fn fp_add(a: i64, b: i64) -> (r: i64)
    ensures
        r as int == sat64(a + b),
{
    clamp_to_i64(a as i128 + b as i128)
}

/// Saturating fixed-point difference.
pub fn fp_sub(a: i64, b: i64) -> (r: i64)
    ensures
        r as int == sat64(a - b),
{
    clamp_to_i64(a as i128 - b as i128)
}

/// Saturating fixed-point product.
pub fn fp_mul(a: i64, b: i64) -> (r: i64)
    ensures
        r as int == fmul(a as int, b as int),
{
    proof {
        assert((a as int) * (b as int) <= i128::MAX && (a as int) * (b as int) >= -i128::MAX)
            by (nonlinear_arith)
            requires
                i64::MIN <= a <= i64::MAX,
                i64::MIN <= b <= i64::MAX,
        ;
    }
    let p: i128 = (a as i128) * (b as i128);
    let q = tdiv_i128(p, 1_000_000i128);
    clamp_to_i64(q)
}

/// Quotient of a fixed-point value by a positive count (not a fixed-point
/// divisor), truncated toward zero: the mean-taking division.
pub fn fp_div_count(a: i64, n: u64) -> (r: i64)
    requires
        n > 0,
    ensures
        r as int == tdiv(a as int, n as int),
{
    let q = tdiv_i128(a as i128, n as i128);
    proof {
        if a >= 0 {
            vstd::arithmetic::div_mod::lemma_div_is_ordered_by_denominator(a as int, 1, n as int);
        } else {
            vstd::arithmetic::div_mod::lemma_div_is_ordered_by_denominator(
                -(a as int),
                1,
                n as int,
            );
        }
    }
    q as i64
}

/// Saturating fixed-point quotient, for a positive divisor.
pub fn fp_div(a: i64, b: i64) -> (r: i64)
    requires
        b > 0,
    ensures
        r as int == fdiv(a as int, b as int),
{
    let p: i128 = (a as i128) * 1_000_000i128;
    let q = tdiv_i128(p, b as i128);
    clamp_to_i64(q)
}

} // verus!
