//! Saturating fixed-point scalars.
//!
//! A scalar is an `i64` holding the real value scaled by `FX_ONE`.
//! Every operation keeps its result inside `[-FX_MAX, FX_MAX]` by
//! saturation, so arithmetic is total and intermediate products always
//! fit in an `i128`.

use vstd::prelude::*;

verus! {

/// Fixed-point representation of 1.0.
pub const FX_ONE: i64 = 65536;

/// Largest magnitude a fixed-point scalar may take.
pub const FX_MAX: i64 = 140737488355328;

/// Largest admissible keyframe or playback time.
pub const TIME_MAX: i64 = 1099511627776;

/// A scalar inside the representable range.
pub open spec fn in_range(x: int) -> bool {
    -(FX_MAX as int) <= x <= FX_MAX as int
}

/// Saturate a value into the representable range.
pub open spec fn spec_clamp(x: int) -> int {
    if x < -(FX_MAX as int) {
        -(FX_MAX as int)
    } else if x > FX_MAX as int {
        FX_MAX as int
    } else {
        x
    }
}

/// Division truncating toward zero, for a positive divisor.
pub open spec fn spec_div_trunc(n: int, d: int) -> int
    recommends
        d > 0,
{
    if n >= 0 {
        n / d
    } else {
        -((-n) / d)
    }
}

/// Fixed-point product of two scalars: `a * b / FX_ONE`, saturated.
pub open spec fn spec_fx_mul(a: int, b: int) -> int {
    spec_clamp(spec_div_trunc(a * b, FX_ONE as int))
}

pub proof fn lemma_mul_bound(a: int, b: int, m: int)
    by (nonlinear_arith)
    requires
        0 <= m,
        -m <= a <= m,
        -m <= b <= m,
    ensures
        -(m * m) <= a * b <= m * m,
{
}

pub proof fn lemma_div_trunc_shrinks(n: int, d: int)
    requires
        d > 0,
    ensures
        n >= 0 ==> 0 <= spec_div_trunc(n, d) <= n,
        n < 0 ==> n <= spec_div_trunc(n, d) <= 0,
{
    if n >= 0 {
        vstd::arithmetic::div_mod::lemma_div_is_ordered_by_denominator(n, 1, d);
        vstd::arithmetic::div_mod::lemma_div_basics(n);
        vstd::arithmetic::div_mod::lemma_div_pos_is_pos(n, d);
    } else {
        vstd::arithmetic::div_mod::lemma_div_is_ordered_by_denominator(-n, 1, d);
        vstd::arithmetic::div_mod::lemma_div_basics(-n);
        vstd::arithmetic::div_mod::lemma_div_pos_is_pos(-n, d);
    }
}

/// Saturate an extended intermediate back into scalar range.
pub fn clamp128(x: i128) -> (r: i64)
    ensures
        r as int == spec_clamp(x as int),
        in_range(r as int),
{
    if x < -(FX_MAX as i128) {
        -FX_MAX
    } else if x > FX_MAX as i128 {
        FX_MAX
    } else {
        x as i64
    }
}

/// Truncating division of extended intermediates, for a positive divisor.
pub fn div_trunc128(n: i128, d: i128) -> (r: i128)
    requires
        d > 0,
        -(0x40000000000000000000000000000000 as i128) < n,
    ensures
        r as int == spec_div_trunc(n as int, d as int),
{
    if n >= 0 {
        let q: u128 = (n as u128) / (d as u128);
        proof {
            vstd::arithmetic::div_mod::lemma_div_is_ordered_by_denominator(n as int, 1, d as int);
            vstd::arithmetic::div_mod::lemma_div_basics(n as int);
            vstd::arithmetic::div_mod::lemma_div_pos_is_pos(n as int, d as int);
        }
        q as i128
    } else {
        let m: i128 = -n;
        let q: u128 = (m as u128) / (d as u128);
        proof {
            vstd::arithmetic::div_mod::lemma_div_is_ordered_by_denominator(m as int, 1, d as int);
            vstd::arithmetic::div_mod::lemma_div_basics(m as int);
            vstd::arithmetic::div_mod::lemma_div_pos_is_pos(m as int, d as int);
        }
        -(q as i128)
    }
}

/// Fixed-point product, saturated.
pub fn fx_mul(a: i64, b: i64) -> (r: i64)
    requires
        in_range(a as int),
        in_range(b as int),
    ensures
        r as int == spec_fx_mul(a as int, b as int),
        in_range(r as int),
{
    proof {
        lemma_mul_bound(a as int, b as int, FX_MAX as int);
    }
    let p: i128 = (a as i128) * (b as i128);
    let q: i128 = div_trunc128(p, FX_ONE as i128);
    clamp128(q)
}

} // verus!
