//! Fixed-point scalar arithmetic.
//!
//! A scalar is an `i64` holding a real value scaled by [`FX_ONE`] (one
//! billion), so the resolution is 1e-9. All operations saturate at the
//! `i64` range instead of overflowing, and division by zero yields zero:
//! degenerate numeric states are guarded, never propagated as garbage.
//! Each operation's contract states the exact integer result.

use vstd::prelude::*;

verus! {

/// Number of fixed-point units in the real value 1.0.
pub const FX_ONE: i64 = 1_000_000_000;

/// Absolute value over the mathematical integers.
pub open spec fn absi(a: int) -> int {
    if a >= 0 { a } else { -a }
}

/// Division truncated toward zero (the quotient's magnitude is the
/// Euclidean quotient of the magnitudes). Unspecified for b == 0.
pub open spec fn qdiv(a: int, b: int) -> int {
    let q = absi(a) / absi(b);
    if (a >= 0) == (b >= 0) { q } else { -q }
}

/// Clamp to the `i64` range.
pub open spec fn clamp_fx(a: int) -> int {
    if a > i64::MAX { i64::MAX as int } else if a < i64::MIN { i64::MIN as int } else { a }
}

/// Saturating fixed-point product: (a * b) / FX_ONE, truncated, clamped.
pub open spec fn s_mul(a: int, b: int) -> int {
    clamp_fx(qdiv(a * b, FX_ONE as int))
}

/// Saturating sum.
pub open spec fn s_add(a: int, b: int) -> int {
    clamp_fx(a + b)
}

/// Saturating difference.
pub open spec fn s_sub(a: int, b: int) -> int {
    clamp_fx(a - b)
}

/// Saturating fixed-point quotient: (a * FX_ONE) / b, truncated, clamped;
/// zero for a zero divisor (degenerate-state guard).
pub open spec fn s_div(a: int, b: int) -> int {
    if b == 0 { 0 } else { clamp_fx(qdiv(a * FX_ONE, b)) }
}

/// Plain integer division of a scalar by a positive count (used for
/// means and for halving); truncated toward zero. No scaling: the
/// result is again a fixed-point scalar.
pub open spec fn s_divn(a: int, n: int) -> int {
    qdiv(a, n)
}

/// The product of two `i64` values stays well inside the `i128` range.
proof fn lemma_i64_prod_in_range(a: int, b: int)
    requires
        i64::MIN as int <= a <= i64::MAX as int,
        i64::MIN as int <= b <= i64::MAX as int,
    ensures
        -(i128::MAX as int) < a * b <= i128::MAX as int,
{
    assert(-(i128::MAX as int) < a * b <= i128::MAX as int) by (nonlinear_arith)
        requires
            i64::MIN as int <= a <= i64::MAX as int,
            i64::MIN as int <= b <= i64::MAX as int,
    ;
}

/// Divide a signed 128-bit value by a nonzero one, truncating toward zero,
/// and clamp the quotient into the `i64` range.
fn div_trunc_clamp(p: i128, d: i128) -> (r: i64)
    requires
        d != 0,
        p != i128::MIN,
        d != i128::MIN,
    ensures
        r as int == clamp_fx(qdiv(p as int, d as int)),
{
    let pneg = p < 0;
    let dneg = d < 0;
    let pa: u128 = if pneg { (-p) as u128 } else { p as u128 };
    let da: u128 = if dneg { (-d) as u128 } else { d as u128 };
    let q: u128 = pa / da;
    assert(pa as int == absi(p as int));
    assert(da as int == absi(d as int));
    if pneg == dneg {
        if q > i64::MAX as u128 {
            i64::MAX
        } else {
            q as i64
        }
    } else {
        if q >= 9223372036854775808u128 {
            i64::MIN
        } else {
            -(q as i64)
        }
    }
}

/// Fixed-point product, saturating.
pub fn fx_mul(a: i64, b: i64) -> (r: i64)
    ensures
        r as int == s_mul(a as int, b as int),
{
    proof {
        lemma_i64_prod_in_range(a as int, b as int);
    }
    let p: i128 = (a as i128) * (b as i128);
    div_trunc_clamp(p, FX_ONE as i128)
}

/// Saturating sum.
pub fn fx_add(a: i64, b: i64) -> (r: i64)
    ensures
        r as int == s_add(a as int, b as int),
{
    let p: i128 = (a as i128) + (b as i128);
    if p > i64::MAX as i128 {
        i64::MAX
    } else if p < i64::MIN as i128 {
        i64::MIN
    } else {
        p as i64
    }
}

/// Saturating difference.
pub fn fx_sub(a: i64, b: i64) -> (r: i64)
    ensures
        r as int == s_sub(a as int, b as int),
{
    let p: i128 = (a as i128) - (b as i128);
    if p > i64::MAX as i128 {
        i64::MAX
    } else if p < i64::MIN as i128 {
        i64::MIN
    } else {
        p as i64
    }
}

/// Fixed-point quotient, saturating; zero for a zero divisor.
pub fn fx_div(a: i64, b: i64) -> (r: i64)
    ensures
        r as int == s_div(a as int, b as int),
{
    if b == 0 {
        return 0;
    }
    proof {
        lemma_i64_prod_in_range(a as int, FX_ONE as int);
    }
    let p: i128 = (a as i128) * (FX_ONE as i128);
    div_trunc_clamp(p, b as i128)
}

/// Integer division of a scalar by a positive count, truncated toward zero.
pub fn fx_divn(a: i64, n: i64) -> (r: i64)
    requires
        0 < n,
    ensures
        r as int == s_divn(a as int, n as int),
{
    if a >= 0 {
        a / n
    } else {
        let q: u128 = ((-(a as i128)) as u128) / (n as u128);
        assert(q as int == absi(a as int) / absi(n as int));
        assert(q <= (-(a as i128)) as u128);
        if q >= 9223372036854775808u128 {
            i64::MIN
        } else {
            -(q as i64)
        }
    }
}

/// Mean of two scalars, truncated toward zero. Computed at double width,
/// so it is exact (never saturates), and avg(a, a) == a for every a.
pub open spec fn s_avg(a: int, b: int) -> int {
    qdiv(a + b, 2)
}

/// Mean of two scalars, truncated toward zero.
pub fn fx_avg(a: i64, b: i64) -> (r: i64)
    ensures
        r as int == s_avg(a as int, b as int),
{
    let p: i128 = (a as i128) + (b as i128);
    if p >= 0 {
        let q: u128 = (p as u128) / 2;
        assert(q as int == absi(p as int) / 2);
        q as i64
    } else {
        let q: u128 = ((-p) as u128) / 2;
        assert(q as int == absi(p as int) / 2);
        if q >= 9223372036854775808u128 {
            i64::MIN
        } else {
            -(q as i64)
        }
    }
}

/// The mean of a value with itself is that value.
pub proof fn lemma_avg_self(a: int)
    ensures
        s_avg(a, a) == a,
{
    assert(absi(a + a) == 2 * absi(a));
    vstd::arithmetic::div_mod::lemma_div_multiples_vanish(absi(a), 2);
}

/// The saturating product of two non-negative scalars is non-negative.
pub proof fn lemma_s_mul_nonneg(a: int, b: int)
    requires
        0 <= a,
        0 <= b,
    ensures
        0 <= s_mul(a, b),
{
    assert(a * b >= 0) by (nonlinear_arith)
        requires
            a >= 0,
            b >= 0,
    ;
    vstd::arithmetic::div_mod::lemma_div_is_ordered(0, a * b, FX_ONE as int);
}

/// The truncated quotient of a non-negative scalar by a positive count is
/// non-negative and no larger than the scalar.
pub proof fn lemma_s_divn_nonneg(a: int, n: int)
    requires
        0 <= a,
        0 < n,
    ensures
        0 <= s_divn(a, n) <= a,
{
    vstd::arithmetic::div_mod::lemma_div_is_ordered(0, a, n);
    vstd::arithmetic::div_mod::lemma_div_nonincreasing(a, n);
}

/// Absolute value, saturating (|i64::MIN| clamps to i64::MAX).
pub fn fx_abs(a: i64) -> (r: i64)
    ensures
        r as int == clamp_fx(absi(a as int)),
{
    if a == i64::MIN {
        i64::MAX
    } else if a < 0 {
        -a
    } else {
        a
    }
}

/// Saturating negation.
pub fn fx_neg(a: i64) -> (r: i64)
    ensures
        r as int == clamp_fx(-(a as int)),
{
    if a == i64::MIN {
        i64::MAX
    } else {
        -a
    }
}

} // verus!
