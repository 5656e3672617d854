//! Fixed-point roots, powers and exponentials.
//!
//! The roots return the exact floor of the real root at fixed-point
//! resolution (stated as a two-sided bracket). The power uses a natural
//! exponent; the decaying and growing exponentials are range-reduced
//! truncated series, specified exactly by mirror spec functions.

use vstd::prelude::*;
use crate::fx::{FX_ONE, s_mul, s_add, s_sub, s_divn, fx_mul, fx_add, fx_sub, fx_divn};
use vstd::arithmetic::div_mod::lemma_div_is_ordered;
use vstd::arithmetic::mul::lemma_mul_inequality;
use vstd::arithmetic::mul::lemma_mul_upper_bound;

verus! {

/// The floor of the square root: the unique r >= 0 with r*r <= v < (r+1)*(r+1)
/// (zero for negative v).
pub open spec fn sqrt_floor(v: int) -> int {
    choose|r: int| r >= 0 && #[trigger] (r * r) <= v && v < (r + 1) * (r + 1)
}

/// The bracket r*r <= v < (r+1)*(r+1) pins r down.
pub proof fn lemma_sqrt_floor_unique(v: int, r: int)
    requires
        r >= 0,
        r * r <= v,
        v < (r + 1) * (r + 1),
    ensures
        sqrt_floor(v) == r,
{
    assert(exists|q: int| q >= 0 && #[trigger] (q * q) <= v && v < (q + 1) * (q + 1)) by {
        assert(r >= 0 && r * r <= v && v < (r + 1) * (r + 1));
    }
    let w = sqrt_floor(v);
    assert(w >= 0 && w * w <= v && v < (w + 1) * (w + 1));
    assert(w == r) by (nonlinear_arith)
        requires
            w >= 0,
            w * w <= v,
            v < (w + 1) * (w + 1),
            r >= 0,
            r * r <= v,
            v < (r + 1) * (r + 1),
    ;
}

/// The floor of the cube root: the unique r >= 0 with r^3 <= v < (r+1)^3
/// (zero for negative v).
pub open spec fn cbrt_floor(v: int) -> int {
    choose|r: int| r >= 0 && #[trigger] (r * r * r) <= v && v < (r + 1) * (r + 1) * (r + 1)
}

/// The bracket r^3 <= v < (r+1)^3 pins r down.
pub proof fn lemma_cbrt_floor_unique(v: int, r: int)
    requires
        r >= 0,
        r * r * r <= v,
        v < (r + 1) * (r + 1) * (r + 1),
    ensures
        cbrt_floor(v) == r,
{
    assert(exists|q: int| q >= 0 && #[trigger] (q * q * q) <= v && v < (q + 1) * (q + 1) * (q + 1))
        by {
        assert(r >= 0 && r * r * r <= v && v < (r + 1) * (r + 1) * (r + 1));
    }
    let w = cbrt_floor(v);
    assert(w >= 0 && w * w * w <= v && v < (w + 1) * (w + 1) * (w + 1));
    assert(w == r) by (nonlinear_arith)
        requires
            w >= 0,
            w * w * w <= v,
            v < (w + 1) * (w + 1) * (w + 1),
            r >= 0,
            r * r * r <= v,
            v < (r + 1) * (r + 1) * (r + 1),
    ;
}

/// Fixed-point square root of a non-negative scalar: the largest scalar r
/// with r*r <= x at full fixed-point precision.
pub fn fx_sqrt(x: i64) -> (r: i64)
    requires
        0 <= x,
    ensures
        0 <= r,
        r as int == sqrt_floor(x * FX_ONE),
        (r as int) * (r as int) <= (x as int) * (FX_ONE as int),
        (x as int) * (FX_ONE as int) < (r + 1) * (r + 1),
{
    let v: u128 = (x as u128) * (FX_ONE as u128);
    proof {
        lemma_mul_upper_bound(x as int, i64::MAX as int, FX_ONE as int, FX_ONE as int);
        assert((i64::MAX as int) * (FX_ONE as int) < (140737488355328u128) as int * ((140737488355328u128) as int));
    }
    let mut lo: u128 = 0;
    let mut hi: u128 = 140737488355328u128;
    assert((lo * lo) as int <= v as int);
    assert((v as int) < (hi * hi) as int);
    while lo + 1 < hi
        invariant
            lo < hi,
            hi <= 140737488355328u128,
            (lo * lo) as int <= v as int,
            (v as int) < (hi * hi) as int,
            v == (x as int) * (FX_ONE as int),
        decreases hi - lo,
    {
        let mid: u128 = lo + (hi - lo) / 2;
        proof {
            lemma_mul_upper_bound(mid as int, 140737488355328int, mid as int, 140737488355328int);
        }
        if mid * mid <= v {
            lo = mid;
        } else {
            hi = mid;
        }
    }
    proof {
        assert(hi == lo + 1);
        assert(lo < (9223372036854775808u128)) by {
            assert(lo >= (9223372036854775808u128) ==> lo * lo > v) by (nonlinear_arith)
                requires
                    (v as int) < ((lo + 1) * (lo + 1)) as int || true,
                    v < (85070591730234615865843651857942052864u128),
            ;
            assert(v < (85070591730234615865843651857942052864u128));
        }
        lemma_sqrt_floor_unique((x as int) * (FX_ONE as int), lo as int);
    }
    lo as i64
}

/// Fixed-point cube root of a non-negative scalar: the largest scalar r
/// with r*r*r <= x at full fixed-point precision.
pub fn fx_cbrt(x: i64) -> (r: i64)
    requires
        0 <= x,
    ensures
        0 <= r,
        r as int == cbrt_floor((x as int) * (FX_ONE as int) * (FX_ONE as int)),
        (r as int) * (r as int) * (r as int) <= (x as int) * (FX_ONE as int) * (FX_ONE as int),
        (x as int) * (FX_ONE as int) * (FX_ONE as int) < (r + 1) * (r + 1) * (r + 1),
{
    let xs: u128 = (x as u128) * (FX_ONE as u128);
    proof {
        lemma_mul_upper_bound(x as int, i64::MAX as int, FX_ONE as int, FX_ONE as int);
        lemma_mul_upper_bound(
            xs as int,
            (i64::MAX as int) * (FX_ONE as int),
            FX_ONE as int,
            FX_ONE as int,
        );
    }
    let v: u128 = xs * (FX_ONE as u128);
    proof {
        assert((i64::MAX as int) * (FX_ONE as int) * (FX_ONE as int) < (4398046511104u128) as int * (
        (4398046511104u128) as int) * ((4398046511104u128) as int));
    }
    let mut lo: u128 = 0;
    let mut hi: u128 = 4398046511104u128;
    while lo + 1 < hi
        invariant
            lo < hi,
            hi <= 4398046511104u128,
            ((lo * lo) * lo) as int <= v as int,
            (v as int) < ((hi * hi) * hi) as int,
            v == (x as int) * (FX_ONE as int) * (FX_ONE as int),
        decreases hi - lo,
    {
        let mid: u128 = lo + (hi - lo) / 2;
        proof {
            lemma_mul_upper_bound(mid as int, 4398046511104int, mid as int, 4398046511104int);
            lemma_mul_upper_bound(
                (mid * mid) as int,
                4398046511104int * 4398046511104int,
                mid as int,
                4398046511104int,
            );
        }
        if mid * mid * mid <= v {
            lo = mid;
        } else {
            hi = mid;
        }
    }
    proof {
        assert(hi == lo + 1);
        lemma_cbrt_floor_unique((x as int) * (FX_ONE as int) * (FX_ONE as int), lo as int);
    }
    lo as i64
}

/// Fixed-point power with a natural exponent: e-fold saturating product,
/// with s_pow(b, 0) == 1.0.
pub open spec fn s_pow(b: int, e: nat) -> int
    decreases e,
{
    if e == 0 {
        FX_ONE as int
    } else {
        s_mul(b, s_pow(b, (e - 1) as nat))
    }
}

/// Fixed-point power, saturating.
pub fn fx_pow(b: i64, e: u32) -> (r: i64)
    ensures
        r as int == s_pow(b as int, e as nat),
{
    let mut r: i64 = FX_ONE;
    let mut i: u32 = 0;
    while i < e
        invariant
            i <= e,
            r as int == s_pow(b as int, i as nat),
        decreases e - i,
    {
        r = fx_mul(b, r);
        i = i + 1;
    }
    r
}

/// k-th term of the alternating series for e^(-v): term 0 is 1.0,
/// term k is term (k-1) * v / k (fixed-point product, integer division).
pub open spec fn exp_term(v: int, k: nat) -> int
    decreases k,
{
    if k == 0 {
        FX_ONE as int
    } else {
        s_divn(s_mul(exp_term(v, (k - 1) as nat), v), k as int)
    }
}

/// Alternating partial sum of the series for e^(-v) through term k.
pub open spec fn exp_sum(v: int, k: nat) -> int
    decreases k,
{
    if k == 0 {
        FX_ONE as int
    } else if k % 2 == 1 {
        s_sub(exp_sum(v, (k - 1) as nat), exp_term(v, k))
    } else {
        s_add(exp_sum(v, (k - 1) as nat), exp_term(v, k))
    }
}

/// Clamp into [0, 1.0].
pub open spec fn clamp_unit(x: int) -> int {
    if x < 0 { 0 } else if x > FX_ONE { FX_ONE as int } else { x }
}

/// e^(-u) for u >= 0, by range reduction: v = u/32 is summed by the
/// 10-term alternating series, clamped into [0, 1.0], then squared
/// five times. Values below the fixed-point resolution (u >= 21) are 0.
pub open spec fn exp_neg_spec(u: int) -> int {
    if u >= 21 * FX_ONE {
        0
    } else {
        let v = s_divn(u, 32);
        let s = clamp_unit(exp_sum(v, 10));
        let s2 = s_mul(s, s);
        let s4 = s_mul(s2, s2);
        let s8 = s_mul(s4, s4);
        let s16 = s_mul(s8, s8);
        s_mul(s16, s16)
    }
}

/// The square of a scalar is non-negative.
pub proof fn lemma_sq_nonneg(a: int)
    ensures
        s_mul(a, a) >= 0,
{
    assert(a * a >= 0) by (nonlinear_arith);
    lemma_div_is_ordered(0, a * a, FX_ONE as int);
}

/// The square of a scalar of magnitude at most 1.0 lies in [0, 1.0].
pub proof fn lemma_sq_unit(a: int)
    requires
        -(FX_ONE as int) <= a <= FX_ONE as int,
    ensures
        0 <= s_mul(a, a) <= FX_ONE as int,
{
    lemma_sq_nonneg(a);
    let m = if a >= 0 { a } else { -a };
    assert(a * a == m * m) by (nonlinear_arith)
        requires
            m == a || m == -a,
    ;
    lemma_mul_upper_bound(m, FX_ONE as int, m, FX_ONE as int);
    lemma_div_is_ordered(a * a, (FX_ONE as int) * (FX_ONE as int), FX_ONE as int);
    assert((FX_ONE as int) * (FX_ONE as int) / (FX_ONE as int) == FX_ONE as int);
}

/// A product of two scalars of magnitude at most 1.0 has magnitude at
/// most 1.0.
pub proof fn lemma_unit_mul_sym(a: int, b: int)
    requires
        -(FX_ONE as int) <= a <= FX_ONE as int,
        -(FX_ONE as int) <= b <= FX_ONE as int,
    ensures
        -(FX_ONE as int) <= s_mul(a, b) <= FX_ONE as int,
{
    let ma = if a >= 0 { a } else { -a };
    let mb = if b >= 0 { b } else { -b };
    assert(crate::fx::absi(a * b) == ma * mb) by (nonlinear_arith)
        requires
            ma == crate::fx::absi(a),
            mb == crate::fx::absi(b),
    ;
    lemma_mul_upper_bound(ma, FX_ONE as int, mb, FX_ONE as int);
    lemma_div_is_ordered(ma * mb, (FX_ONE as int) * (FX_ONE as int), FX_ONE as int);
    assert((FX_ONE as int) * (FX_ONE as int) / (FX_ONE as int) == FX_ONE as int);
    assert(ma * mb >= 0) by (nonlinear_arith)
        requires
            ma >= 0,
            mb >= 0,
    ;
    lemma_div_is_ordered(0, ma * mb, FX_ONE as int);
}

/// A product of two scalars in [0, 1.0] stays in [0, 1.0].
pub proof fn lemma_unit_mul(a: int, b: int)
    requires
        0 <= a <= FX_ONE,
        0 <= b <= FX_ONE,
    ensures
        0 <= s_mul(a, b) <= FX_ONE,
{
    lemma_mul_inequality(a, FX_ONE as int, b);
    lemma_mul_upper_bound(a, FX_ONE as int, b, FX_ONE as int);
    assert(a * b >= 0) by (nonlinear_arith)
        requires
            a >= 0,
            b >= 0,
    ;
    lemma_div_is_ordered(a * b, (FX_ONE as int) * (FX_ONE as int), FX_ONE as int);
    assert((FX_ONE as int) * (FX_ONE as int) / (FX_ONE as int) == FX_ONE as int);
}

/// Decaying exponential e^(-u) of a non-negative scalar, in [0, 1.0].
pub fn fx_exp_neg(u: i64) -> (r: i64)
    requires
        0 <= u,
    ensures
        r as int == exp_neg_spec(u as int),
        0 <= r <= FX_ONE,
{
    if u >= 21 * FX_ONE {
        return 0;
    }
    let v: i64 = fx_divn(u, 32);
    let mut term: i64 = FX_ONE;
    let mut sum: i64 = FX_ONE;
    let mut k: u32 = 1;
    while k <= 10
        invariant
            1 <= k <= 11,
            term as int == exp_term(v as int, (k - 1) as nat),
            sum as int == exp_sum(v as int, (k - 1) as nat),
        decreases 11 - k,
    {
        term = fx_divn(fx_mul(term, v), k as i64);
        if k % 2 == 1 {
            sum = fx_sub(sum, term);
        } else {
            sum = fx_add(sum, term);
        }
        k = k + 1;
    }
    let s: i64 = if sum < 0 {
        0
    } else if sum > FX_ONE {
        FX_ONE
    } else {
        sum
    };
    proof {
        lemma_unit_mul(s as int, s as int);
    }
    let s2: i64 = fx_mul(s, s);
    proof {
        lemma_unit_mul(s2 as int, s2 as int);
    }
    let s4: i64 = fx_mul(s2, s2);
    proof {
        lemma_unit_mul(s4 as int, s4 as int);
    }
    let s8: i64 = fx_mul(s4, s4);
    proof {
        lemma_unit_mul(s8 as int, s8 as int);
    }
    let s16: i64 = fx_mul(s8, s8);
    proof {
        lemma_unit_mul(s16 as int, s16 as int);
    }
    fx_mul(s16, s16)
}

/// Truncated division is monotone in the numerator for a positive
/// divisor.
pub proof fn lemma_qdiv_mono(a1: int, a2: int, d: int)
    requires
        a1 <= a2,
        0 < d,
    ensures
        crate::fx::qdiv(a1, d) <= crate::fx::qdiv(a2, d),
{
    if a1 >= 0 {
        lemma_div_is_ordered(a1, a2, d);
    } else if a2 >= 0 {
        vstd::arithmetic::div_mod::lemma_div_pos_is_pos(-a1, d);
        vstd::arithmetic::div_mod::lemma_div_pos_is_pos(a2, d);
    } else {
        lemma_div_is_ordered(-a2, -a1, d);
    }
}

/// The saturating fixed-point quotient is monotone in the numerator for
/// a positive divisor.
pub proof fn lemma_s_div_mono(a1: int, a2: int, d: int)
    requires
        a1 <= a2,
        0 < d,
    ensures
        crate::fx::s_div(a1, d) <= crate::fx::s_div(a2, d),
{
    lemma_mul_inequality(a1, a2, FX_ONE as int);
    lemma_qdiv_mono(a1 * FX_ONE, a2 * FX_ONE, d);
}

/// The saturating product is monotone in its right factor for a
/// non-negative left factor.
pub proof fn lemma_s_mul_mono_right(a: int, b1: int, b2: int)
    requires
        0 <= a,
        b1 <= b2,
    ensures
        s_mul(a, b1) <= s_mul(a, b2),
{
    lemma_mul_inequality(b1, b2, a);
    assert(b1 * a == a * b1) by (nonlinear_arith);
    assert(b2 * a == a * b2) by (nonlinear_arith);
    lemma_qdiv_mono(a * b1, a * b2, FX_ONE as int);
}

/// A fixed-point power of a non-negative base is non-negative.
pub proof fn lemma_s_pow_nonneg(b: int, e: nat)
    requires
        0 <= b,
    ensures
        0 <= s_pow(b, e),
    decreases e,
{
    if e > 0 {
        lemma_s_pow_nonneg(b, (e - 1) as nat);
        crate::fx::lemma_s_mul_nonneg(b, s_pow(b, (e - 1) as nat));
    }
}

/// The fixed-point power is monotone in a non-negative base.
pub proof fn lemma_s_pow_mono(b1: int, b2: int, e: nat)
    requires
        0 <= b1 <= b2,
    ensures
        s_pow(b1, e) <= s_pow(b2, e),
    decreases e,
{
    if e > 0 {
        lemma_s_pow_mono(b1, b2, (e - 1) as nat);
        lemma_s_pow_nonneg(b1, (e - 1) as nat);
        lemma_s_mul_mono_right(b1, s_pow(b1, (e - 1) as nat), s_pow(b2, (e - 1) as nat));
        // s_mul is symmetric in its arguments, so monotonicity in the
        // left factor follows from monotonicity in the right one
        assert(b1 * s_pow(b2, (e - 1) as nat) == s_pow(b2, (e - 1) as nat) * b1)
            by (nonlinear_arith);
        assert(b2 * s_pow(b2, (e - 1) as nat) == s_pow(b2, (e - 1) as nat) * b2)
            by (nonlinear_arith);
        lemma_s_mul_mono_right(s_pow(b2, (e - 1) as nat), b1, b2);
        assert(s_mul(b1, s_pow(b2, (e - 1) as nat)) == s_mul(s_pow(b2, (e - 1) as nat), b1));
        assert(s_mul(b2, s_pow(b2, (e - 1) as nat)) == s_mul(s_pow(b2, (e - 1) as nat), b2));
    }
}

/// k-th term of the series for e^v: term 0 is 1.0, term k is
/// term (k-1) * v / k (fixed-point product, integer division).
pub open spec fn exp_pos_term(v: int, k: nat) -> int
    decreases k,
{
    if k == 0 {
        FX_ONE as int
    } else {
        s_divn(s_mul(exp_pos_term(v, (k - 1) as nat), v), k as int)
    }
}

/// Partial sum of the series for e^v through term k.
pub open spec fn exp_pos_sum(v: int, k: nat) -> int
    decreases k,
{
    if k == 0 {
        FX_ONE as int
    } else {
        s_add(exp_pos_sum(v, (k - 1) as nat), exp_pos_term(v, k))
    }
}

/// e^u for u >= 0, by range reduction: v = u/32 is summed by the
/// 10-term series, then squared five times with saturating products, so
/// a value beyond the scalar range comes out clamped at the maximum.
pub open spec fn exp_pos_spec(u: int) -> int {
    let v = s_divn(u, 32);
    let s = exp_pos_sum(v, 10);
    let s2 = s_mul(s, s);
    let s4 = s_mul(s2, s2);
    let s8 = s_mul(s4, s4);
    let s16 = s_mul(s8, s8);
    s_mul(s16, s16)
}

/// Growing exponential e^u of a non-negative scalar, saturating at the
/// scalar maximum (reached near u = 23).
pub fn fx_exp_pos(u: i64) -> (r: i64)
    requires
        0 <= u,
    ensures
        r as int == exp_pos_spec(u as int),
{
    let v: i64 = fx_divn(u, 32);
    let mut term: i64 = FX_ONE;
    let mut sum: i64 = FX_ONE;
    let mut k: u32 = 1;
    while k <= 10
        invariant
            1 <= k <= 11,
            term as int == exp_pos_term(v as int, (k - 1) as nat),
            sum as int == exp_pos_sum(v as int, (k - 1) as nat),
        decreases 11 - k,
    {
        term = fx_divn(fx_mul(term, v), k as i64);
        sum = fx_add(sum, term);
        k = k + 1;
    }
    let s2: i64 = fx_mul(sum, sum);
    let s4: i64 = fx_mul(s2, s2);
    let s8: i64 = fx_mul(s4, s4);
    let s16: i64 = fx_mul(s8, s8);
    fx_mul(s16, s16)
}

} // verus!
