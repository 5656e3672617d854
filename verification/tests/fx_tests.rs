//! Scalar fixed-point arithmetic behavior.

use mmuvp::fx::{fx_mul, fx_add, fx_sub, fx_div, fx_divn, fx_avg, fx_abs, fx_neg, FX_ONE};
use mmuvp::fxmath::{fx_sqrt, fx_cbrt, fx_pow, fx_exp_neg};

fn fx(x: f64) -> i64 {
    (x * 1e9).round() as i64
}

#[test]
fn mul_exact_values() {
    assert_eq!(fx_mul(fx(2.5), fx(4.0)), fx(10.0));
    assert_eq!(fx_mul(fx(-2.5), fx(4.0)), fx(-10.0));
    assert_eq!(fx_mul(0, fx(123.0)), 0);
    assert_eq!(fx_mul(FX_ONE, fx(7.25)), fx(7.25));
}

#[test]
fn mul_truncates_toward_zero() {
    // 1e-9 * 0.5 = 5e-10, truncated to zero at 1e-9 resolution
    assert_eq!(fx_mul(1, fx(0.5)), 0);
    assert_eq!(fx_mul(-1, fx(0.5)), 0);
}

#[test]
fn mul_saturates() {
    assert_eq!(fx_mul(i64::MAX, i64::MAX), i64::MAX);
    assert_eq!(fx_mul(i64::MAX, i64::MIN), i64::MIN);
}

#[test]
fn add_sub_saturate() {
    assert_eq!(fx_add(i64::MAX, 1), i64::MAX);
    assert_eq!(fx_sub(i64::MIN, 1), i64::MIN);
    assert_eq!(fx_add(fx(1.5), fx(2.25)), fx(3.75));
    assert_eq!(fx_sub(fx(1.5), fx(2.25)), fx(-0.75));
}

#[test]
fn div_exact_and_guarded() {
    assert_eq!(fx_div(fx(10.0), fx(4.0)), fx(2.5));
    assert_eq!(fx_div(fx(-10.0), fx(4.0)), fx(-2.5));
    // a zero divisor is degenerate and yields zero
    assert_eq!(fx_div(fx(10.0), 0), 0);
}

#[test]
fn divn_and_avg() {
    assert_eq!(fx_divn(fx(9.0), 3), fx(3.0));
    assert_eq!(fx_divn(fx(-9.0), 2), fx(-4.5));
    assert_eq!(fx_avg(fx(1.0), fx(2.0)), fx(1.5));
    assert_eq!(fx_avg(fx(-3.0), fx(-3.0)), fx(-3.0));
    assert_eq!(fx_avg(i64::MAX, i64::MAX), i64::MAX);
}

#[test]
fn abs_neg() {
    assert_eq!(fx_abs(fx(-2.0)), fx(2.0));
    assert_eq!(fx_abs(i64::MIN), i64::MAX);
    assert_eq!(fx_neg(fx(2.0)), fx(-2.0));
    assert_eq!(fx_neg(i64::MIN), i64::MAX);
}

#[test]
fn sqrt_exact_squares() {
    assert_eq!(fx_sqrt(fx(4.0)), fx(2.0));
    assert_eq!(fx_sqrt(fx(0.25)), fx(0.5));
    assert_eq!(fx_sqrt(0), 0);
    // the floor of an irrational root: r*r <= x < (r+1)*(r+1)
    let r = fx_sqrt(fx(2.0));
    assert!((r as i128) * (r as i128) <= 2_000_000_000i128 * 1_000_000_000);
    assert!((r as i128 + 1) * (r as i128 + 1) > 2_000_000_000i128 * 1_000_000_000);
}

#[test]
fn cbrt_exact_cubes() {
    assert_eq!(fx_cbrt(fx(8.0)), fx(2.0));
    assert_eq!(fx_cbrt(fx(0.125)), fx(0.5));
    assert_eq!(fx_cbrt(0), 0);
}

#[test]
fn pow_integer_exponents() {
    assert_eq!(fx_pow(fx(2.0), 0), FX_ONE);
    assert_eq!(fx_pow(fx(2.0), 10), fx(1024.0));
    assert_eq!(fx_pow(fx(1.5), 2), fx(2.25));
}

#[test]
fn exp_neg_known_values() {
    assert_eq!(fx_exp_neg(0), FX_ONE);
    // e^-1 = 0.367879441...
    let e1 = fx_exp_neg(FX_ONE);
    assert!((e1 - fx(0.367879441)).abs() < fx(0.000001));
    // e^-5 = 0.006737947
    let e5 = fx_exp_neg(fx(5.0));
    assert!((e5 - fx(0.006737947)).abs() < fx(0.000001));
    // below resolution
    assert_eq!(fx_exp_neg(fx(25.0)), 0);
}
