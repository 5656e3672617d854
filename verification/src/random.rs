//! Stochastic microstructure initialization.
//!
//! Uniform random orientations for the initial texture and for nucleated
//! grains, and the Rayleigh-distributed subgrain radii. All randomness
//! flows from one caller-supplied, seedable generator, so a run is
//! reproducible from its seed; every function here states what holds of
//! every possible outcome, and nothing is promised about which outcome
//! comes.

use vstd::prelude::*;
use crate::fx::{FX_ONE, s_mul, s_add, s_div, fx_mul, fx_add, fx_sub, fx_div, fx_neg};
use crate::fxmath::{fx_sqrt, fx_exp_neg, exp_neg_spec, lemma_sq_unit};
use crate::tensor::Mat3;

verus! {

/// The standard random generator of the rand crate, opaque here; a value
/// carries the whole sampling state of a run.
#[verifier::external_type_specification]
#[verifier::external_body]
pub struct ExStdRng(rand::rngs::StdRng);

/// Relies on rand::SeedableRng::seed_from_u64: a generator whose entire
/// draw sequence is determined by the seed.
#[verifier::external_body]
pub fn rng_from_seed(seed: u64) -> rand::rngs::StdRng {
    rand::SeedableRng::seed_from_u64(seed)
}

/// Relies on rand::Rng::gen_range over the integer range 0..bound: it
/// panics only on an empty range and returns a value of the range.
#[verifier::external_body]
fn rand_below(rng: &mut rand::rngs::StdRng, bound: u64) -> (r: u64)
    requires
        bound > 0,
    ensures
        r < bound,
{
    rand::Rng::gen_range(rng, 0..bound)
}

/// A uniform scalar in [0, bound).
pub fn rand_fx(rng: &mut rand::rngs::StdRng, bound: i64) -> (r: i64)
    requires
        bound > 0,
    ensures
        0 <= r < bound,
{
    rand_below(rng, bound as u64) as i64
}

/// A uniform scalar in [-bound, bound).
pub fn rand_fx_sym(rng: &mut rand::rngs::StdRng, bound: i64) -> (r: i64)
    requires
        0 < bound <= 2_000_000_000,
    ensures
        -bound <= r < bound,
{
    rand_fx(rng, 2 * bound) - bound
}

/// Clamp a scalar into [-1.0, 1.0].
fn clamp_to_unit(v: i64) -> (r: i64)
    ensures
        -FX_ONE <= r <= FX_ONE,
        -FX_ONE <= v <= FX_ONE ==> r == v,
{
    if v > FX_ONE {
        FX_ONE
    } else if v < -FX_ONE {
        -FX_ONE
    } else {
        v
    }
}

/// A uniform random point on the unit circle, as (cosine, sine) of a
/// uniform angle: rejection sampling of a point in the unit disk, mapped
/// through the double-angle formulas, which avoids any trigonometric
/// call. After an (astronomically unlikely) run of rejected draws the
/// angle zero is returned.
pub fn sample_unit_circle(rng: &mut rand::rngs::StdRng) -> (p: (i64, i64))
    ensures
        -FX_ONE <= p.0 <= FX_ONE,
        -FX_ONE <= p.1 <= FX_ONE,
{
    let mut attempt: usize = 0;
    while attempt < 64
        invariant
            attempt <= 64,
        decreases 64 - attempt,
    {
        let x = rand_fx_sym(rng, FX_ONE);
        let y = rand_fx_sym(rng, FX_ONE);
        proof {
            lemma_sq_unit(x as int);
            lemma_sq_unit(y as int);
        }
        let x2 = fx_mul(x, x);
        let y2 = fx_mul(y, y);
        let d = fx_add(x2, y2);
        // require a radius in [0.1, 1]: inside the disk for uniformity,
        // away from zero so the divisions below keep their precision
        if d >= FX_ONE / 100 && d <= FX_ONE {
            let xy = fx_mul(x, y);
            let c = clamp_to_unit(fx_div(fx_sub(x2, y2), d));
            let s = clamp_to_unit(fx_div(fx_add(xy, xy), d));
            return (c, s);
        }
        attempt = attempt + 1;
    }
    (FX_ONE, 0)
}

/// One raw draw from the uniform orientation distribution: azimuth and
/// twist uniform on the circle, the polar cosine uniform in [-1, 1),
/// combined into the Euler rotation matrix. Whatever the draws, every
/// entry has magnitude at most 2.0 and the bottom row at most 1.0; the
/// draw is raw in that fixed-point rounding is not yet checked against
/// the orthogonality tolerance.
fn draw_orientation(rng: &mut rand::rngs::StdRng) -> (m: Mat3)
    ensures
        -2 * FX_ONE <= m.xx <= 2 * FX_ONE,
        -2 * FX_ONE <= m.xy <= 2 * FX_ONE,
        -FX_ONE <= m.xz <= FX_ONE,
        -2 * FX_ONE <= m.yx <= 2 * FX_ONE,
        -2 * FX_ONE <= m.yy <= 2 * FX_ONE,
        -FX_ONE <= m.yz <= FX_ONE,
        -FX_ONE <= m.zx <= FX_ONE,
        -FX_ONE <= m.zy <= FX_ONE,
        -FX_ONE <= m.zz <= FX_ONE,
{
    let cb = rand_fx_sym(rng, FX_ONE);
    proof {
        lemma_sq_unit(cb as int);
    }
    let sb = fx_sqrt(fx_sub(FX_ONE, fx_mul(cb, cb)));
    proof {
        assert(sb <= FX_ONE) by (nonlinear_arith)
            requires
                sb >= 0,
                (sb as int) * (sb as int) <= (FX_ONE as int) * (FX_ONE as int),
        ;
    }
    let (ca, sa) = sample_unit_circle(rng);
    let (cg, sg) = sample_unit_circle(rng);
    let ca_cb = fx_mul(ca, cb);
    let cb_sa = fx_mul(cb, sa);
    let cb_cg = fx_mul(cb, cg);
    proof {
        crate::fxmath::lemma_unit_mul_sym(ca as int, cb as int);
        crate::fxmath::lemma_unit_mul_sym(cb as int, sa as int);
        crate::fxmath::lemma_unit_mul_sym(cb as int, cg as int);
        crate::fxmath::lemma_unit_mul_sym(ca_cb as int, cg as int);
        crate::fxmath::lemma_unit_mul_sym(sa as int, sg as int);
        crate::fxmath::lemma_unit_mul_sym(cg as int, sa as int);
        crate::fxmath::lemma_unit_mul_sym(ca_cb as int, sg as int);
        crate::fxmath::lemma_unit_mul_sym(ca as int, sb as int);
        crate::fxmath::lemma_unit_mul_sym(cb_cg as int, sa as int);
        crate::fxmath::lemma_unit_mul_sym(ca as int, sg as int);
        crate::fxmath::lemma_unit_mul_sym(ca as int, cg as int);
        crate::fxmath::lemma_unit_mul_sym(cb_sa as int, sg as int);
        crate::fxmath::lemma_unit_mul_sym(cg as int, sb as int);
        crate::fxmath::lemma_unit_mul_sym(sa as int, sb as int);
        crate::fxmath::lemma_unit_mul_sym(sb as int, sg as int);
    }
    Mat3 {
        xx: fx_sub(fx_mul(ca_cb, cg), fx_mul(sa, sg)),
        xy: fx_sub(fx_neg(fx_mul(cg, sa)), fx_mul(ca_cb, sg)),
        xz: fx_mul(ca, sb),
        yx: fx_add(fx_mul(cb_cg, sa), fx_mul(ca, sg)),
        yy: fx_sub(fx_mul(ca, cg), fx_mul(cb_sa, sg)),
        yz: fx_mul(sa, sb),
        zx: fx_neg(fx_mul(cg, sb)),
        zy: fx_mul(sb, sg),
        zz: cb,
    }
}

/// A random rotation tensor from the uniform orientation distribution,
/// orthogonal within tolerance for every outcome: each raw draw is put
/// through the verified orthogonality check and redrawn on failure;
/// after an (astronomically unlikely) run of failing draws the identity
/// is returned. The checked rotation write therefore always accepts the
/// result. Every entry has magnitude at most 2.0.
pub fn get_uniform_distribution(rng: &mut rand::rngs::StdRng) -> (m: Mat3)
    ensures
        m.spec_is_orthogonal(),
        -2 * FX_ONE <= m.xx <= 2 * FX_ONE,
        -2 * FX_ONE <= m.xy <= 2 * FX_ONE,
        -FX_ONE <= m.xz <= FX_ONE,
        -2 * FX_ONE <= m.yx <= 2 * FX_ONE,
        -2 * FX_ONE <= m.yy <= 2 * FX_ONE,
        -FX_ONE <= m.yz <= FX_ONE,
        -FX_ONE <= m.zx <= FX_ONE,
        -FX_ONE <= m.zy <= FX_ONE,
        -FX_ONE <= m.zz <= FX_ONE,
{
    let mut attempt: usize = 0;
    while attempt < 64
        invariant
            attempt <= 64,
        decreases 64 - attempt,
    {
        let m = draw_orientation(rng);
        if m.is_orthogonal() {
            return m;
        }
        attempt = attempt + 1;
    }
    proof {
        crate::tensor::lemma_identity_orthogonal();
    }
    Mat3::identity()
}

/// Rayleigh probability density with scale parameter r0: the density at
/// x >= 0 is x / r0^2 * e^(-x^2 / (2 r0^2)); zero for negative x. The
/// exponential is the fixed-point [`exp_neg_spec`]; degenerate (zero)
/// scales yield zero.
pub open spec fn spec_dens_rayleigh(r0: int, x: int) -> int {
    if x < 0 {
        0
    } else {
        let s2 = s_mul(r0, r0);
        let u = s_div(s_mul(x, x), s_add(s2, s2));
        if u < 0 {
            0
        } else {
            s_mul(s_div(x, s2), exp_neg_spec(u))
        }
    }
}

/// Rayleigh probability density with scale parameter r0.
pub fn distr_dens_rayleigh(r0: i64, x: i64) -> (d: i64)
    ensures
        d as int == spec_dens_rayleigh(r0 as int, x as int),
{
    if x < 0 {
        return 0;
    }
    let s2 = fx_mul(r0, r0);
    let u = fx_div(fx_mul(x, x), fx_add(s2, s2));
    if u < 0 {
        return 0;
    }
    fx_mul(fx_div(x, s2), fx_exp_neg(u))
}

/// A population of `num` radii from the Rayleigh distribution with scale
/// parameter r0, by rejection sampling against the density: oversample
/// uniformly on [0, 10 r0), accept each candidate with probability
/// density/max, grow the sample size until enough are accepted, keep the
/// last `num`. Always returns exactly `num` values, each non-negative
/// and (for a positive scale) below ten times the scale; after an
/// (astronomically unlikely) run of failing rounds the remainder is
/// filled with r0 itself.
pub fn get_distr_rayleigh(rng: &mut rand::rngs::StdRng, num: usize, r0: i64) -> (distr: Vec<i64>)
    requires
        0 <= r0 <= 100_000_000_000_000,
        num <= 1_000_000,
    ensures
        distr@.len() == num,
        forall|i: int| 0 <= i < distr@.len() ==> distr@[i] >= 0,
        r0 > 0 ==> forall|i: int| 0 <= i < distr@.len() ==> distr@[i] < 10 * r0,
{
    let bound = 10 * r0;
    let mut accepted: Vec<i64> = Vec::new();
    let mut nnum: usize = num;
    let mut round: usize = 0;
    while round < 24
        invariant
            round <= 24,
            num <= 1_000_000,
            nnum <= 13_500_000,
            0 <= r0 <= 100_000_000_000_000,
            bound == 10 * r0,
            forall|i: int| 0 <= i < accepted@.len() ==> accepted@[i] >= 0,
            forall|i: int| 0 <= i < accepted@.len() ==> accepted@[i] < 10 * r0 || r0 == 0,
        decreases 24 - round,
    {
        if bound == 0 {
            break;
        }
        if nnum <= 13_000_000 {
            nnum = nnum + num / 2;
        }
        accepted = Vec::new();
        let mut candidates: Vec<i64> = Vec::new();
        let mut densities: Vec<i64> = Vec::new();
        let mut max: i64 = 0;
        let mut i: usize = 0;
        while i < nnum
            invariant
                bound > 0,
                i <= nnum,
                candidates@.len() == i,
                densities@.len() == i,
                forall|j: int| 0 <= j < i ==> candidates@[j] >= 0,
                forall|j: int| 0 <= j < i ==> candidates@[j] < bound,
            decreases nnum - i,
        {
            let x = rand_fx(rng, bound);
            candidates.push(x);
            let d = distr_dens_rayleigh(r0, x);
            densities.push(d);
            if d > max {
                max = d;
            }
            i = i + 1;
        }
        if max > 0 {
            let mut j: usize = 0;
            while j < nnum
                invariant
                    max > 0,
                    candidates@.len() == nnum,
                    densities@.len() == nnum,
                    j <= nnum,
                    forall|k: int| 0 <= k < nnum ==> candidates@[k] >= 0,
                    forall|k: int| 0 <= k < nnum ==> candidates@[k] < bound,
                    forall|k: int| 0 <= k < accepted@.len() ==> accepted@[k] >= 0,
                    forall|k: int| 0 <= k < accepted@.len() ==> accepted@[k] < bound,
                decreases nnum - j,
            {
                let u = rand_fx(rng, FX_ONE);
                if fx_div(densities[j], max) >= u {
                    accepted.push(candidates[j]);
                }
                j = j + 1;
            }
        }
        if accepted.len() >= num {
            break;
        }
        round = round + 1;
    }
    // keep the last `num` accepted radii; pad (only on degenerate inputs
    // or after exhausted rounds) with the scale parameter itself
    let mut distr: Vec<i64> = Vec::new();
    let start: usize = if accepted.len() > num {
        accepted.len() - num
    } else {
        0
    };
    let mut i: usize = start;
    while i < accepted.len()
        invariant
            start <= i <= accepted@.len(),
            distr@.len() == i - start,
            accepted@.len() - start <= num,
            bound == 10 * r0,
            forall|j: int| 0 <= j < accepted@.len() ==> accepted@[j] >= 0,
            forall|j: int| 0 <= j < accepted@.len() ==> accepted@[j] < 10 * r0 || r0 == 0,
            forall|j: int| 0 <= j < distr@.len() ==> distr@[j] >= 0,
            forall|j: int| 0 <= j < distr@.len() ==> distr@[j] < 10 * r0 || r0 == 0,
        decreases accepted.len() - i,
    {
        distr.push(accepted[i]);
        i = i + 1;
    }
    while distr.len() < num
        invariant
            distr@.len() <= num,
            r0 >= 0,
            forall|j: int| 0 <= j < distr@.len() ==> distr@[j] >= 0,
            forall|j: int| 0 <= j < distr@.len() ==> distr@[j] < 10 * r0 || r0 == 0,
        decreases num - distr.len(),
    {
        distr.push(r0);
    }
    distr
}

} // verus!
