//! Stored energy, subgrain sampling and nucleation.

use mmuvp::fx::{fx_add, fx_mul, fx_sub, FX_ONE};
use mmuvp::recrystallization::{
    compute_volume, compute_drive_force, compute_radius_of_volume, try_nucleate,
    AccumEnergyComponent, SubGrainsComponent,
};
use mmuvp::random::{get_distr_rayleigh, distr_dens_rayleigh, rng_from_seed};

fn fx(x: f64) -> i64 {
    (x * 1e9).round() as i64
}

#[test]
fn energy_non_decreasing_under_positive_rate() {
    // a single grain under a constant positive contraction: the explicit
    // integration never decreases the accumulated energy
    let mut est = AccumEnergyComponent::new();
    let rate = fx(0.125);
    let dt = fx(0.5);
    let mut last = est.get_value();
    for _ in 0..100 {
        let next = fx_add(est.get_value(), fx_mul(rate, dt));
        est.set_value(next);
        assert!(est.get_value() >= last);
        last = est.get_value();
    }
    assert_eq!(est.get_value(), fx(6.25));
}

#[test]
fn drive_force_formula() {
    // E - 3*egb/r with E = 10, egb = 1, r = 0.5: 10 - 6 = 4
    assert_eq!(compute_drive_force(fx(10.0), fx(1.0), fx(0.5)), fx(4.0));
    // a tiny radius makes the curvature penalty dominate: deeply negative
    assert!(compute_drive_force(fx(10.0), fx(1.0), 1) < 0);
}

#[test]
fn volume_conservation_at_nucleation() {
    let gr = fx(2.0);
    let sub = fx(1.0);
    let vg = compute_volume(gr);
    let vs = compute_volume(sub);
    let diff = fx_sub(vg, vs);
    assert!(diff > 0);
    // the accepted event splits the parent volume exactly
    assert_eq!(fx_add(diff, vs), vg);
    match try_nucleate(gr, sub) {
        Some(new_r) => {
            // the stored radius is the floor of the radius of the
            // remaining volume: its volume cannot exceed the remainder
            assert!(compute_volume(new_r) <= diff);
            assert!(compute_volume(new_r + 2) > diff);
        },
        None => panic!("a positive volume difference must nucleate"),
    }
}

#[test]
fn nucleation_rejected_when_subgrain_too_large() {
    assert!(try_nucleate(fx(1.0), fx(1.0)).is_none());
    assert!(try_nucleate(fx(1.0), fx(2.0)).is_none());
}

#[test]
fn radius_of_volume_inverts_volume() {
    let r = fx(3.0);
    let v = compute_volume(r);
    let back = compute_radius_of_volume(v);
    assert!((back - r).abs() < 10);
}

#[test]
fn rayleigh_population_count_and_sign() {
    let mut rng = rng_from_seed(1);
    let num = 500usize;
    let r0 = fx(2.0);
    let distr = get_distr_rayleigh(&mut rng, num, r0);
    assert_eq!(distr.len(), num);
    for v in distr.iter() {
        assert!(*v >= 0);
    }
}

#[test]
fn rayleigh_population_empty() {
    let mut rng = rng_from_seed(2);
    let distr = get_distr_rayleigh(&mut rng, 0, fx(2.0));
    assert_eq!(distr.len(), 0);
}

#[test]
fn rayleigh_mean_matches_scale() {
    let mut rng = rng_from_seed(3);
    let num = 4000usize;
    let r0 = fx(2.0);
    let distr = get_distr_rayleigh(&mut rng, num, r0);
    let mut sum: i128 = 0;
    for v in distr.iter() {
        sum += *v as i128;
    }
    let mean = (sum / num as i128) as i64;
    // a Rayleigh sample with scale r0 has mean r0 * sqrt(pi/2); allow a
    // generous statistical band
    assert!((mean - fx(2.0 * 1.2533141)).abs() < fx(0.3));
}

#[test]
fn rayleigh_density_shape() {
    let r0 = fx(2.0);
    assert_eq!(distr_dens_rayleigh(r0, fx(-1.0)), 0);
    assert_eq!(distr_dens_rayleigh(r0, 0), 0);
    // the density peaks at the scale parameter itself
    let at_peak = distr_dens_rayleigh(r0, fx(2.0));
    let far = distr_dens_rayleigh(r0, fx(8.0));
    assert!(at_peak > far);
    assert!(far >= 0);
    // exact value at the peak: (1/r0) * e^(-1/2)
    assert!((at_peak - fx(0.5 * 0.60653066)).abs() < fx(0.000001));
}

#[test]
fn subgrain_population_updates() {
    let mut s = SubGrainsComponent::new();
    s.push_value(fx(1.0));
    s.push_value(fx(2.0));
    assert_eq!(s.len(), 2);
    let t = s.with_updated(1, fx(5.0));
    assert_eq!(t.get_value(0).unwrap(), fx(1.0));
    assert_eq!(t.get_value(1).unwrap(), fx(5.0));
    assert_eq!(s.get_value(1).unwrap(), fx(2.0));
    assert_eq!(FX_ONE, 1_000_000_000);
}
