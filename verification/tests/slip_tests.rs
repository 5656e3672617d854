//! Slip kinetics, hardening and their laws on concrete values.

use mmuvp::fx::FX_ONE;
use mmuvp::slide_system::{
    TauComponent, GammaRateComponent, HMatrixComponent, compute_tau, compute_gamma_rate,
    compute_h_vector, compute_h_matrix, compute_tauc_rate, compute_tauc, compute_gamma,
    compute_hall_petch, tau_c_uniform, tau_c_adjust_hp, burgers_from_directions,
    normals_from_directions, BNComponent, NUM_SLIP,
};
use mmuvp::tensor::{Mat3, Vec3};

fn fx(x: f64) -> i64 {
    (x * 1e9).round() as i64
}

fn uniform_tau(value: i64) -> TauComponent {
    let mut t = TauComponent::new();
    for s in 0..NUM_SLIP {
        t.set_values(s, value);
    }
    t
}

#[test]
fn tau_is_clamped_at_zero() {
    // all Schmid tensors are the identity in a fresh component; a negative
    // pressure makes every resolved shear negative, so all clamp to zero
    let bn = BNComponent::new();
    let sigma = Mat3::identity().scale(fx(-5.0));
    let tau = compute_tau(&bn, &sigma);
    for s in 0..NUM_SLIP {
        assert_eq!(tau.get_values(s).unwrap(), 0);
    }
    // a positive pressure resolves positively
    let sigma = Mat3::identity().scale(fx(5.0));
    let tau = compute_tau(&bn, &sigma);
    for s in 0..NUM_SLIP {
        assert_eq!(tau.get_values(s).unwrap(), fx(15.0));
    }
}

#[test]
fn gamma_rate_zero_at_and_below_threshold() {
    let tau_c = uniform_tau(fx(10.0));
    // below
    let rate = compute_gamma_rate(&uniform_tau(fx(5.0)), &tau_c, fx(0.001), 3);
    for s in 0..NUM_SLIP {
        assert_eq!(rate.get_values(s).unwrap(), 0);
    }
    // the tie at the threshold counts as inactive
    let rate = compute_gamma_rate(&uniform_tau(fx(10.0)), &tau_c, fx(0.001), 3);
    for s in 0..NUM_SLIP {
        assert_eq!(rate.get_values(s).unwrap(), 0);
    }
}

#[test]
fn gamma_rate_exact_power_law() {
    // ratio = 2, m = 3: rate = gamma_0 * 8
    let tau_c = uniform_tau(fx(10.0));
    let rate = compute_gamma_rate(&uniform_tau(fx(20.0)), &tau_c, fx(0.001), 3);
    for s in 0..NUM_SLIP {
        assert_eq!(rate.get_values(s).unwrap(), fx(0.008));
    }
}

#[test]
fn gamma_rate_monotone_in_tau() {
    let tau_c = uniform_tau(fx(10.0));
    let mut last = -1i64;
    for k in 0..40 {
        let tau = uniform_tau(fx(0.6 * k as f64));
        let rate = compute_gamma_rate(&tau, &tau_c, fx(0.001), 5);
        let v = rate.get_values(0).unwrap();
        assert!(v >= last);
        last = v;
    }
}

#[test]
fn gamma_rate_guards_zero_critical_stress() {
    // a zero critical stress is degenerate: the ratio is guarded to zero
    // and the system stays inactive instead of blowing up
    let rate = compute_gamma_rate(&uniform_tau(fx(20.0)), &uniform_tau(0), fx(0.001), 3);
    for s in 0..NUM_SLIP {
        assert_eq!(rate.get_values(s).unwrap(), 0);
    }
}

#[test]
fn hardening_freeze_when_no_slip() {
    // an arbitrary non-zero hardening matrix, all slip rates zero
    let mut h = HMatrixComponent::new();
    for i in 0..NUM_SLIP {
        for j in 0..NUM_SLIP {
            h.set_value(i, j, fx(100.0));
        }
    }
    let g = GammaRateComponent::new();
    let rate = compute_tauc_rate(&h, &g);
    for k in 0..NUM_SLIP {
        assert_eq!(rate.get_values(k).unwrap(), 0);
    }
}

#[test]
fn hardening_freeze_respects_activity_threshold() {
    let mut h = HMatrixComponent::new();
    for i in 0..NUM_SLIP {
        for j in 0..NUM_SLIP {
            h.set_value(i, j, FX_ONE);
        }
    }
    let mut g = GammaRateComponent::new();
    // a rate at 1e-7 is still frozen; just above it is active
    g.set_values(0, 100);
    g.set_values(1, 101);
    let rate = compute_tauc_rate(&h, &g);
    assert_eq!(rate.get_values(0).unwrap(), 0);
    assert!(rate.get_values(1).unwrap() != 0);
}

#[test]
fn h_vector_exact_saturation_law() {
    // h = h0 * |1 - tau_c/tau_sat|^a with tau_c = 5, tau_sat = 10, a = 2:
    // h = h0 * 0.25
    let tau_c = uniform_tau(fx(5.0));
    let h = compute_h_vector(&tau_c, fx(10.0), fx(40.0), 2);
    for s in 0..NUM_SLIP {
        assert_eq!(h.get_value(s).unwrap(), fx(10.0));
    }
}

#[test]
fn h_matrix_diagonal_and_latent() {
    let tau_c = uniform_tau(fx(5.0));
    let hv = compute_h_vector(&tau_c, fx(10.0), fx(40.0), 2);
    let hm = compute_h_matrix(&hv, fx(1.4));
    assert_eq!(hm.get_value(3, 3).unwrap(), fx(10.0));
    assert_eq!(hm.get_value(3, 4).unwrap(), fx(14.0));
}

#[test]
fn tauc_and_gamma_integration() {
    let tau_c = uniform_tau(fx(10.0));
    let mut rate = mmuvp::slide_system::TauRateComponent::new();
    for s in 0..NUM_SLIP {
        rate.set_values(s, fx(0.5));
    }
    let next = compute_tauc(&tau_c, &rate, fx(2.0));
    for s in 0..NUM_SLIP {
        assert_eq!(next.get_values(s).unwrap(), fx(11.0));
    }
    let mut g = mmuvp::slide_system::GammaComponent::new();
    for s in 0..NUM_SLIP {
        g.set_values(s, fx(0.25));
    }
    let mut gr = GammaRateComponent::new();
    for s in 0..NUM_SLIP {
        gr.set_values(s, fx(0.125));
    }
    let g2 = compute_gamma(&g, &gr, fx(2.0));
    for s in 0..NUM_SLIP {
        assert_eq!(g2.get_values(s).unwrap(), fx(0.5));
    }
}

#[test]
fn hall_petch_exact_value() {
    // k_y * sqrt(b/d) with b = 1, d = 4: 0.5 * k_y
    assert_eq!(compute_hall_petch(fx(2.0), fx(1.0), fx(4.0)), fx(1.0));
    // degenerate zero grain size is guarded: the ratio division by zero
    // gives zero
    assert_eq!(compute_hall_petch(fx(2.0), fx(1.0), 0), 0);
}

#[test]
fn tau_c_builders() {
    let t = tau_c_uniform(fx(7.0));
    for s in 0..NUM_SLIP {
        assert_eq!(t.get_values(s).unwrap(), fx(7.0));
    }
    let adj = tau_c_adjust_hp(&t, fx(1.0), fx(3.0));
    for s in 0..NUM_SLIP {
        assert_eq!(adj.get_values(s).unwrap(), fx(9.0));
    }
}

#[test]
fn slip_geometry_from_directions() {
    let mut dirs: Vec<Vec3> = Vec::new();
    for _ in 0..12 {
        dirs.push(Vec3 { x: fx(2.0), y: 0, z: 0 });
    }
    let b = burgers_from_directions(&dirs);
    let v0 = b.get_vector(0).unwrap();
    let v1 = b.get_vector(1).unwrap();
    assert_eq!(v0.x, FX_ONE);
    assert_eq!(v1.x, -FX_ONE);
    let n = normals_from_directions(&dirs);
    assert_eq!(n.get_vector(0).unwrap().x, FX_ONE);
    assert_eq!(n.get_vector(1).unwrap().x, FX_ONE);
    let bn = BNComponent::compute_from(&b, &n);
    let m0 = bn.get_matrix(0).unwrap();
    assert_eq!(m0.xx, FX_ONE);
    assert_eq!(m0.yy, 0);
    let m1 = bn.get_matrix(1).unwrap();
    assert_eq!(m1.xx, -FX_ONE);
}
