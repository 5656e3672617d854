//! End-to-end scenarios on the polycrystal grain table.

use mmuvp::fx::{fx_add, FX_ONE};
use mmuvp::polycrystal::{Polycrystal, SimParams};
use mmuvp::tensor::{Mat3, Vec3};
use mmuvp::slide_system::NUM_SLIP;

fn fx(x: f64) -> i64 {
    (x * 1e9).round() as i64
}

fn v3(x: f64, y: f64, z: f64) -> Vec3 {
    Vec3 { x: fx(x), y: fx(y), z: fx(z) }
}

/// The 12 canonical FCC Burgers directions, one per (plane, direction)
/// pair.
fn fcc_burgers() -> Vec<Vec3> {
    vec![
        v3(0.0, 1.0, -1.0),
        v3(1.0, 0.0, -1.0),
        v3(1.0, -1.0, 0.0),
        v3(0.0, 1.0, -1.0),
        v3(1.0, 0.0, 1.0),
        v3(1.0, 1.0, 0.0),
        v3(0.0, 1.0, 1.0),
        v3(1.0, 0.0, -1.0),
        v3(1.0, 1.0, 0.0),
        v3(0.0, 1.0, 1.0),
        v3(1.0, 0.0, 1.0),
        v3(1.0, -1.0, 0.0),
    ]
}

/// The 12 canonical FCC slip-plane normals, aligned with the directions.
fn fcc_normals() -> Vec<Vec3> {
    vec![
        v3(1.0, 1.0, 1.0),
        v3(1.0, 1.0, 1.0),
        v3(1.0, 1.0, 1.0),
        v3(-1.0, 1.0, 1.0),
        v3(-1.0, 1.0, 1.0),
        v3(-1.0, 1.0, 1.0),
        v3(1.0, -1.0, 1.0),
        v3(1.0, -1.0, 1.0),
        v3(1.0, -1.0, 1.0),
        v3(1.0, 1.0, -1.0),
        v3(1.0, 1.0, -1.0),
        v3(1.0, 1.0, -1.0),
    ]
}

fn elastic_params() -> SimParams {
    SimParams {
        dt: FX_ONE,
        gamma_0: fx(0.001),
        m_exp: 10,
        tau_sat: fx(100.0),
        h0: fx(0.0),
        a_exp: 1,
        qlat: fx(1.4),
        alfa: 0,
        sigma_unit_scale: FX_ONE,
        egb: fx(1000.0),
        r0: fx(1.0),
        num_sg: 0,
        c11: fx(200.0),
        c12: fx(100.0),
        c44: fx(50.0),
        koef: FX_ONE,
        tau_c: fx(1_000_000.0),
        b: fx(0.001),
        k_y: 0,
        gr_size: fx(10.0),
    }
}

fn setup(n: usize, params: SimParams, rng: &mut rand::rngs::StdRng) -> Polycrystal {
    let mut poly = Polycrystal::new(params);
    for _ in 0..n {
        poly.push_default_grain();
    }
    poly.gen_uniform_distribution(rng);
    let db = fcc_burgers();
    let dn = fcc_normals();
    poly.initialize_burgers_vectors(&db);
    poly.initialize_normal_vectors(&dn);
    poly.initialize_bn();
    poly.initialize_elasticity_tensor_fcc(params.c11, params.c12, params.c44, params.koef);
    poly.initialize_tau_c(params.tau_c);
    poly.initialize_subgrains(rng, params.r0, params.num_sg);
    poly.initialize_drive_force_recr();
    let sizes = vec![fx(11.0); n];
    poly.init_grain_size(&sizes);
    poly
}

fn uniaxial(rate: f64) -> Mat3 {
    Mat3 {
        xx: fx(rate),
        xy: 0,
        xz: 0,
        yx: 0,
        yy: fx(-rate / 2.0),
        yz: 0,
        zx: 0,
        zy: 0,
        zz: fx(-rate / 2.0),
    }
}

#[test]
fn entity_identity() {
    let e = mmuvp::entity::CrystalEntity::new(7);
    assert_eq!(e.get_id(), 7);
}

#[test]
fn grain_table_grows_consistently() {
    let mut poly = Polycrystal::new(elastic_params());
    assert_eq!(poly.grain_count(), 0);
    for i in 0..5 {
        poly.push_default_grain();
        assert_eq!(poly.grain_count(), i + 1);
    }
    // every component array grew together and identities are dense
    assert_eq!(poly.rotation.len(), 5);
    assert_eq!(poly.sigma.len(), 5);
    assert_eq!(poly.subgrains.len(), 5);
    for i in 0..5 {
        assert_eq!(poly.entities[i].get_id(), i as u32);
        assert!(!poly.status[i].get_value());
    }
}

#[test]
fn single_grain_elastic_scenario() {
    // one grain, identity orientation, zero initial stress and strain,
    // constant uniaxial strain rate 1e-3, dt = 1, ten steps, purely
    // elastic: eps(10) = 10 * D * dt and sigma(10) = C * eps(10), exactly
    let mut rng = mmuvp::random::rng_from_seed(7);
    let mut poly = setup(1, elastic_params(), &mut rng);
    let l = uniaxial(0.001);
    let db = fcc_burgers();
    let dn = fcc_normals();
    for _ in 0..10 {
        poly.step(&mut rng, l, &db, &dn);
    }
    assert_eq!(poly.grain_count(), 1);
    // the single grain kept its identity orientation
    assert_eq!(poly.rotation[0].get_tensor(), Mat3::identity());
    // no slip happened anywhere
    for s in 0..NUM_SLIP {
        assert_eq!(poly.gamma_rate[0].get_values(s).unwrap(), 0);
    }
    // strain integrated exactly
    let eps = poly.eps[0].get_tensor();
    assert_eq!(eps.xx, fx(0.01));
    assert_eq!(eps.yy, fx(-0.005));
    assert_eq!(eps.zz, fx(-0.005));
    assert_eq!(eps.xy, 0);
    // stress equals the stiffness applied to the accumulated strain
    let expect = poly.elasticity[0].apply(&poly.eps[0].get_vector());
    assert_eq!(poly.sigma[0].get_vector(), expect);
    // with c11 = 200, c12 = 100: s11 = 200*0.01 - 100*0.01 = 1.0
    assert_eq!(poly.sigma[0].get_vector().v11, fx(1.0));
    // stored energy stayed zero (no plastic flow, alfa = 0)
    assert_eq!(poly.est[0].get_value(), 0);
}

#[test]
fn polycrystal_mean_is_orientation_weighted() {
    let mut rng = mmuvp::random::rng_from_seed(11);
    let mut poly = setup(100, elastic_params(), &mut rng);
    let l = uniaxial(0.001);
    let db = fcc_burgers();
    let dn = fcc_normals();
    for _ in 0..3 {
        poly.step(&mut rng, l, &db, &dn);
    }
    let n = poly.grain_count();
    assert_eq!(n, 100);
    // the mean stress is the average of the per-grain stresses rotated
    // into the sample frame by each grain's own rotation
    let mut sum_s = Mat3::zero();
    let mut sum_e = Mat3::zero();
    for g in 0..n {
        let r = poly.rotation[g].get_tensor();
        sum_s = sum_s.add(&r.mul(&poly.sigma[g].get_tensor()).mul(&r.transpose()));
        sum_e = sum_e.add(&r.mul(&poly.eps[g].get_tensor()).mul(&r.transpose()));
    }
    assert_eq!(poly.calc_mean_sigma(), sum_s.divn(n as i64));
    assert_eq!(poly.calc_mean_eps(), sum_e.divn(n as i64));
    // rotating each grain's strain back to the sample frame undoes the
    // initial rotation into the crystal frame, so the texture-free mean
    // strain tracks the macroscopic one: 3 steps of sym(L) * dt
    let mean_e = poly.calc_mean_eps();
    let tol = fx(0.00001);
    assert!((mean_e.xx - fx(0.003)).abs() < tol);
    assert!((mean_e.yy - fx(-0.0015)).abs() < tol);
    assert!((mean_e.zz - fx(-0.0015)).abs() < tol);
    assert!(mean_e.xy.abs() < tol);
}

#[test]
fn mean_energy_and_size() {
    let mut poly = Polycrystal::new(elastic_params());
    poly.push_default_grain();
    poly.push_default_grain();
    poly.est[0].set_value(fx(2.0));
    poly.est[1].set_value(fx(1.0));
    assert_eq!(poly.calc_mean_accum_energy(), fx(1.5));
    poly.gr_size[0].set_value(fx(4.0));
    poly.gr_size[1].set_value(fx(2.0));
    assert_eq!(poly.calc_mean_grain_size(), fx(3.0));
}

#[test]
fn nucleation_grows_population_and_marks_status() {
    let mut params = elastic_params();
    params.num_sg = 2;
    params.r0 = fx(0.5);
    params.egb = fx(0.001);
    let mut rng = mmuvp::random::rng_from_seed(23);
    let mut poly = setup(2, params, &mut rng);
    let sizes = vec![fx(6.0); 2];
    poly.init_grain_size(&sizes);
    let n0 = poly.grain_count();
    // a high polycrystal mean energy turns every driving force positive
    poly.calc_drive_force_recr(fx(100.0), params.egb);
    poly.check_new_grain();
    let events = poly.new_grains.len();
    assert!(events >= 1);
    let recorded: Vec<i64> = (0..events).map(|i| poly.new_grains.get_value(i).unwrap()).collect();
    let db = fcc_burgers();
    let dn = fcc_normals();
    poly.create_nucleated_grains(&mut rng, &db, &dn);
    assert_eq!(poly.grain_count(), n0 + events);
    assert_eq!(poly.new_grains.len(), 0);
    for k in 0..events {
        let g = n0 + k;
        // the new grain is a recrystallization product of the recorded
        // radius with a fresh subgrain population
        assert!(poly.status[g].get_value());
        assert_eq!(poly.gr_size[g].get_value(), recorded[k]);
        assert_eq!(poly.subgrains[g].len(), params.num_sg);
        assert_eq!(poly.entities[g].get_id(), g as u32);
    }
    // original grains kept their status
    for g in 0..n0 {
        assert!(!poly.status[g].get_value());
    }
    // consumed subgrains were reset to the negligible floor
    let mut floored = 0;
    for g in 0..n0 {
        for i in 0..poly.subgrains[g].len() {
            if poly.subgrains[g].get_value(i).unwrap() == mmuvp::recrystallization::SUBGRAIN_FLOOR {
                floored += 1;
            }
        }
    }
    assert_eq!(floored, events);
}

#[test]
fn intensity_values() {
    let mut poly = Polycrystal::new(elastic_params());
    poly.push_default_grain();
    // sigma = diag(2, 0, 0): sigma : sigma = 4, intensity_s = sqrt(6)
    let t = Mat3 {
        xx: fx(2.0),
        xy: 0,
        xz: 0,
        yx: 0,
        yy: 0,
        yz: 0,
        zx: 0,
        zy: 0,
        zz: 0,
    };
    poly.sigma[0].set_tensor(t);
    let i_s = mmuvp::elasticity::calc_intensity_s(&poly.sigma[0]);
    assert!((i_s - fx(2.449489742)).abs() < 10);
    poly.eps[0].set_tensor(t);
    let i_e = mmuvp::elasticity::calc_intensity_eps(&poly.eps[0]);
    assert!((i_e - fx(1.632993161)).abs() < 10);
}

#[test]
fn pole_directions_of_identity() {
    let r = mmuvp::rotation::RotationComponent::new();
    let (p100, p110, p111) = mmuvp::rotation::pole_directions(&r);
    assert_eq!(p100.x, FX_ONE);
    assert_eq!(p100.y, 0);
    assert!((p110.x - fx(0.707106781)).abs() < 10);
    assert!((p111.z - fx(0.577350269)).abs() < 10);
}

#[test]
fn grad_v_from_components_is_symmetric() {
    let m = mmuvp::elasticity::grad_v_from_components(
        fx(1.0),
        fx(2.0),
        fx(3.0),
        fx(4.0),
        fx(5.0),
        fx(6.0),
    );
    assert_eq!(m.xy, m.yx);
    assert_eq!(m.xz, m.zx);
    assert_eq!(m.yz, m.zy);
    assert_eq!(m.xx, fx(1.0));
    assert_eq!(m.zz, fx(6.0));
    assert_eq!(fx_add(m.xy, 0), fx(2.0));
}

#[test]
fn facet_migration_path() {
    let mut poly = Polycrystal::new(elastic_params());
    poly.push_default_grain();
    poly.status[0].set_value(true);
    poly.gr_size[0].set_value(fx(2.0));
    // whole-crystal driving force for a recrystallized grain:
    // E - 3*egb/d = 10 - 3*2/2 = 7
    poly.calc_drive_force_recr_cryst(fx(10.0), fx(2.0));
    assert_eq!(poly.df_recr_cryst[0].get_value(), fx(7.0));
    // mobility m0 * e^(-q/(r*temp)) with q = r*temp: m0 * e^-1
    poly.calc_facet_mobility(fx(1.0), fx(6.0), fx(2.0), fx(3.0));
    let mob = poly.facet_mobility[0].get_value();
    assert!((mob - fx(0.367879441)).abs() < fx(0.000001));
    // velocity is the product, clamped at zero from below
    poly.calc_vel_facet();
    let vel = poly.vel_facet[0].get_value();
    assert!((vel - fx(7.0 * 0.367879441)).abs() < fx(0.00001));
    // grain growth by vel*dt; with k_y = 0 the critical stress is kept
    let tc_before = poly.tau_c[0].get_values(0).unwrap();
    poly.calc_grain_size(fx(0.001), 0, FX_ONE);
    let grown = poly.gr_size[0].get_value();
    assert!((grown - fx(2.0) - vel).abs() <= 1);
    assert_eq!(poly.tau_c[0].get_values(0).unwrap(), tc_before);
    // a negative driving force gives zero velocity
    poly.calc_drive_force_recr_cryst(fx(0.0), fx(2.0));
    poly.calc_vel_facet();
    assert_eq!(poly.vel_facet[0].get_value(), 0);
    // a negative exponent ratio grows the mobility: m0 * e^1
    poly.calc_facet_mobility(fx(1.0), fx(-6.0), fx(2.0), fx(3.0));
    let grown_mob = poly.facet_mobility[0].get_value();
    assert!((grown_mob - fx(2.718281828)).abs() < fx(0.000001));
}

#[test]
fn spin_is_the_antisymmetric_part() {
    let mut poly = Polycrystal::new(elastic_params());
    poly.push_default_grain();
    // an asymmetric velocity gradient: L.xy = 2, L.yx = 0, so the spin
    // (L - L^T)/2 has +1 at xy and -1 at yx
    let l = Mat3 {
        xx: 0,
        xy: fx(2.0),
        xz: 0,
        yx: 0,
        yy: 0,
        yz: 0,
        zx: 0,
        zy: 0,
        zz: 0,
    };
    poly.initialize_grad_v(l);
    poly.initialize_w();
    let w = poly.w[0].get_tensor();
    assert_eq!(w.xy, fx(1.0));
    assert_eq!(w.yx, fx(-1.0));
    assert_eq!(w.xx, 0);
}

#[test]
fn spin_and_rotation_rate_guards() {
    let mut w = mmuvp::elasticity::WComponent::new();
    // the skew part of a symmetric tensor is zero
    w.set_tensor(Mat3::identity());
    assert_eq!(w.get_tensor(), Mat3::zero());
    let mut s = mmuvp::rotation::SpinComponent::new();
    let before = s.get_tensor();
    assert!(s.set_tensor(Mat3::identity().scale(3 * FX_ONE)).is_err());
    assert_eq!(s.get_tensor(), before);
    let mut rr = mmuvp::rotation::RotationRateComponent::new();
    assert!(rr.set_tensor(Mat3::identity()).is_ok());
}

#[test]
fn subgrain_refill() {
    let mut rng = mmuvp::random::rng_from_seed(31);
    let mut c = mmuvp::recrystallization::SubGrainsComponent::new();
    c.push_value(fx(9.0));
    mmuvp::recrystallization::get_subgrains(&mut rng, &mut c, fx(1.0), 5);
    assert_eq!(c.len(), 6);
    assert_eq!(c.get_value(0).unwrap(), fx(9.0));
    for i in 1..6 {
        assert!(c.get_value(i).unwrap() >= 0);
    }
}

#[test]
fn trajectory_lookup_is_a_step_function() {
    let mut ws: Vec<mmuvp::elasticity::TrajectoryDeformationComponent> = Vec::new();
    let mut w0 = mmuvp::elasticity::TrajectoryDeformationComponent::new();
    w0.set_value(fx(1.0), Mat3::identity());
    let mut w1 = mmuvp::elasticity::TrajectoryDeformationComponent::new();
    w1.set_value(fx(3.0), Mat3::identity().scale(2 * FX_ONE));
    ws.push(w0);
    ws.push(w1);
    // before the first waypoint: zero
    assert_eq!(mmuvp::elasticity::lookup_trajectory(&ws, fx(0.5)), Mat3::zero());
    // between the waypoints: the first holds
    assert_eq!(mmuvp::elasticity::lookup_trajectory(&ws, fx(2.0)), Mat3::identity());
    // from the second waypoint on: the second holds
    assert_eq!(
        mmuvp::elasticity::lookup_trajectory(&ws, fx(5.0)),
        Mat3::identity().scale(2 * FX_ONE)
    );
}
