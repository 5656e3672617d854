//! Tensor algebra and the Voigt duality.

use mmuvp::fx::FX_ONE;
use mmuvp::tensor::{Mat3, Vec3, Voigt6, voigt_of, mat_of};
use mmuvp::rotation::RotationComponent;

fn fx(x: f64) -> i64 {
    (x * 1e9).round() as i64
}

fn sym(xx: f64, yy: f64, zz: f64, yz: f64, xz: f64, xy: f64) -> Mat3 {
    Mat3 {
        xx: fx(xx),
        xy: fx(xy),
        xz: fx(xz),
        yx: fx(xy),
        yy: fx(yy),
        yz: fx(yz),
        zx: fx(xz),
        zy: fx(yz),
        zz: fx(zz),
    }
}

#[test]
fn voigt_round_trip_zero() {
    let m = Mat3::zero();
    assert_eq!(mat_of(&voigt_of(&m)), m);
}

#[test]
fn voigt_round_trip_identity_scaled() {
    let m = Mat3::identity().scale(fx(3.5));
    assert_eq!(mat_of(&voigt_of(&m)), m);
}

#[test]
fn voigt_round_trip_general_symmetric() {
    let cases = [
        sym(1.25, -2.5, 3.0, 0.125, -0.75, 2.0),
        sym(-0.001, 0.002, -0.003, 0.004, -0.005, 0.006),
        sym(123.0, 456.0, -789.0, 12.0, -34.0, 56.0),
    ];
    for m in cases.iter() {
        assert_eq!(mat_of(&voigt_of(m)), *m);
    }
}

#[test]
fn voigt_round_trip_random_symmetric() {
    let mut rng = mmuvp::random::rng_from_seed(17);
    for _ in 0..50 {
        let mut draw = || mmuvp::random::rand_fx_sym(&mut rng, 2_000_000_000);
        let (a, b, c, d, e, f) = (draw(), draw(), draw(), draw(), draw(), draw());
        let m = Mat3 { xx: a, xy: f, xz: e, yx: f, yy: b, yz: d, zx: e, zy: d, zz: c };
        assert_eq!(mat_of(&voigt_of(&m)), m);
    }
}

#[test]
fn voigt_order_is_11_22_33_23_13_12() {
    let m = sym(1.0, 2.0, 3.0, 4.0, 5.0, 6.0);
    let v = voigt_of(&m);
    assert_eq!(v.v11, fx(1.0));
    assert_eq!(v.v22, fx(2.0));
    assert_eq!(v.v33, fx(3.0));
    assert_eq!(v.v23, fx(4.0));
    assert_eq!(v.v13, fx(5.0));
    assert_eq!(v.v12, fx(6.0));
}

#[test]
fn vector_to_tensor_round_trip() {
    let v = Voigt6 {
        v11: fx(1.0),
        v22: fx(2.0),
        v33: fx(3.0),
        v23: fx(-4.0),
        v13: fx(5.5),
        v12: fx(-6.5),
    };
    assert_eq!(voigt_of(&mat_of(&v)), v);
}

#[test]
fn matrix_product_and_transpose() {
    let a = Mat3 {
        xx: fx(1.0),
        xy: fx(2.0),
        xz: 0,
        yx: 0,
        yy: fx(1.0),
        yz: 0,
        zx: 0,
        zy: 0,
        zz: fx(1.0),
    };
    let at = a.transpose();
    assert_eq!(at.yx, fx(2.0));
    let p = a.mul(&Mat3::identity());
    assert_eq!(p, a);
    let d = a.ddot(&a);
    // 1 + 4 + 1 + 1 = 7
    assert_eq!(d, fx(7.0));
}

#[test]
fn rotation_accepts_orthogonal() {
    let mut r = RotationComponent::new();
    assert!(r.set_matrix(Mat3::identity()).is_ok());
    // a proper rotation by 90 degrees about z
    let rz = Mat3 {
        xx: 0,
        xy: fx(-1.0),
        xz: 0,
        yx: fx(1.0),
        yy: 0,
        yz: 0,
        zx: 0,
        zy: 0,
        zz: fx(1.0),
    };
    assert!(r.set_matrix(rz).is_ok());
    assert_eq!(r.get_tensor(), rz);
}

#[test]
fn rotation_rejects_non_orthogonal_and_keeps_stored() {
    let mut r = RotationComponent::new();
    let before = r.get_tensor();
    // a non-square-normalized matrix: twice the identity
    let bad = Mat3::identity().scale(2 * FX_ONE);
    assert!(r.set_matrix(bad).is_err());
    assert_eq!(r.get_tensor(), before);
}

#[test]
fn normalize_gives_unit_direction() {
    let v = Vec3 { x: fx(3.0), y: fx(4.0), z: 0 };
    let n = v.normalize();
    let len2 = n.dot(&n);
    assert!((len2 - FX_ONE).abs() < 10);
    assert!((n.x - fx(0.6)).abs() < 10);
    assert!((n.y - fx(0.8)).abs() < 10);
}
