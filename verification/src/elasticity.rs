//! Per-grain kinematic and elastic state.
//!
//! The symmetric-tensor components (strain rate, strain, stress, stress
//! rate) keep a dual representation: the 3x3 tensor and its Voigt
//! 6-vector, re-synchronized on every write. The stiffness holds the three
//! cubic constants and applies Hooke's law in Voigt form.

use vstd::prelude::*;
use crate::fx::{s_mul, s_add, fx_mul, fx_add};
use crate::tensor::{Mat3, Voigt6, spec_voigt_of, spec_mat_of, voigt_of, mat_of, lemma_voigt_round_trip};

verus! {

/// Per-grain velocity gradient in the crystal frame.
#[derive(Clone, Copy, PartialEq, Eq, Structural, Debug)]
pub struct GradVComponent {
    tensor: Mat3,
}

impl GradVComponent {
    /// A fresh component holding the zero tensor.
    pub fn new() -> (r: GradVComponent)
        ensures
            r.spec_tensor() == Mat3::spec_zero(),
    {
        GradVComponent { tensor: Mat3::zero() }
    }

    /// The stored tensor.
    pub fn get_tensor(&self) -> (r: Mat3)
        ensures
            r == self.spec_tensor(),
    {
        self.tensor
    }

    /// Install a tensor.
    pub fn set_tensor(&mut self, tensor: Mat3)
        ensures
            final(self).spec_tensor() == tensor,
    {
        self.tensor = tensor;
    }

    /// The stored tensor (specification view).
    pub closed spec fn spec_tensor(self) -> Mat3 {
        self.tensor
    }
}

/// Per-grain spin tensor of the velocity gradient (optional extension
/// path): every write stores the skew part (L^T - L) / 2.
#[derive(Clone, Copy, PartialEq, Eq, Structural, Debug)]
pub struct WComponent {
    tensor: Mat3,
}

impl WComponent {
    /// A fresh component holding the zero tensor.
    pub fn new() -> (r: WComponent)
        ensures
            r.spec_tensor() == Mat3::spec_zero(),
    {
        WComponent { tensor: Mat3::zero() }
    }

    /// The stored tensor.
    pub fn get_tensor(&self) -> (r: Mat3)
        ensures
            r == self.spec_tensor(),
    {
        self.tensor
    }

    /// Store the skew part (tensor^T - tensor) / 2 of the given tensor.
    pub fn set_tensor(&mut self, tensor: Mat3)
        ensures
            final(self).spec_tensor() == tensor.spec_skew_t(),
    {
        let t = tensor.transpose();
        let half_diff = Mat3 {
            xx: 0,
            xy: crate::fx::fx_avg(t.xy, crate::fx::fx_neg(tensor.xy)),
            xz: crate::fx::fx_avg(t.xz, crate::fx::fx_neg(tensor.xz)),
            yx: crate::fx::fx_avg(t.yx, crate::fx::fx_neg(tensor.yx)),
            yy: 0,
            yz: crate::fx::fx_avg(t.yz, crate::fx::fx_neg(tensor.yz)),
            zx: crate::fx::fx_avg(t.zx, crate::fx::fx_neg(tensor.zx)),
            zy: crate::fx::fx_avg(t.zy, crate::fx::fx_neg(tensor.zy)),
            zz: 0,
        };
        self.tensor = half_diff;
    }

    /// The stored tensor (specification view).
    pub closed spec fn spec_tensor(self) -> Mat3 {
        self.tensor
    }
}

/// One waypoint of a prescribed deformation trajectory: a time and the
/// macroscopic velocity-gradient tensor that holds from that time on.
#[derive(Clone, Copy, PartialEq, Eq, Structural, Debug)]
pub struct TrajectoryDeformationComponent {
    time: i64,
    grad_v: Mat3,
}

impl TrajectoryDeformationComponent {
    /// A fresh waypoint at time zero with the zero tensor.
    pub fn new() -> (r: TrajectoryDeformationComponent)
        ensures
            r.spec_time() == 0,
            r.spec_tensor() == Mat3::spec_zero(),
    {
        TrajectoryDeformationComponent { time: 0, grad_v: Mat3::zero() }
    }

    /// Install a time and tensor.
    pub fn set_value(&mut self, time: i64, grad_v: Mat3)
        ensures
            final(self).spec_time() == time,
            final(self).spec_tensor() == grad_v,
    {
        self.time = time;
        self.grad_v = grad_v;
    }

    /// The waypoint's time.
    pub fn get_time(&self) -> (r: i64)
        ensures
            r == self.spec_time(),
    {
        self.time
    }

    /// The waypoint's tensor.
    pub fn get_tensor(&self) -> (r: Mat3)
        ensures
            r == self.spec_tensor(),
    {
        self.grad_v
    }

    /// The waypoint's time (specification view).
    pub closed spec fn spec_time(self) -> i64 {
        self.time
    }

    /// The waypoint's tensor (specification view).
    pub closed spec fn spec_tensor(self) -> Mat3 {
        self.grad_v
    }
}

/// A symmetric tensor held in dual form: the 3x3 tensor and its Voigt
/// 6-vector, kept in sync on every write. Used for the strain rate and its
/// elastic/inelastic split.
#[derive(Clone, Copy, PartialEq, Eq, Structural, Debug)]
pub struct DComponent {
    tensor: Mat3,
    vector: Voigt6,
}

impl DComponent {
    /// The dual forms agree: the vector is the Voigt form of the tensor.
    pub open spec fn synced(self) -> bool {
        self.spec_vector() == spec_voigt_of(self.spec_tensor())
    }

    /// A fresh component holding zeros.
    pub fn new() -> (r: DComponent)
        ensures
            r.spec_tensor() == Mat3::spec_zero(),
            r.synced(),
    {
        let t = Mat3::zero();
        let r = DComponent { tensor: t, vector: voigt_of(&t) };
        r
    }

    /// The stored tensor.
    pub fn get_tensor(&self) -> (r: Mat3)
        ensures
            r == self.spec_tensor(),
    {
        self.tensor
    }

    /// The stored 6-vector.
    pub fn get_vector(&self) -> (r: Voigt6)
        ensures
            r == self.spec_vector(),
    {
        self.vector
    }

    /// Install a 6-vector; the tensor becomes its symmetric expansion.
    pub fn set_vector(&mut self, vector: Voigt6)
        ensures
            final(self).spec_vector() == vector,
            final(self).spec_tensor() == spec_mat_of(vector),
            final(self).synced(),
    {
        self.vector = vector;
        self.tensor = mat_of(&vector);
        proof {
            lemma_voigt_round_trip(self.tensor, vector);
        }
    }

    /// Install a tensor; the 6-vector becomes its Voigt compression.
    pub fn set_tensor(&mut self, tensor: Mat3)
        ensures
            final(self).spec_tensor() == tensor,
            final(self).spec_vector() == spec_voigt_of(tensor),
            final(self).synced(),
    {
        self.tensor = tensor;
        self.vector = voigt_of(&tensor);
    }

    /// The stored tensor (specification view).
    pub closed spec fn spec_tensor(self) -> Mat3 {
        self.tensor
    }

    /// The stored 6-vector (specification view).
    pub closed spec fn spec_vector(self) -> Voigt6 {
        self.vector
    }
}

/// Per-grain accumulated strain in dual tensor/vector form.
#[derive(Clone, Copy, PartialEq, Eq, Structural, Debug)]
pub struct EpsComponent {
    tensor: Mat3,
    vector: Voigt6,
}

impl EpsComponent {
    /// The dual forms agree: the vector is the Voigt form of the tensor.
    pub open spec fn synced(self) -> bool {
        self.spec_vector() == spec_voigt_of(self.spec_tensor())
    }

    /// A fresh component holding zeros.
    pub fn new() -> (r: EpsComponent)
        ensures
            r.spec_tensor() == Mat3::spec_zero(),
            r.synced(),
    {
        let t = Mat3::zero();
        EpsComponent { tensor: t, vector: voigt_of(&t) }
    }

    /// The stored tensor.
    pub fn get_tensor(&self) -> (r: Mat3)
        ensures
            r == self.spec_tensor(),
    {
        self.tensor
    }

    /// The stored 6-vector.
    pub fn get_vector(&self) -> (r: Voigt6)
        ensures
            r == self.spec_vector(),
    {
        self.vector
    }

    /// Install a 6-vector; the tensor becomes its symmetric expansion.
    pub fn set_vector(&mut self, vector: Voigt6)
        ensures
            final(self).spec_vector() == vector,
            final(self).spec_tensor() == spec_mat_of(vector),
            final(self).synced(),
    {
        self.vector = vector;
        self.tensor = mat_of(&vector);
        proof {
            lemma_voigt_round_trip(self.tensor, vector);
        }
    }

    /// Install a tensor; the 6-vector becomes its Voigt compression.
    pub fn set_tensor(&mut self, tensor: Mat3)
        ensures
            final(self).spec_tensor() == tensor,
            final(self).spec_vector() == spec_voigt_of(tensor),
            final(self).synced(),
    {
        self.tensor = tensor;
        self.vector = voigt_of(&tensor);
    }

    /// The stored tensor (specification view).
    pub closed spec fn spec_tensor(self) -> Mat3 {
        self.tensor
    }

    /// The stored 6-vector (specification view).
    pub closed spec fn spec_vector(self) -> Voigt6 {
        self.vector
    }
}

/// Per-grain stress in dual tensor/vector form.
#[derive(Clone, Copy, PartialEq, Eq, Structural, Debug)]
pub struct SigmaComponent {
    tensor: Mat3,
    vector: Voigt6,
}

impl SigmaComponent {
    /// The dual forms agree: the vector is the Voigt form of the tensor.
    pub open spec fn synced(self) -> bool {
        self.spec_vector() == spec_voigt_of(self.spec_tensor())
    }

    /// A fresh component holding zeros.
    pub fn new() -> (r: SigmaComponent)
        ensures
            r.spec_tensor() == Mat3::spec_zero(),
            r.synced(),
    {
        let t = Mat3::zero();
        SigmaComponent { tensor: t, vector: voigt_of(&t) }
    }

    /// The stored tensor.
    pub fn get_tensor(&self) -> (r: Mat3)
        ensures
            r == self.spec_tensor(),
    {
        self.tensor
    }

    /// The stored 6-vector.
    pub fn get_vector(&self) -> (r: Voigt6)
        ensures
            r == self.spec_vector(),
    {
        self.vector
    }

    /// Install a 6-vector; the tensor becomes its symmetric expansion.
    pub fn set_vector(&mut self, vector: Voigt6)
        ensures
            final(self).spec_vector() == vector,
            final(self).spec_tensor() == spec_mat_of(vector),
            final(self).synced(),
    {
        self.vector = vector;
        self.tensor = mat_of(&vector);
        proof {
            lemma_voigt_round_trip(self.tensor, vector);
        }
    }

    /// Install a tensor; the 6-vector becomes its Voigt compression.
    pub fn set_tensor(&mut self, tensor: Mat3)
        ensures
            final(self).spec_tensor() == tensor,
            final(self).spec_vector() == spec_voigt_of(tensor),
            final(self).synced(),
    {
        self.tensor = tensor;
        self.vector = voigt_of(&tensor);
    }

    /// The stored tensor (specification view).
    pub closed spec fn spec_tensor(self) -> Mat3 {
        self.tensor
    }

    /// The stored 6-vector (specification view).
    pub closed spec fn spec_vector(self) -> Voigt6 {
        self.vector
    }
}

/// Per-grain stress rate in dual tensor/vector form.
#[derive(Clone, Copy, PartialEq, Eq, Structural, Debug)]
pub struct SigmaRateComponent {
    tensor: Mat3,
    vector: Voigt6,
}

impl SigmaRateComponent {
    /// The dual forms agree: the vector is the Voigt form of the tensor.
    pub open spec fn synced(self) -> bool {
        self.spec_vector() == spec_voigt_of(self.spec_tensor())
    }

    /// A fresh component holding zeros.
    pub fn new() -> (r: SigmaRateComponent)
        ensures
            r.spec_tensor() == Mat3::spec_zero(),
            r.synced(),
    {
        let t = Mat3::zero();
        SigmaRateComponent { tensor: t, vector: voigt_of(&t) }
    }

    /// The stored tensor.
    pub fn get_tensor(&self) -> (r: Mat3)
        ensures
            r == self.spec_tensor(),
    {
        self.tensor
    }

    /// The stored 6-vector.
    pub fn get_vector(&self) -> (r: Voigt6)
        ensures
            r == self.spec_vector(),
    {
        self.vector
    }

    /// Install a 6-vector; the tensor becomes its symmetric expansion.
    pub fn set_vector(&mut self, vector: Voigt6)
        ensures
            final(self).spec_vector() == vector,
            final(self).spec_tensor() == spec_mat_of(vector),
            final(self).synced(),
    {
        self.vector = vector;
        self.tensor = mat_of(&vector);
        proof {
            lemma_voigt_round_trip(self.tensor, vector);
        }
    }

    /// Install a tensor; the 6-vector becomes its Voigt compression.
    pub fn set_tensor(&mut self, tensor: Mat3)
        ensures
            final(self).spec_tensor() == tensor,
            final(self).spec_vector() == spec_voigt_of(tensor),
            final(self).synced(),
    {
        self.tensor = tensor;
        self.vector = voigt_of(&tensor);
    }

    /// The stored tensor (specification view).
    pub closed spec fn spec_tensor(self) -> Mat3 {
        self.tensor
    }

    /// The stored 6-vector (specification view).
    pub closed spec fn spec_vector(self) -> Voigt6 {
        self.vector
    }
}

/// Cubic (FCC) elastic stiffness: the three independent constants of the
/// 6x6 Voigt matrix, stored in working stress units and already scaled by
/// the calibration coefficient.
#[derive(Clone, Copy, PartialEq, Eq, Structural, Debug)]
pub struct ElasticityTensorComponent {
    c11: i64,
    c12: i64,
    c44: i64,
}

impl ElasticityTensorComponent {
    /// A fresh component holding zeros.
    pub fn new() -> (r: ElasticityTensorComponent)
        ensures
            r.spec_c11() == 0,
            r.spec_c12() == 0,
            r.spec_c44() == 0,
    {
        ElasticityTensorComponent { c11: 0, c12: 0, c44: 0 }
    }

    /// Install the three constants, each scaled by the calibration
    /// coefficient.
    pub fn set_constants(&mut self, c11: i64, c12: i64, c44: i64, koef: i64)
        ensures
            final(self).spec_c11() == s_mul(c11 as int, koef as int),
            final(self).spec_c12() == s_mul(c12 as int, koef as int),
            final(self).spec_c44() == s_mul(c44 as int, koef as int),
    {
        self.c11 = fx_mul(c11, koef);
        self.c12 = fx_mul(c12, koef);
        self.c44 = fx_mul(c44, koef);
    }

    /// Hooke's law in Voigt form: the stress-rate 6-vector C * de for the
    /// cubic stiffness.
    pub open spec fn spec_apply(self, de: Voigt6) -> Voigt6 {
        Voigt6 {
            v11: s_add(
                s_add(s_mul(self.spec_c11(), de.v11 as int), s_mul(self.spec_c12(), de.v22 as int)),
                s_mul(self.spec_c12(), de.v33 as int),
            ) as i64,
            v22: s_add(
                s_add(s_mul(self.spec_c12(), de.v11 as int), s_mul(self.spec_c11(), de.v22 as int)),
                s_mul(self.spec_c12(), de.v33 as int),
            ) as i64,
            v33: s_add(
                s_add(s_mul(self.spec_c12(), de.v11 as int), s_mul(self.spec_c12(), de.v22 as int)),
                s_mul(self.spec_c11(), de.v33 as int),
            ) as i64,
            v23: s_mul(self.spec_c44(), de.v23 as int) as i64,
            v13: s_mul(self.spec_c44(), de.v13 as int) as i64,
            v12: s_mul(self.spec_c44(), de.v12 as int) as i64,
        }
    }

    /// Hooke's law in Voigt form.
    pub fn apply(&self, de: &Voigt6) -> (r: Voigt6)
        ensures
            r == self.spec_apply(*de),
    {
        Voigt6 {
            v11: fx_add(
                fx_add(fx_mul(self.c11, de.v11), fx_mul(self.c12, de.v22)),
                fx_mul(self.c12, de.v33),
            ),
            v22: fx_add(
                fx_add(fx_mul(self.c12, de.v11), fx_mul(self.c11, de.v22)),
                fx_mul(self.c12, de.v33),
            ),
            v33: fx_add(
                fx_add(fx_mul(self.c12, de.v11), fx_mul(self.c12, de.v22)),
                fx_mul(self.c11, de.v33),
            ),
            v23: fx_mul(self.c44, de.v23),
            v13: fx_mul(self.c44, de.v13),
            v12: fx_mul(self.c44, de.v12),
        }
    }

    /// The first cubic constant (specification view).
    pub closed spec fn spec_c11(self) -> int {
        self.c11 as int
    }

    /// The second cubic constant (specification view).
    pub closed spec fn spec_c12(self) -> int {
        self.c12 as int
    }

    /// The shear cubic constant (specification view).
    pub closed spec fn spec_c44(self) -> int {
        self.c44 as int
    }
}

/// Strain intensity: sqrt(2/3 * (t : t)) of a strain-like tensor, at
/// fixed-point resolution (zero for a degenerate negative contraction).
pub open spec fn spec_intensity_eps(t: crate::tensor::Mat3) -> int {
    let q = crate::fx::s_divn(s_add(t.spec_ddot(t), t.spec_ddot(t)), 3);
    if q < 0 {
        0
    } else {
        crate::fxmath::sqrt_floor(q * crate::fx::FX_ONE)
    }
}

/// Strain intensity sqrt(2/3 * (eps : eps)).
pub fn calc_intensity_eps(eps_component: &EpsComponent) -> (r: i64)
    ensures
        r as int == spec_intensity_eps(eps_component.spec_tensor()),
{
    let t = eps_component.get_tensor();
    let d = t.ddot(&t);
    let q = crate::fx::fx_divn(fx_add(d, d), 3);
    if q < 0 {
        0
    } else {
        crate::fxmath::fx_sqrt(q)
    }
}

/// Stress intensity: sqrt(3/2 * (t : t)) of a stress-like tensor, at
/// fixed-point resolution (zero for a degenerate negative contraction).
pub open spec fn spec_intensity_s(t: crate::tensor::Mat3) -> int {
    let d = t.spec_ddot(t);
    let q = crate::fx::s_divn(s_add(s_add(d, d), d), 2);
    if q < 0 {
        0
    } else {
        crate::fxmath::sqrt_floor(q * crate::fx::FX_ONE)
    }
}

/// Stress intensity sqrt(3/2 * (sigma : sigma)).
pub fn calc_intensity_s(sigma_component: &SigmaComponent) -> (r: i64)
    ensures
        r as int == spec_intensity_s(sigma_component.spec_tensor()),
{
    let t = sigma_component.get_tensor();
    let d = t.ddot(&t);
    let q = crate::fx::fx_divn(fx_add(fx_add(d, d), d), 2);
    if q < 0 {
        0
    } else {
        crate::fxmath::fx_sqrt(q)
    }
}

/// The symmetric velocity-gradient tensor of one trajectory row: the six
/// upper-triangle components in the order 11, 12, 13, 22, 23, 33,
/// mirrored across the diagonal.
pub fn grad_v_from_components(c11: i64, c12: i64, c13: i64, c22: i64, c23: i64, c33: i64) -> (r:
    Mat3)
    ensures
        r == (Mat3 {
            xx: c11,
            xy: c12,
            xz: c13,
            yx: c12,
            yy: c22,
            yz: c23,
            zx: c13,
            zy: c23,
            zz: c33,
        }),
        r.is_symmetric(),
{
    Mat3 { xx: c11, xy: c12, xz: c13, yx: c12, yy: c22, yz: c23, zx: c13, zy: c23, zz: c33 }
}

/// The macroscopic tensor in force at time t among the first k trajectory
/// waypoints: the tensor of the latest waypoint whose time is not after
/// t, or the zero tensor before the first waypoint (step-function
/// lookup).
pub open spec fn spec_lookup_trajectory(
    ws: Seq<TrajectoryDeformationComponent>,
    t: i64,
    k: nat,
) -> Mat3
    decreases k,
{
    if k == 0 {
        Mat3::spec_zero()
    } else if ws[k - 1].spec_time() <= t {
        ws[k - 1].spec_tensor()
    } else {
        spec_lookup_trajectory(ws, t, (k - 1) as nat)
    }
}

/// The macroscopic velocity gradient in force at time t on a trajectory
/// whose waypoints come in non-decreasing time order: a monotone
/// step-function lookup, consumed once per step.
pub fn lookup_trajectory(waypoints: &Vec<TrajectoryDeformationComponent>, t: i64) -> (r: Mat3)
    ensures
        r == spec_lookup_trajectory(waypoints@, t, waypoints@.len()),
{
    let mut r = Mat3::zero();
    let mut i: usize = 0;
    while i < waypoints.len()
        invariant
            i <= waypoints@.len(),
            r == spec_lookup_trajectory(waypoints@, t, i as nat),
        decreases waypoints.len() - i,
    {
        if waypoints[i].get_time() <= t {
            r = waypoints[i].get_tensor();
        }
        i = i + 1;
    }
    r
}

} // verus!
