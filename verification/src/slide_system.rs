//! Slip-system geometry, kinetics and hardening for the 24 signed FCC
//! slip systems.
//!
//! Each grain carries the Burgers directions, slip-plane normals and
//! Schmid tensors of the 24 systems, the resolved and critical shear
//! stresses with their rates, and the slip shears. The flow rule is the
//! power law with a strict activation threshold; hardening is
//! saturation-type with isotropic latent coupling, frozen on systems that
//! are not actively slipping.

use vstd::prelude::*;
use crate::fx::{FX_ONE, absi, s_mul, s_add, s_div, fx_mul, fx_add, fx_div, fx_abs};
use crate::fxmath::{s_pow, fx_pow};
use crate::tensor::{Mat3, Vec3};

verus! {

/// Number of signed slip systems (12 FCC systems, both signs).
pub const NUM_SLIP: usize = 24;

/// Activity threshold on the slip rate: hardening is frozen on a system
/// whose slip-rate magnitude is at most 1e-7.
pub const GAMMA_RATE_EPS: i64 = 100;

/// The non-negative part of a scalar.
pub open spec fn max0(x: int) -> int {
    if x > 0 { x } else { 0 }
}

/// Per-grain Burgers (slip) directions of the 24 systems.
#[derive(PartialEq, Eq, Debug)]
pub struct BurgersVectorComponent {
    vectors: Vec<Vec3>,
}

impl BurgersVectorComponent {
    /// The component holds exactly one direction per slip system.
    pub open spec fn wf(self) -> bool {
        self.spec_vectors().len() == NUM_SLIP
    }

    /// A fresh component holding zero directions.
    pub fn new() -> (r: BurgersVectorComponent)
        ensures
            r.wf(),
            forall|s: int| 0 <= s < NUM_SLIP ==> r.spec_vectors()[s] == (Vec3 { x: 0, y: 0, z: 0 }),
    {
        let mut vectors: Vec<Vec3> = Vec::new();
        let mut i: usize = 0;
        while i < NUM_SLIP
            invariant
                i <= NUM_SLIP,
                vectors@.len() == i,
                forall|s: int| 0 <= s < i ==> vectors@[s] == (Vec3 { x: 0, y: 0, z: 0 }),
            decreases NUM_SLIP - i,
        {
            vectors.push(Vec3::zero());
            i = i + 1;
        }
        BurgersVectorComponent { vectors }
    }

    /// Install the direction of one system; an out-of-range index is
    /// ignored.
    pub fn set_vector(&mut self, index: usize, vector: Vec3)
        ensures
            index < old(self).spec_vectors().len() ==> final(self).spec_vectors()
                == old(self).spec_vectors().update(index as int, vector),
            index >= old(self).spec_vectors().len() ==> *final(self) == *old(self),
    {
        if index < self.vectors.len() {
            self.vectors.set(index, vector);
        }
    }

    /// The direction of one system, `None` out of range.
    pub fn get_vector(&self, index: usize) -> (r: Option<Vec3>)
        ensures
            index < self.spec_vectors().len() ==> r == Some(self.spec_vectors()[index as int]),
            index >= self.spec_vectors().len() ==> r is None,
    {
        if index < self.vectors.len() {
            Some(self.vectors[index])
        } else {
            None
        }
    }

    /// The stored directions (specification view).
    pub closed spec fn spec_vectors(self) -> Seq<Vec3> {
        self.vectors@
    }
}

/// Per-grain slip-plane normals of the 24 systems.
#[derive(PartialEq, Eq, Debug)]
pub struct NormalVectorComponent {
    vectors: Vec<Vec3>,
}

impl NormalVectorComponent {
    /// The component holds exactly one normal per slip system.
    pub open spec fn wf(self) -> bool {
        self.spec_vectors().len() == NUM_SLIP
    }

    /// A fresh component holding zero normals.
    pub fn new() -> (r: NormalVectorComponent)
        ensures
            r.wf(),
            forall|s: int| 0 <= s < NUM_SLIP ==> r.spec_vectors()[s] == (Vec3 { x: 0, y: 0, z: 0 }),
    {
        let mut vectors: Vec<Vec3> = Vec::new();
        let mut i: usize = 0;
        while i < NUM_SLIP
            invariant
                i <= NUM_SLIP,
                vectors@.len() == i,
                forall|s: int| 0 <= s < i ==> vectors@[s] == (Vec3 { x: 0, y: 0, z: 0 }),
            decreases NUM_SLIP - i,
        {
            vectors.push(Vec3::zero());
            i = i + 1;
        }
        NormalVectorComponent { vectors }
    }

    /// Install the normal of one system; an out-of-range index is ignored.
    pub fn set_vector(&mut self, index: usize, vector: Vec3)
        ensures
            index < old(self).spec_vectors().len() ==> final(self).spec_vectors()
                == old(self).spec_vectors().update(index as int, vector),
            index >= old(self).spec_vectors().len() ==> *final(self) == *old(self),
    {
        if index < self.vectors.len() {
            self.vectors.set(index, vector);
        }
    }

    /// The normal of one system, `None` out of range.
    pub fn get_vector(&self, index: usize) -> (r: Option<Vec3>)
        ensures
            index < self.spec_vectors().len() ==> r == Some(self.spec_vectors()[index as int]),
            index >= self.spec_vectors().len() ==> r is None,
    {
        if index < self.vectors.len() {
            Some(self.vectors[index])
        } else {
            None
        }
    }

    /// The stored normals (specification view).
    pub closed spec fn spec_vectors(self) -> Seq<Vec3> {
        self.vectors@
    }
}

/// Per-grain Schmid tensors (Burgers direction outer slip-plane normal)
/// of the 24 systems.
#[derive(PartialEq, Eq, Debug)]
pub struct BNComponent {
    matrices: Vec<Mat3>,
}

impl BNComponent {
    /// The component holds exactly one tensor per slip system.
    pub open spec fn wf(self) -> bool {
        self.spec_matrices().len() == NUM_SLIP
    }

    /// A fresh component holding identity tensors.
    pub fn new() -> (r: BNComponent)
        ensures
            r.wf(),
            forall|s: int| 0 <= s < NUM_SLIP ==> r.spec_matrices()[s] == Mat3::spec_identity(),
    {
        let mut matrices: Vec<Mat3> = Vec::new();
        let mut i: usize = 0;
        while i < NUM_SLIP
            invariant
                i <= NUM_SLIP,
                matrices@.len() == i,
                forall|s: int| 0 <= s < i ==> matrices@[s] == Mat3::spec_identity(),
            decreases NUM_SLIP - i,
        {
            matrices.push(Mat3::identity());
            i = i + 1;
        }
        BNComponent { matrices }
    }

    /// Install the Schmid tensor of one system; an out-of-range index is
    /// ignored.
    pub fn set_matrix(&mut self, index: usize, matrix: Mat3)
        ensures
            index < old(self).spec_matrices().len() ==> final(self).spec_matrices()
                == old(self).spec_matrices().update(index as int, matrix),
            index >= old(self).spec_matrices().len() ==> *final(self) == *old(self),
    {
        if index < self.matrices.len() {
            self.matrices.set(index, matrix);
        }
    }

    /// The Schmid tensor of one system, `None` out of range.
    pub fn get_matrix(&self, index: usize) -> (r: Option<Mat3>)
        ensures
            index < self.spec_matrices().len() ==> r == Some(self.spec_matrices()[index as int]),
            index >= self.spec_matrices().len() ==> r is None,
    {
        if index < self.matrices.len() {
            Some(self.matrices[index])
        } else {
            None
        }
    }

    /// The stored tensors (specification view).
    pub closed spec fn spec_matrices(self) -> Seq<Mat3> {
        self.matrices@
    }

    /// Build the 24 Schmid tensors as outer products of the stored
    /// Burgers directions and normals.
    pub fn compute_from(burgers: &BurgersVectorComponent, normals: &NormalVectorComponent) -> (r:
        BNComponent)
        requires
            burgers.wf(),
            normals.wf(),
        ensures
            r.wf(),
            forall|s: int|
                0 <= s < NUM_SLIP ==> r.spec_matrices()[s] == burgers.spec_vectors()[s].spec_outer(
                    normals.spec_vectors()[s],
                ),
    {
        let mut matrices: Vec<Mat3> = Vec::new();
        let mut i: usize = 0;
        while i < NUM_SLIP
            invariant
                i <= NUM_SLIP,
                burgers.wf(),
                normals.wf(),
                matrices@.len() == i,
                forall|s: int|
                    0 <= s < i ==> matrices@[s] == burgers.spec_vectors()[s].spec_outer(
                        normals.spec_vectors()[s],
                    ),
            decreases NUM_SLIP - i,
        {
            let b = burgers.get_vector(i).unwrap();
            let n = normals.get_vector(i).unwrap();
            matrices.push(b.outer(&n));
            i = i + 1;
        }
        BNComponent { matrices }
    }
}

/// A per-grain 24-vector of scalars: resolved or critical shear stress.
#[derive(PartialEq, Eq, Debug)]
pub struct TauComponent {
    values: Vec<i64>,
}

impl TauComponent {
    /// The component holds exactly one value per slip system.
    pub open spec fn wf(self) -> bool {
        self.spec_values().len() == NUM_SLIP
    }

    /// A fresh component holding zeros.
    pub fn new() -> (r: TauComponent)
        ensures
            r.wf(),
            forall|s: int| 0 <= s < NUM_SLIP ==> r.spec_values()[s] == 0i64,
    {
        let mut values: Vec<i64> = Vec::new();
        let mut i: usize = 0;
        while i < NUM_SLIP
            invariant
                i <= NUM_SLIP,
                values@.len() == i,
                forall|s: int| 0 <= s < i ==> values@[s] == 0i64,
            decreases NUM_SLIP - i,
        {
            values.push(0);
            i = i + 1;
        }
        TauComponent { values }
    }

    /// Install one value; an out-of-range index is ignored.
    pub fn set_values(&mut self, index: usize, value: i64)
        ensures
            index < old(self).spec_values().len() ==> final(self).spec_values()
                == old(self).spec_values().update(index as int, value),
            index >= old(self).spec_values().len() ==> *final(self) == *old(self),
    {
        if index < self.values.len() {
            self.values.set(index, value);
        }
    }

    /// One value, `None` out of range.
    pub fn get_values(&self, index: usize) -> (r: Option<i64>)
        ensures
            index < self.spec_values().len() ==> r == Some(self.spec_values()[index as int]),
            index >= self.spec_values().len() ==> r is None,
    {
        if index < self.values.len() {
            Some(self.values[index])
        } else {
            None
        }
    }

    /// The stored values (specification view).
    pub closed spec fn spec_values(self) -> Seq<i64> {
        self.values@
    }
}

/// A per-grain 24-vector of scalar rates.
#[derive(PartialEq, Eq, Debug)]
pub struct TauRateComponent {
    values: Vec<i64>,
}

impl TauRateComponent {
    /// The component holds exactly one value per slip system.
    pub open spec fn wf(self) -> bool {
        self.spec_values().len() == NUM_SLIP
    }

    /// A fresh component holding zeros.
    pub fn new() -> (r: TauRateComponent)
        ensures
            r.wf(),
            forall|s: int| 0 <= s < NUM_SLIP ==> r.spec_values()[s] == 0i64,
    {
        let mut values: Vec<i64> = Vec::new();
        let mut i: usize = 0;
        while i < NUM_SLIP
            invariant
                i <= NUM_SLIP,
                values@.len() == i,
                forall|s: int| 0 <= s < i ==> values@[s] == 0i64,
            decreases NUM_SLIP - i,
        {
            values.push(0);
            i = i + 1;
        }
        TauRateComponent { values }
    }

    /// Install one value; an out-of-range index is ignored.
    pub fn set_values(&mut self, index: usize, value: i64)
        ensures
            index < old(self).spec_values().len() ==> final(self).spec_values()
                == old(self).spec_values().update(index as int, value),
            index >= old(self).spec_values().len() ==> *final(self) == *old(self),
    {
        if index < self.values.len() {
            self.values.set(index, value);
        }
    }

    /// One value, `None` out of range.
    pub fn get_values(&self, index: usize) -> (r: Option<i64>)
        ensures
            index < self.spec_values().len() ==> r == Some(self.spec_values()[index as int]),
            index >= self.spec_values().len() ==> r is None,
    {
        if index < self.values.len() {
            Some(self.values[index])
        } else {
            None
        }
    }

    /// The stored values (specification view).
    pub closed spec fn spec_values(self) -> Seq<i64> {
        self.values@
    }
}

/// A per-grain 24-vector of accumulated slip shears.
#[derive(PartialEq, Eq, Debug)]
pub struct GammaComponent {
    values: Vec<i64>,
}

impl GammaComponent {
    /// The component holds exactly one value per slip system.
    pub open spec fn wf(self) -> bool {
        self.spec_values().len() == NUM_SLIP
    }

    /// A fresh component holding zeros.
    pub fn new() -> (r: GammaComponent)
        ensures
            r.wf(),
            forall|s: int| 0 <= s < NUM_SLIP ==> r.spec_values()[s] == 0i64,
    {
        let mut values: Vec<i64> = Vec::new();
        let mut i: usize = 0;
        while i < NUM_SLIP
            invariant
                i <= NUM_SLIP,
                values@.len() == i,
                forall|s: int| 0 <= s < i ==> values@[s] == 0i64,
            decreases NUM_SLIP - i,
        {
            values.push(0);
            i = i + 1;
        }
        GammaComponent { values }
    }

    /// Install one value; an out-of-range index is ignored.
    pub fn set_values(&mut self, index: usize, value: i64)
        ensures
            index < old(self).spec_values().len() ==> final(self).spec_values()
                == old(self).spec_values().update(index as int, value),
            index >= old(self).spec_values().len() ==> *final(self) == *old(self),
    {
        if index < self.values.len() {
            self.values.set(index, value);
        }
    }

    /// One value, `None` out of range.
    pub fn get_values(&self, index: usize) -> (r: Option<i64>)
        ensures
            index < self.spec_values().len() ==> r == Some(self.spec_values()[index as int]),
            index >= self.spec_values().len() ==> r is None,
    {
        if index < self.values.len() {
            Some(self.values[index])
        } else {
            None
        }
    }

    /// The stored values (specification view).
    pub closed spec fn spec_values(self) -> Seq<i64> {
        self.values@
    }
}

/// A per-grain 24-vector of instantaneous slip rates.
#[derive(PartialEq, Eq, Debug)]
pub struct GammaRateComponent {
    values: Vec<i64>,
}

impl GammaRateComponent {
    /// The component holds exactly one value per slip system.
    pub open spec fn wf(self) -> bool {
        self.spec_values().len() == NUM_SLIP
    }

    /// A fresh component holding zeros.
    pub fn new() -> (r: GammaRateComponent)
        ensures
            r.wf(),
            forall|s: int| 0 <= s < NUM_SLIP ==> r.spec_values()[s] == 0i64,
    {
        let mut values: Vec<i64> = Vec::new();
        let mut i: usize = 0;
        while i < NUM_SLIP
            invariant
                i <= NUM_SLIP,
                values@.len() == i,
                forall|s: int| 0 <= s < i ==> values@[s] == 0i64,
            decreases NUM_SLIP - i,
        {
            values.push(0);
            i = i + 1;
        }
        GammaRateComponent { values }
    }

    /// Install one value; an out-of-range index is ignored.
    pub fn set_values(&mut self, index: usize, value: i64)
        ensures
            index < old(self).spec_values().len() ==> final(self).spec_values()
                == old(self).spec_values().update(index as int, value),
            index >= old(self).spec_values().len() ==> *final(self) == *old(self),
    {
        if index < self.values.len() {
            self.values.set(index, value);
        }
    }

    /// One value, `None` out of range.
    pub fn get_values(&self, index: usize) -> (r: Option<i64>)
        ensures
            index < self.spec_values().len() ==> r == Some(self.spec_values()[index as int]),
            index >= self.spec_values().len() ==> r is None,
    {
        if index < self.values.len() {
            Some(self.values[index])
        } else {
            None
        }
    }

    /// The stored values (specification view).
    pub closed spec fn spec_values(self) -> Seq<i64> {
        self.values@
    }
}

/// A per-grain 24-vector of self-hardening moduli.
#[derive(PartialEq, Eq, Debug)]
pub struct HVectorComponent {
    vector: Vec<i64>,
}

impl HVectorComponent {
    /// The component holds exactly one modulus per slip system.
    pub open spec fn wf(self) -> bool {
        self.spec_values().len() == NUM_SLIP
    }

    /// A fresh component holding zeros.
    pub fn new() -> (r: HVectorComponent)
        ensures
            r.wf(),
            forall|s: int| 0 <= s < NUM_SLIP ==> r.spec_values()[s] == 0i64,
    {
        let mut vector: Vec<i64> = Vec::new();
        let mut i: usize = 0;
        while i < NUM_SLIP
            invariant
                i <= NUM_SLIP,
                vector@.len() == i,
                forall|s: int| 0 <= s < i ==> vector@[s] == 0i64,
            decreases NUM_SLIP - i,
        {
            vector.push(0);
            i = i + 1;
        }
        HVectorComponent { vector }
    }

    /// Install one modulus; an out-of-range index is ignored.
    pub fn set_vector(&mut self, index: usize, value: i64)
        ensures
            index < old(self).spec_values().len() ==> final(self).spec_values()
                == old(self).spec_values().update(index as int, value),
            index >= old(self).spec_values().len() ==> *final(self) == *old(self),
    {
        if index < self.vector.len() {
            self.vector.set(index, value);
        }
    }

    /// One modulus, `None` out of range.
    pub fn get_value(&self, index: usize) -> (r: Option<i64>)
        ensures
            index < self.spec_values().len() ==> r == Some(self.spec_values()[index as int]),
            index >= self.spec_values().len() ==> r is None,
    {
        if index < self.vector.len() {
            Some(self.vector[index])
        } else {
            None
        }
    }

    /// The stored moduli (specification view).
    pub closed spec fn spec_values(self) -> Seq<i64> {
        self.vector@
    }
}

/// A per-grain 24x24 hardening-interaction matrix.
#[derive(PartialEq, Eq, Debug)]
pub struct HMatrixComponent {
    matrix: Vec<Vec<i64>>,
}

impl HMatrixComponent {
    /// The matrix is 24x24.
    pub open spec fn wf(self) -> bool {
        &&& self.spec_rows().len() == NUM_SLIP
        &&& forall|i: int| 0 <= i < NUM_SLIP ==> #[trigger] self.spec_rows()[i].len() == NUM_SLIP
    }

    /// A fresh component holding zeros.
    pub fn new() -> (r: HMatrixComponent)
        ensures
            r.wf(),
            forall|i: int, j: int|
                0 <= i < NUM_SLIP && 0 <= j < NUM_SLIP ==> #[trigger] r.spec_rows()[i][j] == 0i64,
    {
        let mut matrix: Vec<Vec<i64>> = Vec::new();
        let mut i: usize = 0;
        while i < NUM_SLIP
            invariant
                i <= NUM_SLIP,
                matrix@.len() == i,
                forall|a: int| 0 <= a < i ==> #[trigger] matrix@[a]@.len() == NUM_SLIP,
                forall|a: int, b: int|
                    0 <= a < i && 0 <= b < NUM_SLIP ==> #[trigger] matrix@[a]@[b] == 0i64,
            decreases NUM_SLIP - i,
        {
            let mut row: Vec<i64> = Vec::new();
            let mut j: usize = 0;
            while j < NUM_SLIP
                invariant
                    j <= NUM_SLIP,
                    row@.len() == j,
                    forall|b: int| 0 <= b < j ==> row@[b] == 0i64,
                decreases NUM_SLIP - j,
            {
                row.push(0);
                j = j + 1;
            }
            matrix.push(row);
            i = i + 1;
        }
        HMatrixComponent { matrix }
    }

    /// Install one entry; out-of-range indices are ignored.
    pub fn set_value(&mut self, index_i: usize, index_j: usize, value: i64)
        ensures
            index_i < old(self).spec_rows().len() && index_j < old(self).spec_rows()[index_i as int].len()
                ==> final(self).spec_rows() == old(self).spec_rows().update(
                index_i as int,
                old(self).spec_rows()[index_i as int].update(index_j as int, value),
            ),
            !(index_i < old(self).spec_rows().len() && index_j < old(self).spec_rows()[index_i as int].len())
                ==> *final(self) == *old(self),
    {
        if index_i < self.matrix.len() {
            let ghost rows = self.matrix@.map_values(|r: Vec<i64>| r@);
            if index_j < self.matrix[index_i].len() {
                let mut row = self.matrix[index_i].clone();
                row.set(index_j, value);
                self.matrix.set(index_i, row);
                proof {
                    assert(self.spec_rows() =~= old(self).spec_rows().update(
                        index_i as int,
                        old(self).spec_rows()[index_i as int].update(index_j as int, value),
                    ));
                }
            }
        }
    }

    /// One entry, `None` out of range.
    pub fn get_value(&self, index_i: usize, index_j: usize) -> (r: Option<i64>)
        ensures
            index_i < self.spec_rows().len() && index_j < self.spec_rows()[index_i as int].len()
                ==> r == Some(self.spec_rows()[index_i as int][index_j as int]),
            !(index_i < self.spec_rows().len() && index_j < self.spec_rows()[index_i as int].len())
                ==> r is None,
    {
        if index_i < self.matrix.len() {
            if index_j < self.matrix[index_i].len() {
                Some(self.matrix[index_i][index_j])
            } else {
                None
            }
        } else {
            None
        }
    }

    /// The stored rows (specification view).
    pub closed spec fn spec_rows(self) -> Seq<Seq<i64>> {
        self.matrix@.map_values(|r: Vec<i64>| r@)
    }
}

/// Resolved shear stress of one system: the Schmid tensor contracted with
/// the stress, clamped to zero when negative (slip only activates under
/// positive resolved shear).
pub open spec fn spec_tau_entry(bn: Mat3, sigma: Mat3) -> int {
    max0(bn.spec_ddot(sigma))
}

/// The 24 resolved shear stresses from the Schmid tensors and the stress
/// tensor.
pub fn compute_tau(bn: &BNComponent, sigma: &Mat3) -> (r: TauComponent)
    requires
        bn.wf(),
    ensures
        r.wf(),
        forall|s: int|
            0 <= s < NUM_SLIP ==> r.spec_values()[s] as int == spec_tau_entry(
                bn.spec_matrices()[s],
                *sigma,
            ),
{
    let mut values: Vec<i64> = Vec::new();
    let mut i: usize = 0;
    while i < NUM_SLIP
        invariant
            i <= NUM_SLIP,
            bn.wf(),
            values@.len() == i,
            forall|s: int|
                0 <= s < i ==> values@[s] as int == spec_tau_entry(bn.spec_matrices()[s], *sigma),
        decreases NUM_SLIP - i,
    {
        let m = bn.get_matrix(i).unwrap();
        let t = m.ddot(sigma);
        if t > 0 {
            values.push(t);
        } else {
            values.push(0);
        }
        i = i + 1;
    }
    TauComponent { values }
}

/// Power-law slip rate of one system: gamma_0 * (tau/tau_c)^m when the
/// stress ratio strictly exceeds one, else zero (the threshold tie counts
/// as inactive). A non-positive critical stress is degenerate: the ratio
/// is guarded to zero and the system stays inactive.
pub open spec fn spec_gamma_rate_entry(tau: int, tau_c: int, gamma_0: int, m: nat) -> int {
    let ratio = s_div(tau, tau_c);
    if ratio > FX_ONE {
        s_mul(gamma_0, s_pow(ratio, m))
    } else {
        0
    }
}

/// The 24 slip rates from the resolved and critical shear stresses.
pub fn compute_gamma_rate(tau: &TauComponent, tau_c: &TauComponent, gamma_0: i64, m: u32) -> (r:
    GammaRateComponent)
    requires
        tau.wf(),
        tau_c.wf(),
    ensures
        r.wf(),
        forall|s: int|
            0 <= s < NUM_SLIP ==> r.spec_values()[s] as int == spec_gamma_rate_entry(
                tau.spec_values()[s] as int,
                tau_c.spec_values()[s] as int,
                gamma_0 as int,
                m as nat,
            ),
{
    let mut values: Vec<i64> = Vec::new();
    let mut i: usize = 0;
    while i < NUM_SLIP
        invariant
            i <= NUM_SLIP,
            tau.wf(),
            tau_c.wf(),
            values@.len() == i,
            forall|s: int|
                0 <= s < i ==> values@[s] as int == spec_gamma_rate_entry(
                    tau.spec_values()[s] as int,
                    tau_c.spec_values()[s] as int,
                    gamma_0 as int,
                    m as nat,
                ),
        decreases NUM_SLIP - i,
    {
        let t = tau.get_values(i).unwrap();
        let tc = tau_c.get_values(i).unwrap();
        let ratio = fx_div(t, tc);
        if ratio > FX_ONE {
            values.push(fx_mul(gamma_0, fx_pow(ratio, m)));
        } else {
            values.push(0);
        }
        i = i + 1;
    }
    GammaRateComponent { values }
}

/// Self-hardening modulus of one system: h0 * |1 - tau_c/tau_sat|^a
/// (saturation-type hardening), with the saturation stress already in
/// working units.
pub open spec fn spec_h_entry(tau_c: int, tau_sat: int, h0: int, a: nat) -> int {
    let absol = crate::fx::clamp_fx(absi(crate::fx::s_sub(FX_ONE as int, s_div(tau_c, tau_sat))));
    s_mul(h0, s_pow(absol, a))
}

/// The 24 self-hardening moduli from the critical shear stresses.
pub fn compute_h_vector(tau_c: &TauComponent, tau_sat: i64, h0: i64, a: u32) -> (r:
    HVectorComponent)
    requires
        tau_c.wf(),
    ensures
        r.wf(),
        forall|s: int|
            0 <= s < NUM_SLIP ==> r.spec_values()[s] as int == spec_h_entry(
                tau_c.spec_values()[s] as int,
                tau_sat as int,
                h0 as int,
                a as nat,
            ),
{
    let mut values: Vec<i64> = Vec::new();
    let mut i: usize = 0;
    while i < NUM_SLIP
        invariant
            i <= NUM_SLIP,
            tau_c.wf(),
            values@.len() == i,
            forall|s: int|
                0 <= s < i ==> values@[s] as int == spec_h_entry(
                    tau_c.spec_values()[s] as int,
                    tau_sat as int,
                    h0 as int,
                    a as nat,
                ),
        decreases NUM_SLIP - i,
    {
        let tc = tau_c.get_values(i).unwrap();
        let absol = fx_abs(crate::fx::fx_sub(FX_ONE, fx_div(tc, tau_sat)));
        values.push(fx_mul(h0, fx_pow(absol, a)));
        i = i + 1;
    }
    HVectorComponent { vector: values }
}

/// Hardening-interaction entry: the column's self-hardening modulus on
/// the diagonal, scaled by the latent ratio off it.
pub open spec fn spec_h_matrix_entry(h_j: int, on_diagonal: bool, qlat: int) -> int {
    if on_diagonal {
        h_j
    } else {
        s_mul(h_j, qlat)
    }
}

/// The 24x24 hardening-interaction matrix from the self-hardening moduli
/// and the latent ratio.
pub fn compute_h_matrix(h_vector: &HVectorComponent, qlat: i64) -> (r: HMatrixComponent)
    requires
        h_vector.wf(),
    ensures
        r.wf(),
        forall|i: int, j: int|
            0 <= i < NUM_SLIP && 0 <= j < NUM_SLIP ==> #[trigger] r.spec_rows()[i][j] as int
                == spec_h_matrix_entry(h_vector.spec_values()[j] as int, i == j, qlat as int),
{
    let mut matrix: Vec<Vec<i64>> = Vec::new();
    let mut i: usize = 0;
    while i < NUM_SLIP
        invariant
            i <= NUM_SLIP,
            h_vector.wf(),
            matrix@.len() == i,
            forall|a: int| 0 <= a < i ==> #[trigger] matrix@[a]@.len() == NUM_SLIP,
            forall|a: int, b: int|
                0 <= a < i && 0 <= b < NUM_SLIP ==> #[trigger] matrix@[a]@[b] as int
                    == spec_h_matrix_entry(h_vector.spec_values()[b] as int, a == b, qlat as int),
        decreases NUM_SLIP - i,
    {
        let mut row: Vec<i64> = Vec::new();
        let mut j: usize = 0;
        while j < NUM_SLIP
            invariant
                j <= NUM_SLIP,
                h_vector.wf(),
                row@.len() == j,
                forall|b: int|
                    0 <= b < j ==> #[trigger] row@[b] as int == spec_h_matrix_entry(
                        h_vector.spec_values()[b] as int,
                        i == b,
                        qlat as int,
                    ),
            decreases NUM_SLIP - j,
        {
            let h_j = h_vector.get_value(j).unwrap();
            if i == j {
                row.push(h_j);
            } else {
                row.push(fx_mul(h_j, qlat));
            }
            j = j + 1;
        }
        matrix.push(row);
        i = i + 1;
    }
    proof {
        assert(forall|a: int, b: int|
            0 <= a < NUM_SLIP && 0 <= b < NUM_SLIP ==> #[trigger] (HMatrixComponent {
                matrix,
            }).spec_rows()[a][b] as int == spec_h_matrix_entry(
                h_vector.spec_values()[b] as int,
                a == b,
                qlat as int,
            ));
    }
    HMatrixComponent { matrix }
}

/// The fixed-point sum of row[j] * g[j] over the first k entries.
pub open spec fn spec_row_dot(row: Seq<i64>, g: Seq<i64>, k: nat) -> int
    decreases k,
{
    if k == 0 {
        0
    } else {
        s_add(spec_row_dot(row, g, (k - 1) as nat), s_mul(row[k - 1] as int, g[k - 1] as int))
    }
}

/// Critical-stress rate of one system: the hardening row contracted with
/// the slip rates, frozen to zero when the system's own slip-rate
/// magnitude is at most [`GAMMA_RATE_EPS`].
pub open spec fn spec_tauc_rate_entry(row: Seq<i64>, g: Seq<i64>, k: int) -> int {
    if absi(g[k] as int) > GAMMA_RATE_EPS as int {
        spec_row_dot(row, g, NUM_SLIP as nat)
    } else {
        0
    }
}

/// The 24 critical-stress rates by the saturation hardening law.
pub fn compute_tauc_rate(h_matrix: &HMatrixComponent, gamma_rate: &GammaRateComponent) -> (r:
    TauRateComponent)
    requires
        h_matrix.wf(),
        gamma_rate.wf(),
    ensures
        r.wf(),
        forall|k: int|
            0 <= k < NUM_SLIP ==> r.spec_values()[k] as int == spec_tauc_rate_entry(
                h_matrix.spec_rows()[k],
                gamma_rate.spec_values(),
                k,
            ),
{
    let mut values: Vec<i64> = Vec::new();
    let mut k: usize = 0;
    while k < NUM_SLIP
        invariant
            k <= NUM_SLIP,
            h_matrix.wf(),
            gamma_rate.wf(),
            values@.len() == k,
            forall|a: int|
                0 <= a < k ==> values@[a] as int == spec_tauc_rate_entry(
                    h_matrix.spec_rows()[a],
                    gamma_rate.spec_values(),
                    a,
                ),
        decreases NUM_SLIP - k,
    {
        let mut sum: i64 = 0;
        let mut j: usize = 0;
        while j < NUM_SLIP
            invariant
                j <= NUM_SLIP,
                k < NUM_SLIP,
                h_matrix.wf(),
                gamma_rate.wf(),
                sum as int == spec_row_dot(
                    h_matrix.spec_rows()[k as int],
                    gamma_rate.spec_values(),
                    j as nat,
                ),
            decreases NUM_SLIP - j,
        {
            let h = h_matrix.get_value(k, j).unwrap();
            let g = gamma_rate.get_values(j).unwrap();
            sum = fx_add(sum, fx_mul(h, g));
            j = j + 1;
        }
        let g_k = gamma_rate.get_values(k).unwrap();
        if fx_abs(g_k) > GAMMA_RATE_EPS {
            values.push(sum);
        } else {
            values.push(0);
        }
        k = k + 1;
    }
    TauRateComponent { values }
}

/// Accumulated slip shear of one system after one explicit step:
/// gamma + gamma_rate * dt.
pub open spec fn spec_gamma_entry(gamma: int, rate: int, dt: int) -> int {
    s_add(gamma, s_mul(rate, dt))
}

/// Integrate the 24 accumulated slip shears by one explicit step.
pub fn compute_gamma(gamma: &GammaComponent, rate: &GammaRateComponent, dt: i64) -> (r:
    GammaComponent)
    requires
        gamma.wf(),
        rate.wf(),
    ensures
        r.wf(),
        forall|s: int|
            0 <= s < NUM_SLIP ==> r.spec_values()[s] as int == spec_gamma_entry(
                gamma.spec_values()[s] as int,
                rate.spec_values()[s] as int,
                dt as int,
            ),
{
    let mut values: Vec<i64> = Vec::new();
    let mut i: usize = 0;
    while i < NUM_SLIP
        invariant
            i <= NUM_SLIP,
            gamma.wf(),
            rate.wf(),
            values@.len() == i,
            forall|s: int|
                0 <= s < i ==> values@[s] as int == spec_gamma_entry(
                    gamma.spec_values()[s] as int,
                    rate.spec_values()[s] as int,
                    dt as int,
                ),
        decreases NUM_SLIP - i,
    {
        let g = gamma.get_values(i).unwrap();
        let gr = rate.get_values(i).unwrap();
        values.push(fx_add(g, fx_mul(gr, dt)));
        i = i + 1;
    }
    GammaComponent { values }
}

/// Critical shear stress of one system after one explicit step:
/// tau_c + tau_c_rate * dt.
pub open spec fn spec_tauc_entry(tau_c: int, rate: int, dt: int) -> int {
    s_add(tau_c, s_mul(rate, dt))
}

/// Integrate the 24 critical shear stresses by one explicit step.
pub fn compute_tauc(tau_c: &TauComponent, rate: &TauRateComponent, dt: i64) -> (r: TauComponent)
    requires
        tau_c.wf(),
        rate.wf(),
    ensures
        r.wf(),
        forall|s: int|
            0 <= s < NUM_SLIP ==> r.spec_values()[s] as int == spec_tauc_entry(
                tau_c.spec_values()[s] as int,
                rate.spec_values()[s] as int,
                dt as int,
            ),
{
    let mut values: Vec<i64> = Vec::new();
    let mut i: usize = 0;
    while i < NUM_SLIP
        invariant
            i <= NUM_SLIP,
            tau_c.wf(),
            rate.wf(),
            values@.len() == i,
            forall|s: int|
                0 <= s < i ==> values@[s] as int == spec_tauc_entry(
                    tau_c.spec_values()[s] as int,
                    rate.spec_values()[s] as int,
                    dt as int,
                ),
        decreases NUM_SLIP - i,
    {
        let tc = tau_c.get_values(i).unwrap();
        let tr = rate.get_values(i).unwrap();
        values.push(fx_add(tc, fx_mul(tr, dt)));
        i = i + 1;
    }
    TauComponent { values }
}

/// Partial plastic strain-rate tensor: the sum of gamma_rate[s] * BN[s]
/// over the first k systems.
pub open spec fn spec_din_partial(bn: Seq<Mat3>, g: Seq<i64>, k: nat) -> Mat3
    decreases k,
{
    if k == 0 {
        Mat3::spec_zero()
    } else {
        spec_din_partial(bn, g, (k - 1) as nat).spec_add(bn[k - 1].spec_scale(g[k - 1] as int))
    }
}

/// The plastic strain-rate tensor: the slip rates contracted with the
/// Schmid tensors over all 24 systems.
pub fn compute_din(gamma_rate: &GammaRateComponent, bn: &BNComponent) -> (r: Mat3)
    requires
        gamma_rate.wf(),
        bn.wf(),
    ensures
        r == spec_din_partial(bn.spec_matrices(), gamma_rate.spec_values(), NUM_SLIP as nat),
{
    let mut sum = Mat3::zero();
    let mut i: usize = 0;
    while i < NUM_SLIP
        invariant
            i <= NUM_SLIP,
            gamma_rate.wf(),
            bn.wf(),
            sum == spec_din_partial(bn.spec_matrices(), gamma_rate.spec_values(), i as nat),
        decreases NUM_SLIP - i,
    {
        let g = gamma_rate.get_values(i).unwrap();
        let m = bn.get_matrix(i).unwrap();
        sum = sum.add(&m.scale(g));
        i = i + 1;
    }
    sum
}

/// Hall-Petch strengthening term: k_y * sqrt(b/d) for a Burgers magnitude
/// b and grain size d, guarded to use zero for a negative (degenerate)
/// ratio.
pub open spec fn spec_hall_petch(k_y: int, b: int, d: int) -> int {
    let q = s_div(b, d);
    let root = if q < 0 {
        0
    } else {
        crate::fxmath::sqrt_floor(q * FX_ONE)
    };
    s_mul(k_y, root)
}

/// Hall-Petch strengthening term k_y * sqrt(b/d).
pub fn compute_hall_petch(k_y: i64, b: i64, d: i64) -> (r: i64)
    ensures
        r as int == spec_hall_petch(k_y as int, b as int, d as int),
{
    let q = fx_div(b, d);
    let root = if q < 0 {
        0
    } else {
        crate::fxmath::fx_sqrt(q)
    };
    fx_mul(k_y, root)
}

/// A critical-stress component with every system at the same base value.
pub fn tau_c_uniform(value: i64) -> (r: TauComponent)
    ensures
        r.wf(),
        forall|s: int| 0 <= s < NUM_SLIP ==> r.spec_values()[s] == value,
{
    let mut values: Vec<i64> = Vec::new();
    let mut i: usize = 0;
    while i < NUM_SLIP
        invariant
            i <= NUM_SLIP,
            values@.len() == i,
            forall|s: int| 0 <= s < i ==> values@[s] == value,
        decreases NUM_SLIP - i,
    {
        values.push(value);
        i = i + 1;
    }
    TauComponent { values }
}

/// Burgers directions of the 24 signed systems from the 12 canonical
/// directions: system 2i carries direction i normalized, system 2i+1 its
/// mirror.
pub fn burgers_from_directions(dirs: &Vec<Vec3>) -> (r: BurgersVectorComponent)
    requires
        dirs@.len() == 12,
    ensures
        r.wf(),
        forall|i: int|
            0 <= i < 12 ==> #[trigger] r.spec_vectors()[2 * i] == dirs@[i].spec_normalize(),
        forall|i: int|
            0 <= i < 12 ==> #[trigger] r.spec_vectors()[2 * i + 1]
                == dirs@[i].spec_normalize().spec_neg(),
{
    let mut vectors: Vec<Vec3> = Vec::new();
    let mut i: usize = 0;
    while i < 12
        invariant
            i <= 12,
            dirs@.len() == 12,
            vectors@.len() == 2 * i,
            forall|j: int| 0 <= j < i ==> #[trigger] vectors@[2 * j] == dirs@[j].spec_normalize(),
            forall|j: int|
                0 <= j < i ==> #[trigger] vectors@[2 * j + 1]
                    == dirs@[j].spec_normalize().spec_neg(),
        decreases 12 - i,
    {
        let v = dirs[i].normalize();
        vectors.push(v);
        vectors.push(v.neg());
        i = i + 1;
    }
    BurgersVectorComponent { vectors }
}

/// Slip-plane normals of the 24 signed systems from the 12 canonical
/// normals: systems 2i and 2i+1 both carry normal i normalized.
pub fn normals_from_directions(dirs: &Vec<Vec3>) -> (r: NormalVectorComponent)
    requires
        dirs@.len() == 12,
    ensures
        r.wf(),
        forall|i: int|
            0 <= i < 12 ==> #[trigger] r.spec_vectors()[2 * i] == dirs@[i].spec_normalize(),
        forall|i: int|
            0 <= i < 12 ==> #[trigger] r.spec_vectors()[2 * i + 1] == dirs@[i].spec_normalize(),
{
    let mut vectors: Vec<Vec3> = Vec::new();
    let mut i: usize = 0;
    while i < 12
        invariant
            i <= 12,
            dirs@.len() == 12,
            vectors@.len() == 2 * i,
            forall|j: int| 0 <= j < i ==> #[trigger] vectors@[2 * j] == dirs@[j].spec_normalize(),
            forall|j: int|
                0 <= j < i ==> #[trigger] vectors@[2 * j + 1] == dirs@[j].spec_normalize(),
        decreases 12 - i,
    {
        let v = dirs[i].normalize();
        vectors.push(v);
        vectors.push(v);
        i = i + 1;
    }
    NormalVectorComponent { vectors }
}

/// Move the Hall-Petch contribution of every system from the old grain
/// size to the new one: tau_c - hp_old + hp_new, preserving the intrinsic
/// hardening state.
pub fn tau_c_adjust_hp(tau_c: &TauComponent, hp_old: i64, hp_new: i64) -> (r: TauComponent)
    requires
        tau_c.wf(),
    ensures
        r.wf(),
        forall|s: int|
            0 <= s < NUM_SLIP ==> #[trigger] r.spec_values()[s] as int == s_add(
                crate::fx::s_sub(tau_c.spec_values()[s] as int, hp_old as int),
                hp_new as int,
            ),
{
    let mut values: Vec<i64> = Vec::new();
    let mut i: usize = 0;
    while i < NUM_SLIP
        invariant
            i <= NUM_SLIP,
            tau_c.wf(),
            values@.len() == i,
            forall|s: int|
                0 <= s < i ==> #[trigger] values@[s] as int == s_add(
                    crate::fx::s_sub(tau_c.spec_values()[s] as int, hp_old as int),
                    hp_new as int,
                ),
        decreases NUM_SLIP - i,
    {
        let tc = tau_c.get_values(i).unwrap();
        values.push(fx_add(crate::fx::fx_sub(tc, hp_old), hp_new));
        i = i + 1;
    }
    TauComponent { values }
}

/// Slip-rate threshold law: the slip rate of a system is exactly zero
/// whenever the resolved shear stress does not exceed the critical one.
pub proof fn lemma_slip_rate_zero_below_threshold(tau: int, tau_c: int, gamma_0: int, m: nat)
    requires
        0 <= tau <= tau_c,
    ensures
        spec_gamma_rate_entry(tau, tau_c, gamma_0, m) == 0,
{
    if tau_c > 0 {
        vstd::arithmetic::mul::lemma_mul_inequality(tau, tau_c, FX_ONE as int);
        crate::fxmath::lemma_qdiv_mono(tau * FX_ONE, tau_c * FX_ONE, tau_c);
        vstd::arithmetic::div_mod::lemma_div_multiples_vanish(FX_ONE as int, tau_c);
        assert(tau_c * FX_ONE == FX_ONE * tau_c) by (nonlinear_arith);
        assert(crate::fx::qdiv(tau_c * FX_ONE, tau_c) == FX_ONE as int);
        assert(s_div(tau, tau_c) <= FX_ONE as int);
    }
}

/// Slip-rate monotonicity law: for a fixed critical stress and
/// non-negative reference rate, the slip rate is non-decreasing in the
/// resolved shear stress.
pub proof fn lemma_slip_rate_monotonic(tau1: int, tau2: int, tau_c: int, gamma_0: int, m: nat)
    requires
        0 <= tau1 <= tau2,
        0 <= gamma_0,
    ensures
        spec_gamma_rate_entry(tau1, tau_c, gamma_0, m) <= spec_gamma_rate_entry(
            tau2,
            tau_c,
            gamma_0,
            m,
        ),
{
    if tau_c == 0 {
        // the guarded ratio is zero on both sides: both rates are zero
    } else if tau_c < 0 {
        // non-positive ratios on both sides: both rates are zero
        assert(tau1 * FX_ONE >= 0) by (nonlinear_arith)
            requires
                tau1 >= 0,
        ;
        assert(tau2 * FX_ONE >= 0) by (nonlinear_arith)
            requires
                tau2 >= 0,
        ;
        assert(crate::fx::qdiv(tau1 * FX_ONE, tau_c) <= 0);
        assert(crate::fx::qdiv(tau2 * FX_ONE, tau_c) <= 0);
    } else {
        crate::fxmath::lemma_s_div_mono(tau1, tau2, tau_c);
        let r1 = s_div(tau1, tau_c);
        let r2 = s_div(tau2, tau_c);
        if r2 > FX_ONE as int {
            crate::fxmath::lemma_s_pow_nonneg(r2, m);
            crate::fx::lemma_s_mul_nonneg(gamma_0, crate::fxmath::s_pow(r2, m));
            if r1 > FX_ONE as int {
                crate::fxmath::lemma_s_pow_mono(r1, r2, m);
                crate::fxmath::lemma_s_mul_mono_right(
                    gamma_0,
                    crate::fxmath::s_pow(r1, m),
                    crate::fxmath::s_pow(r2, m),
                );
            }
        }
    }
}

/// Hardening-freeze law: a system whose slip rate is zero gets a zero
/// critical-stress rate from one hardening update, whatever the hardening
/// matrix holds.
pub proof fn lemma_hardening_freeze(row: Seq<i64>, g: Seq<i64>, k: int)
    requires
        0 <= k < g.len(),
        g[k] == 0i64,
    ensures
        spec_tauc_rate_entry(row, g, k) == 0,
{
}

} // verus!
