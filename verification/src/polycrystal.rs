//! The polycrystal: a single grain table.
//!
//! Every per-grain component lives in one array indexed by the dense
//! grain number; the cross-cutting invariant [`Polycrystal::wf`] says that
//! all arrays always have exactly one row per grain. The one operation
//! that grows the population appends a row to every array together, so a
//! grain can never be present in one component and missing from another.

use vstd::prelude::*;
use crate::entity::CrystalEntity;
use crate::rotation::RotationComponent;
use crate::elasticity::{
    GradVComponent, WComponent, DComponent, EpsComponent, SigmaComponent, SigmaRateComponent,
    ElasticityTensorComponent,
};
use crate::slide_system::{
    NUM_SLIP, BurgersVectorComponent, NormalVectorComponent, BNComponent, TauComponent,
    TauRateComponent, GammaComponent, GammaRateComponent, HVectorComponent, HMatrixComponent,
    compute_tau, spec_tau_entry, compute_gamma_rate, spec_gamma_rate_entry, compute_gamma,
    spec_gamma_entry, compute_h_vector, spec_h_entry, compute_h_matrix, spec_h_matrix_entry,
    compute_tauc_rate, spec_tauc_rate_entry, compute_tauc, spec_tauc_entry, compute_din,
    spec_din_partial, compute_hall_petch, spec_hall_petch, tau_c_uniform, burgers_from_directions,
    normals_from_directions,
};
use crate::tensor::{Mat3, Vec3, Voigt6};
use crate::fx::{s_mul, s_add, s_sub};
use crate::recrystallization::{
    GrainSizeComponent, AccumEnergyComponent, AccumEnergyRateComponent, SubGrainsComponent,
    DriveForceRecrComponent, DriveForceRecrCrystComponent, FacetMobilityComponent,
    VelocityFacetComponent, StatusRecrystComponent, NewGrainsComponent, compute_drive_force,
    spec_drive_force,
};
use crate::slide_system::tau_c_adjust_hp;

verus! {

/// The scalar parameters of a simulation, in the library's working units;
/// unit conversions (such as Pa to MPa) are the caller's.
#[derive(Clone, Copy, PartialEq, Eq, Structural, Debug)]
pub struct SimParams {
    /// Explicit time-step size.
    pub dt: i64,
    /// Reference slip rate of the power-law flow rule.
    pub gamma_0: i64,
    /// Rate-sensitivity exponent of the flow rule: a natural number (the
    /// power is an m-fold fixed-point product; a real-valued exponent is
    /// not representable in this scalar model).
    pub m_exp: u32,
    /// Saturation stress of the hardening law (working stress units).
    pub tau_sat: i64,
    /// Hardening modulus.
    pub h0: i64,
    /// Hardening exponent, a natural number for the same reason as the
    /// flow-rule exponent.
    pub a_exp: u32,
    /// Latent-hardening ratio.
    pub qlat: i64,
    /// Stored-energy coefficient.
    pub alfa: i64,
    /// Unit-convention factor applied to the stress tensor before the
    /// stored-energy contraction (one where the stress is already in the
    /// energy's units).
    pub sigma_unit_scale: i64,
    /// Grain-boundary energy, pre-scaled so that egb/radius is in the
    /// stored energy's units.
    pub egb: i64,
    /// Rayleigh scale parameter of the subgrain radius population.
    pub r0: i64,
    /// Subgrain population size per grain.
    pub num_sg: usize,
    /// Cubic elastic constants and the calibration coefficient.
    pub c11: i64,
    /// Second cubic constant.
    pub c12: i64,
    /// Shear cubic constant.
    pub c44: i64,
    /// Calibration coefficient on the stiffness.
    pub koef: i64,
    /// Base critical resolved shear stress (working stress units).
    pub tau_c: i64,
    /// Burgers-vector magnitude (working length units).
    pub b: i64,
    /// Hall-Petch coefficient.
    pub k_y: i64,
    /// Reference mean grain size (working length units).
    pub gr_size: i64,
}

impl SimParams {
    /// The parameter ranges the sampling routines rely on.
    pub open spec fn wf(self) -> bool {
        &&& 0 <= self.r0 <= 100_000_000_000_000
        &&& self.num_sg <= 1_000_000
    }
}

/// The polycrystal grain table: one row per grain in every component
/// array, plus the shared parameters and the transient nucleation list.
pub struct Polycrystal {
    /// Grain identities; the identity in row g carries the number g.
    pub entities: Vec<CrystalEntity>,
    /// Per-grain rotation tensors.
    pub rotation: Vec<RotationComponent>,
    /// Per-grain crystal-frame velocity gradients.
    pub grad_v: Vec<GradVComponent>,
    /// Per-grain strain-rate tensors.
    pub d: Vec<DComponent>,
    /// Per-grain elastic strain rates.
    pub de: Vec<DComponent>,
    /// Per-grain inelastic strain rates.
    pub din: Vec<DComponent>,
    /// Per-grain spin tensors (optional extension path).
    pub w: Vec<WComponent>,
    /// Per-grain stresses.
    pub sigma: Vec<SigmaComponent>,
    /// Per-grain stress rates.
    pub sigma_rate: Vec<SigmaRateComponent>,
    /// Per-grain cubic stiffnesses.
    pub elasticity: Vec<ElasticityTensorComponent>,
    /// Per-grain accumulated strains.
    pub eps: Vec<EpsComponent>,
    /// Per-grain Burgers directions.
    pub burgers: Vec<BurgersVectorComponent>,
    /// Per-grain slip-plane normals.
    pub normals: Vec<NormalVectorComponent>,
    /// Per-grain Schmid tensors.
    pub bn: Vec<BNComponent>,
    /// Per-grain resolved shear stresses.
    pub tau: Vec<TauComponent>,
    /// Per-grain critical shear stresses (hardening state).
    pub tau_c: Vec<TauComponent>,
    /// Per-grain resolved-shear-stress rates (extension path).
    pub tau_rate: Vec<TauRateComponent>,
    /// Per-grain critical-shear-stress rates.
    pub tau_c_rate: Vec<TauRateComponent>,
    /// Per-grain accumulated slip shears.
    pub gamma: Vec<GammaComponent>,
    /// Per-grain slip rates.
    pub gamma_rate: Vec<GammaRateComponent>,
    /// Per-grain self-hardening moduli.
    pub h_vector: Vec<HVectorComponent>,
    /// Per-grain hardening-interaction matrices.
    pub h_matrix: Vec<HMatrixComponent>,
    /// Per-grain equivalent radii.
    pub gr_size: Vec<GrainSizeComponent>,
    /// Per-grain accumulated stored energies.
    pub est: Vec<AccumEnergyComponent>,
    /// Per-grain stored-energy rates.
    pub est_rate: Vec<AccumEnergyRateComponent>,
    /// Per-grain recrystallization status flags.
    pub status: Vec<StatusRecrystComponent>,
    /// Per-grain facet mobilities (extension path).
    pub facet_mobility: Vec<FacetMobilityComponent>,
    /// Per-grain subgrain populations.
    pub subgrains: Vec<SubGrainsComponent>,
    /// Per-grain nucleation driving forces, aligned with the subgrains.
    pub df_recr: Vec<DriveForceRecrComponent>,
    /// Per-grain whole-crystal driving forces (extension path).
    pub df_recr_cryst: Vec<DriveForceRecrCrystComponent>,
    /// Per-grain facet velocities (extension path).
    pub vel_facet: Vec<VelocityFacetComponent>,
    /// Radii nucleated in the current step, not yet turned into grains.
    pub new_grains: NewGrainsComponent,
    /// The simulation parameters.
    pub params: SimParams,
}

impl Polycrystal {
    /// The number of grains.
    pub open spec fn n_spec(self) -> int {
        self.entities@.len() as int
    }

    /// Every component array has exactly one row per grain.
    pub open spec fn lens_ok(self) -> bool {
        let n = self.entities@.len();
        &&& self.rotation@.len() == n
        &&& self.grad_v@.len() == n
        &&& self.d@.len() == n
        &&& self.de@.len() == n
        &&& self.din@.len() == n
        &&& self.w@.len() == n
        &&& self.sigma@.len() == n
        &&& self.sigma_rate@.len() == n
        &&& self.elasticity@.len() == n
        &&& self.eps@.len() == n
        &&& self.burgers@.len() == n
        &&& self.normals@.len() == n
        &&& self.bn@.len() == n
        &&& self.tau@.len() == n
        &&& self.tau_c@.len() == n
        &&& self.tau_rate@.len() == n
        &&& self.tau_c_rate@.len() == n
        &&& self.gamma@.len() == n
        &&& self.gamma_rate@.len() == n
        &&& self.h_vector@.len() == n
        &&& self.h_matrix@.len() == n
        &&& self.gr_size@.len() == n
        &&& self.est@.len() == n
        &&& self.est_rate@.len() == n
        &&& self.status@.len() == n
        &&& self.facet_mobility@.len() == n
        &&& self.subgrains@.len() == n
        &&& self.df_recr@.len() == n
        &&& self.df_recr_cryst@.len() == n
        &&& self.vel_facet@.len() == n
    }

    /// Every row is internally well-formed: the 24-system components hold
    /// exactly 24 entries, the dual tensor/vector components are in sync,
    /// the driving-force list is aligned with the subgrain population, and
    /// the grain identity in row g carries the number g.
    pub open spec fn rows_ok(self) -> bool {
        let n = self.n_spec();
        &&& forall|g: int| 0 <= g < n ==> (#[trigger] self.entities@[g]).spec_id() == g
        &&& forall|g: int|
            0 <= g < n ==> (#[trigger] self.rotation@[g]).spec_tensor().spec_is_orthogonal()
        &&& forall|g: int| 0 <= g < n ==> (#[trigger] self.burgers@[g]).wf()
        &&& forall|g: int| 0 <= g < n ==> (#[trigger] self.normals@[g]).wf()
        &&& forall|g: int| 0 <= g < n ==> (#[trigger] self.bn@[g]).wf()
        &&& forall|g: int| 0 <= g < n ==> (#[trigger] self.tau@[g]).wf()
        &&& forall|g: int| 0 <= g < n ==> (#[trigger] self.tau_c@[g]).wf()
        &&& forall|g: int| 0 <= g < n ==> (#[trigger] self.tau_rate@[g]).wf()
        &&& forall|g: int| 0 <= g < n ==> (#[trigger] self.tau_c_rate@[g]).wf()
        &&& forall|g: int| 0 <= g < n ==> (#[trigger] self.gamma@[g]).wf()
        &&& forall|g: int| 0 <= g < n ==> (#[trigger] self.gamma_rate@[g]).wf()
        &&& forall|g: int| 0 <= g < n ==> (#[trigger] self.h_vector@[g]).wf()
        &&& forall|g: int| 0 <= g < n ==> (#[trigger] self.h_matrix@[g]).wf()
        &&& forall|g: int| 0 <= g < n ==> (#[trigger] self.d@[g]).synced()
        &&& forall|g: int| 0 <= g < n ==> (#[trigger] self.de@[g]).synced()
        &&& forall|g: int| 0 <= g < n ==> (#[trigger] self.din@[g]).synced()
        &&& forall|g: int| 0 <= g < n ==> (#[trigger] self.sigma@[g]).synced()
        &&& forall|g: int| 0 <= g < n ==> (#[trigger] self.sigma_rate@[g]).synced()
        &&& forall|g: int| 0 <= g < n ==> (#[trigger] self.eps@[g]).synced()
        &&& forall|g: int|
            0 <= g < n ==> (#[trigger] self.df_recr@[g]).spec_values().len()
                == self.subgrains@[g].spec_values().len()
    }

    /// The cross-cutting consistency invariant of the grain table.
    pub open spec fn wf(self) -> bool {
        &&& self.lens_ok()
        &&& self.rows_ok()
        &&& self.params.wf()
    }

    /// The number of grains.
    pub fn grain_count(&self) -> (n: usize)
        ensures
            n as int == self.n_spec(),
    {
        self.entities.len()
    }

    /// An empty polycrystal with the given parameters.
    pub fn new(params: SimParams) -> (r: Polycrystal)
        requires
            params.wf(),
        ensures
            r.wf(),
            r.n_spec() == 0,
            r.params == params,
            r.new_grains.spec_values() =~= Seq::<i64>::empty(),
    {
        Polycrystal {
            entities: Vec::new(),
            rotation: Vec::new(),
            grad_v: Vec::new(),
            d: Vec::new(),
            de: Vec::new(),
            din: Vec::new(),
            w: Vec::new(),
            sigma: Vec::new(),
            sigma_rate: Vec::new(),
            elasticity: Vec::new(),
            eps: Vec::new(),
            burgers: Vec::new(),
            normals: Vec::new(),
            bn: Vec::new(),
            tau: Vec::new(),
            tau_c: Vec::new(),
            tau_rate: Vec::new(),
            tau_c_rate: Vec::new(),
            gamma: Vec::new(),
            gamma_rate: Vec::new(),
            h_vector: Vec::new(),
            h_matrix: Vec::new(),
            gr_size: Vec::new(),
            est: Vec::new(),
            est_rate: Vec::new(),
            status: Vec::new(),
            facet_mobility: Vec::new(),
            subgrains: Vec::new(),
            df_recr: Vec::new(),
            df_recr_cryst: Vec::new(),
            vel_facet: Vec::new(),
            new_grains: NewGrainsComponent::new(),
            params,
        }
    }

    /// The component rows of every grain below n agree between the two
    /// tables.
    pub open spec fn same_rows_below(self, o: Polycrystal, n: int) -> bool {
        &&& forall|g: int| 0 <= g < n ==> (#[trigger] self.entities@[g]) == o.entities@[g]
        &&& forall|g: int| 0 <= g < n ==> (#[trigger] self.rotation@[g]) == o.rotation@[g]
        &&& forall|g: int| 0 <= g < n ==> (#[trigger] self.grad_v@[g]) == o.grad_v@[g]
        &&& forall|g: int| 0 <= g < n ==> (#[trigger] self.d@[g]) == o.d@[g]
        &&& forall|g: int| 0 <= g < n ==> (#[trigger] self.de@[g]) == o.de@[g]
        &&& forall|g: int| 0 <= g < n ==> (#[trigger] self.din@[g]) == o.din@[g]
        &&& forall|g: int| 0 <= g < n ==> (#[trigger] self.w@[g]) == o.w@[g]
        &&& forall|g: int| 0 <= g < n ==> (#[trigger] self.sigma@[g]) == o.sigma@[g]
        &&& forall|g: int| 0 <= g < n ==> (#[trigger] self.sigma_rate@[g]) == o.sigma_rate@[g]
        &&& forall|g: int| 0 <= g < n ==> (#[trigger] self.elasticity@[g]) == o.elasticity@[g]
        &&& forall|g: int| 0 <= g < n ==> (#[trigger] self.eps@[g]) == o.eps@[g]
        &&& forall|g: int| 0 <= g < n ==> (#[trigger] self.burgers@[g]) == o.burgers@[g]
        &&& forall|g: int| 0 <= g < n ==> (#[trigger] self.normals@[g]) == o.normals@[g]
        &&& forall|g: int| 0 <= g < n ==> (#[trigger] self.bn@[g]) == o.bn@[g]
        &&& forall|g: int| 0 <= g < n ==> (#[trigger] self.tau@[g]) == o.tau@[g]
        &&& forall|g: int| 0 <= g < n ==> (#[trigger] self.tau_c@[g]) == o.tau_c@[g]
        &&& forall|g: int| 0 <= g < n ==> (#[trigger] self.tau_rate@[g]) == o.tau_rate@[g]
        &&& forall|g: int| 0 <= g < n ==> (#[trigger] self.tau_c_rate@[g]) == o.tau_c_rate@[g]
        &&& forall|g: int| 0 <= g < n ==> (#[trigger] self.gamma@[g]) == o.gamma@[g]
        &&& forall|g: int| 0 <= g < n ==> (#[trigger] self.gamma_rate@[g]) == o.gamma_rate@[g]
        &&& forall|g: int| 0 <= g < n ==> (#[trigger] self.h_vector@[g]) == o.h_vector@[g]
        &&& forall|g: int| 0 <= g < n ==> (#[trigger] self.h_matrix@[g]) == o.h_matrix@[g]
        &&& forall|g: int| 0 <= g < n ==> (#[trigger] self.gr_size@[g]) == o.gr_size@[g]
        &&& forall|g: int| 0 <= g < n ==> (#[trigger] self.est@[g]) == o.est@[g]
        &&& forall|g: int| 0 <= g < n ==> (#[trigger] self.est_rate@[g]) == o.est_rate@[g]
        &&& forall|g: int| 0 <= g < n ==> (#[trigger] self.status@[g]) == o.status@[g]
        &&& forall|g: int|
            0 <= g < n ==> (#[trigger] self.facet_mobility@[g]) == o.facet_mobility@[g]
        &&& forall|g: int| 0 <= g < n ==> (#[trigger] self.subgrains@[g]) == o.subgrains@[g]
        &&& forall|g: int| 0 <= g < n ==> (#[trigger] self.df_recr@[g]) == o.df_recr@[g]
        &&& forall|g: int|
            0 <= g < n ==> (#[trigger] self.df_recr_cryst@[g]) == o.df_recr_cryst@[g]
        &&& forall|g: int| 0 <= g < n ==> (#[trigger] self.vel_facet@[g]) == o.vel_facet@[g]
    }

    /// Append one fully initialized default row to every component array
    /// at once: the atomic row append that keeps the table consistent.
    /// The new grain has the identity orientation, zero mechanical state,
    /// an empty subgrain population and status "not recrystallized".
    pub fn push_default_grain(&mut self)
        requires
            old(self).wf(),
            old(self).n_spec() < 0xffff_ffff,
        ensures
            final(self).wf(),
            final(self).n_spec() == old(self).n_spec() + 1,
            final(self).same_rows_below(*old(self), old(self).n_spec()),
            final(self).params == old(self).params,
            final(self).new_grains == old(self).new_grains,
            final(self).status@[old(self).n_spec()].spec_value() == false,
            final(self).rotation@[old(self).n_spec()].spec_tensor()
                == crate::tensor::Mat3::spec_identity(),
            final(self).subgrains@[old(self).n_spec()].spec_values() =~= Seq::<i64>::empty(),
            final(self).df_recr@[old(self).n_spec()].spec_values() =~= Seq::<i64>::empty(),
            final(self).gr_size@[old(self).n_spec()].spec_value() == 0,
            final(self).est@[old(self).n_spec()].spec_value() == 0,
            final(self).est_rate@[old(self).n_spec()].spec_value() == 0,
            final(self).elasticity@[old(self).n_spec()].spec_c11() == 0,
            final(self).entities@[old(self).n_spec()].spec_id() == old(self).n_spec(),
            final(self).sigma@[old(self).n_spec()].spec_tensor() == crate::tensor::Mat3::spec_zero(),
            final(self).eps@[old(self).n_spec()].spec_tensor() == crate::tensor::Mat3::spec_zero(),
            final(self).d@[old(self).n_spec()].spec_tensor() == crate::tensor::Mat3::spec_zero(),
            final(self).din@[old(self).n_spec()].spec_tensor() == crate::tensor::Mat3::spec_zero(),
            final(self).grad_v@[old(self).n_spec()].spec_tensor()
                == crate::tensor::Mat3::spec_zero(),
            forall|s: int|
                0 <= s < NUM_SLIP ==> #[trigger] final(self).tau@[old(self).n_spec()].spec_values()[s]
                    == 0i64,
            forall|s: int|
                0 <= s < NUM_SLIP ==> #[trigger] final(self).tau_c@[old(self).n_spec()].spec_values()[s] == 0i64,
            forall|s: int|
                0 <= s < NUM_SLIP ==> #[trigger] final(self).gamma@[old(self).n_spec()].spec_values()[s] == 0i64,
            forall|s: int|
                0 <= s < NUM_SLIP ==> #[trigger] final(self).gamma_rate@[old(self).n_spec()].spec_values()[s] == 0i64,
    {
        proof {
            crate::tensor::lemma_identity_orthogonal();
        }
        let id = self.entities.len() as u32;
        self.entities.push(CrystalEntity::new(id));
        self.rotation.push(RotationComponent::new());
        self.grad_v.push(GradVComponent::new());
        self.d.push(DComponent::new());
        self.de.push(DComponent::new());
        self.din.push(DComponent::new());
        self.w.push(WComponent::new());
        self.sigma.push(SigmaComponent::new());
        self.sigma_rate.push(SigmaRateComponent::new());
        self.elasticity.push(ElasticityTensorComponent::new());
        self.eps.push(EpsComponent::new());
        self.burgers.push(BurgersVectorComponent::new());
        self.normals.push(NormalVectorComponent::new());
        self.bn.push(BNComponent::new());
        self.tau.push(TauComponent::new());
        self.tau_c.push(TauComponent::new());
        self.tau_rate.push(TauRateComponent::new());
        self.tau_c_rate.push(TauRateComponent::new());
        self.gamma.push(GammaComponent::new());
        self.gamma_rate.push(GammaRateComponent::new());
        self.h_vector.push(HVectorComponent::new());
        self.h_matrix.push(HMatrixComponent::new());
        self.gr_size.push(GrainSizeComponent::new());
        self.est.push(AccumEnergyComponent::new());
        self.est_rate.push(AccumEnergyRateComponent::new());
        self.status.push(StatusRecrystComponent::new());
        self.facet_mobility.push(FacetMobilityComponent::new());
        self.subgrains.push(SubGrainsComponent::new());
        self.df_recr.push(DriveForceRecrComponent::new());
        self.df_recr_cryst.push(DriveForceRecrCrystComponent::new());
        self.vel_facet.push(VelocityFacetComponent::new());
    }

    /// Resolved shear stress of every grain: tau_s = BN_s : sigma, clamped
    /// at zero.
    pub fn calc_tau(&mut self)
        requires
            old(self).wf(),
        ensures
            final(self).wf(),
            *final(self) == (Polycrystal { tau: final(self).tau, ..*old(self) }),
            final(self).tau@.len() == old(self).n_spec(),
            forall|g: int, s: int|
                0 <= g < final(self).n_spec() && 0 <= s < NUM_SLIP
                    ==> #[trigger] final(self).tau@[g].spec_values()[s] as int == spec_tau_entry(
                    old(self).bn@[g].spec_matrices()[s],
                    old(self).sigma@[g].spec_tensor(),
                ),
    {
        let n = self.entities.len();
        let mut new_tau: Vec<TauComponent> = Vec::new();
        let mut g: usize = 0;
        while g < n
            invariant
                g <= n,
                old(self).wf(),
                n as int == old(self).n_spec(),
                *self == (Polycrystal { tau: self.tau, ..*old(self) }),
                new_tau@.len() == g,
                forall|a: int| 0 <= a < g ==> (#[trigger] new_tau@[a]).wf(),
                forall|a: int, s: int|
                    0 <= a < g && 0 <= s < NUM_SLIP ==> #[trigger] new_tau@[a].spec_values()[s]
                        as int == spec_tau_entry(
                        old(self).bn@[a].spec_matrices()[s],
                        old(self).sigma@[a].spec_tensor(),
                    ),
            decreases n - g,
        {
            let t = compute_tau(&self.bn[g], &self.sigma[g].get_tensor());
            new_tau.push(t);
            g = g + 1;
        }
        self.tau = new_tau;
    }

    /// Crystal-frame velocity gradient of every grain: R^T * L * R for
    /// the fixed macroscopic velocity gradient L.
    pub fn initialize_grad_v(&mut self, init_grad_v: Mat3)
        requires
            old(self).wf(),
        ensures
            final(self).wf(),
            *final(self) == (Polycrystal { grad_v: final(self).grad_v, ..*old(self) }),
            final(self).grad_v@.len() == old(self).n_spec(),
            forall|g: int|
                0 <= g < final(self).n_spec() ==> (#[trigger] final(self).grad_v@[g]).spec_tensor()
                    == old(self).rotation@[g].spec_tensor().spec_transpose().spec_mul(
                    init_grad_v,
                ).spec_mul(old(self).rotation@[g].spec_tensor()),
    {
        let n = self.entities.len();
        let mut out: Vec<GradVComponent> = Vec::new();
        let mut g: usize = 0;
        while g < n
            invariant
                g <= n,
                old(self).wf(),
                n as int == old(self).n_spec(),
                *self == (Polycrystal { grad_v: self.grad_v, ..*old(self) }),
                out@.len() == g,
                forall|a: int|
                    0 <= a < g ==> (#[trigger] out@[a]).spec_tensor()
                        == old(self).rotation@[a].spec_tensor().spec_transpose().spec_mul(
                        init_grad_v,
                    ).spec_mul(old(self).rotation@[a].spec_tensor()),
            decreases n - g,
        {
            let r = self.rotation[g].get_tensor();
            let m = r.transpose().mul(&init_grad_v).mul(&r);
            let mut c = GradVComponent::new();
            c.set_tensor(m);
            out.push(c);
            g = g + 1;
        }
        self.grad_v = out;
    }

    /// Strain rate of every grain: the symmetric part of the crystal-frame
    /// velocity gradient.
    pub fn initialize_d(&mut self)
        requires
            old(self).wf(),
        ensures
            final(self).wf(),
            *final(self) == (Polycrystal { d: final(self).d, ..*old(self) }),
            final(self).d@.len() == old(self).n_spec(),
            forall|g: int|
                0 <= g < final(self).n_spec() ==> (#[trigger] final(self).d@[g]).spec_tensor()
                    == old(self).grad_v@[g].spec_tensor().spec_sym(),
    {
        let n = self.entities.len();
        let mut out: Vec<DComponent> = Vec::new();
        let mut g: usize = 0;
        while g < n
            invariant
                g <= n,
                old(self).wf(),
                n as int == old(self).n_spec(),
                *self == (Polycrystal { d: self.d, ..*old(self) }),
                out@.len() == g,
                forall|a: int| 0 <= a < g ==> (#[trigger] out@[a]).synced(),
                forall|a: int|
                    0 <= a < g ==> (#[trigger] out@[a]).spec_tensor()
                        == old(self).grad_v@[a].spec_tensor().spec_sym(),
            decreases n - g,
        {
            let t = self.grad_v[g].get_tensor().sym();
            let mut c = DComponent::new();
            c.set_tensor(t);
            out.push(c);
            g = g + 1;
        }
        self.d = out;
    }

    /// Spin of every grain: the classical spin (L - L^T) / 2 of the
    /// crystal-frame velocity gradient (optional extension path). The
    /// skew is taken here and again inside the component's guarded write,
    /// so the stored tensor is the double skew, which is exactly the
    /// spin.
    pub fn initialize_w(&mut self)
        requires
            old(self).wf(),
        ensures
            final(self).wf(),
            *final(self) == (Polycrystal { w: final(self).w, ..*old(self) }),
            final(self).w@.len() == old(self).n_spec(),
            forall|g: int|
                0 <= g < final(self).n_spec() ==> (#[trigger] final(self).w@[g]).spec_tensor()
                    == old(self).grad_v@[g].spec_tensor().spec_spin(),
    {
        let n = self.entities.len();
        let mut out: Vec<WComponent> = Vec::new();
        let mut g: usize = 0;
        while g < n
            invariant
                g <= n,
                old(self).wf(),
                n as int == old(self).n_spec(),
                *self == (Polycrystal { w: self.w, ..*old(self) }),
                out@.len() == g,
                forall|a: int|
                    0 <= a < g ==> (#[trigger] out@[a]).spec_tensor()
                        == old(self).grad_v@[a].spec_tensor().spec_spin(),
            decreases n - g,
        {
            let t = self.grad_v[g].get_tensor().skew_t();
            let mut c = WComponent::new();
            c.set_tensor(t);
            out.push(c);
            g = g + 1;
        }
        self.w = out;
    }

    /// Slip rate of every grain and system by the power-law flow rule.
    pub fn calc_gamma_rate(&mut self, gamma_0: i64, m_exp: u32)
        requires
            old(self).wf(),
        ensures
            final(self).wf(),
            *final(self) == (Polycrystal { gamma_rate: final(self).gamma_rate, ..*old(self) }),
            final(self).gamma_rate@.len() == old(self).n_spec(),
            forall|g: int, s: int|
                0 <= g < final(self).n_spec() && 0 <= s < NUM_SLIP ==> #[trigger] final(self).gamma_rate@[g].spec_values()[s] as int == spec_gamma_rate_entry(
                    old(self).tau@[g].spec_values()[s] as int,
                    old(self).tau_c@[g].spec_values()[s] as int,
                    gamma_0 as int,
                    m_exp as nat,
                ),
    {
        let n = self.entities.len();
        let mut out: Vec<GammaRateComponent> = Vec::new();
        let mut g: usize = 0;
        while g < n
            invariant
                g <= n,
                old(self).wf(),
                n as int == old(self).n_spec(),
                *self == (Polycrystal { gamma_rate: self.gamma_rate, ..*old(self) }),
                out@.len() == g,
                forall|a: int| 0 <= a < g ==> (#[trigger] out@[a]).wf(),
                forall|a: int, s: int|
                    0 <= a < g && 0 <= s < NUM_SLIP ==> #[trigger] out@[a].spec_values()[s] as int
                        == spec_gamma_rate_entry(
                        old(self).tau@[a].spec_values()[s] as int,
                        old(self).tau_c@[a].spec_values()[s] as int,
                        gamma_0 as int,
                        m_exp as nat,
                    ),
            decreases n - g,
        {
            out.push(compute_gamma_rate(&self.tau[g], &self.tau_c[g], gamma_0, m_exp));
            g = g + 1;
        }
        self.gamma_rate = out;
    }

    /// Accumulated slip shear of every grain and system after one step.
    pub fn calc_gamma(&mut self, dt: i64)
        requires
            old(self).wf(),
        ensures
            final(self).wf(),
            *final(self) == (Polycrystal { gamma: final(self).gamma, ..*old(self) }),
            final(self).gamma@.len() == old(self).n_spec(),
            forall|g: int, s: int|
                0 <= g < final(self).n_spec() && 0 <= s < NUM_SLIP ==> #[trigger] final(self).gamma@[g].spec_values()[s] as int == spec_gamma_entry(
                    old(self).gamma@[g].spec_values()[s] as int,
                    old(self).gamma_rate@[g].spec_values()[s] as int,
                    dt as int,
                ),
    {
        let n = self.entities.len();
        let mut out: Vec<GammaComponent> = Vec::new();
        let mut g: usize = 0;
        while g < n
            invariant
                g <= n,
                old(self).wf(),
                n as int == old(self).n_spec(),
                *self == (Polycrystal { gamma: self.gamma, ..*old(self) }),
                out@.len() == g,
                forall|a: int| 0 <= a < g ==> (#[trigger] out@[a]).wf(),
                forall|a: int, s: int|
                    0 <= a < g && 0 <= s < NUM_SLIP ==> #[trigger] out@[a].spec_values()[s] as int
                        == spec_gamma_entry(
                        old(self).gamma@[a].spec_values()[s] as int,
                        old(self).gamma_rate@[a].spec_values()[s] as int,
                        dt as int,
                    ),
            decreases n - g,
        {
            out.push(compute_gamma(&self.gamma[g], &self.gamma_rate[g], dt));
            g = g + 1;
        }
        self.gamma = out;
    }

    /// Self-hardening modulus of every grain and system by the
    /// saturation law.
    pub fn calc_h_vector(&mut self, tau_sat: i64, h0: i64, a_exp: u32)
        requires
            old(self).wf(),
        ensures
            final(self).wf(),
            *final(self) == (Polycrystal { h_vector: final(self).h_vector, ..*old(self) }),
            final(self).h_vector@.len() == old(self).n_spec(),
            forall|g: int, s: int|
                0 <= g < final(self).n_spec() && 0 <= s < NUM_SLIP ==> #[trigger] final(self).h_vector@[g].spec_values()[s] as int == spec_h_entry(
                    old(self).tau_c@[g].spec_values()[s] as int,
                    tau_sat as int,
                    h0 as int,
                    a_exp as nat,
                ),
    {
        let n = self.entities.len();
        let mut out: Vec<HVectorComponent> = Vec::new();
        let mut g: usize = 0;
        while g < n
            invariant
                g <= n,
                old(self).wf(),
                n as int == old(self).n_spec(),
                *self == (Polycrystal { h_vector: self.h_vector, ..*old(self) }),
                out@.len() == g,
                forall|a: int| 0 <= a < g ==> (#[trigger] out@[a]).wf(),
                forall|a: int, s: int|
                    0 <= a < g && 0 <= s < NUM_SLIP ==> #[trigger] out@[a].spec_values()[s] as int
                        == spec_h_entry(
                        old(self).tau_c@[a].spec_values()[s] as int,
                        tau_sat as int,
                        h0 as int,
                        a_exp as nat,
                    ),
            decreases n - g,
        {
            out.push(compute_h_vector(&self.tau_c[g], tau_sat, h0, a_exp));
            g = g + 1;
        }
        self.h_vector = out;
    }

    /// Hardening-interaction matrix of every grain: the column modulus on
    /// the diagonal, latent-scaled off it.
    pub fn calc_h_matrix(&mut self, qlat: i64)
        requires
            old(self).wf(),
        ensures
            final(self).wf(),
            *final(self) == (Polycrystal { h_matrix: final(self).h_matrix, ..*old(self) }),
            final(self).h_matrix@.len() == old(self).n_spec(),
            forall|g: int, i: int, j: int|
                0 <= g < final(self).n_spec() && 0 <= i < NUM_SLIP && 0 <= j < NUM_SLIP
                    ==> #[trigger] final(self).h_matrix@[g].spec_rows()[i][j] as int
                    == spec_h_matrix_entry(
                    old(self).h_vector@[g].spec_values()[j] as int,
                    i == j,
                    qlat as int,
                ),
    {
        let n = self.entities.len();
        let mut out: Vec<HMatrixComponent> = Vec::new();
        let mut g: usize = 0;
        while g < n
            invariant
                g <= n,
                old(self).wf(),
                n as int == old(self).n_spec(),
                *self == (Polycrystal { h_matrix: self.h_matrix, ..*old(self) }),
                out@.len() == g,
                forall|a: int| 0 <= a < g ==> (#[trigger] out@[a]).wf(),
                forall|a: int, i: int, j: int|
                    0 <= a < g && 0 <= i < NUM_SLIP && 0 <= j < NUM_SLIP ==> #[trigger] out@[a].spec_rows()[i][j] as int == spec_h_matrix_entry(
                        old(self).h_vector@[a].spec_values()[j] as int,
                        i == j,
                        qlat as int,
                    ),
            decreases n - g,
        {
            out.push(compute_h_matrix(&self.h_vector[g], qlat));
            g = g + 1;
        }
        self.h_matrix = out;
    }

    /// Critical-stress rate of every grain and system: the hardening row
    /// contracted with the slip rates, frozen on inactive systems.
    pub fn calc_tauc_rate_sat_law(&mut self)
        requires
            old(self).wf(),
        ensures
            final(self).wf(),
            *final(self) == (Polycrystal { tau_c_rate: final(self).tau_c_rate, ..*old(self) }),
            final(self).tau_c_rate@.len() == old(self).n_spec(),
            forall|g: int, k: int|
                0 <= g < final(self).n_spec() && 0 <= k < NUM_SLIP ==> #[trigger] final(self).tau_c_rate@[g].spec_values()[k] as int == spec_tauc_rate_entry(
                    old(self).h_matrix@[g].spec_rows()[k],
                    old(self).gamma_rate@[g].spec_values(),
                    k,
                ),
    {
        let n = self.entities.len();
        let mut out: Vec<TauRateComponent> = Vec::new();
        let mut g: usize = 0;
        while g < n
            invariant
                g <= n,
                old(self).wf(),
                n as int == old(self).n_spec(),
                *self == (Polycrystal { tau_c_rate: self.tau_c_rate, ..*old(self) }),
                out@.len() == g,
                forall|a: int| 0 <= a < g ==> (#[trigger] out@[a]).wf(),
                forall|a: int, k: int|
                    0 <= a < g && 0 <= k < NUM_SLIP ==> #[trigger] out@[a].spec_values()[k] as int
                        == spec_tauc_rate_entry(
                        old(self).h_matrix@[a].spec_rows()[k],
                        old(self).gamma_rate@[a].spec_values(),
                        k,
                    ),
            decreases n - g,
        {
            out.push(compute_tauc_rate(&self.h_matrix[g], &self.gamma_rate[g]));
            g = g + 1;
        }
        self.tau_c_rate = out;
    }

    /// Critical shear stress of every grain and system after one explicit
    /// step.
    pub fn calc_tauc(&mut self, dt: i64)
        requires
            old(self).wf(),
        ensures
            final(self).wf(),
            *final(self) == (Polycrystal { tau_c: final(self).tau_c, ..*old(self) }),
            final(self).tau_c@.len() == old(self).n_spec(),
            forall|g: int, s: int|
                0 <= g < final(self).n_spec() && 0 <= s < NUM_SLIP ==> #[trigger] final(self).tau_c@[g].spec_values()[s] as int == spec_tauc_entry(
                    old(self).tau_c@[g].spec_values()[s] as int,
                    old(self).tau_c_rate@[g].spec_values()[s] as int,
                    dt as int,
                ),
    {
        let n = self.entities.len();
        let mut out: Vec<TauComponent> = Vec::new();
        let mut g: usize = 0;
        while g < n
            invariant
                g <= n,
                old(self).wf(),
                n as int == old(self).n_spec(),
                *self == (Polycrystal { tau_c: self.tau_c, ..*old(self) }),
                out@.len() == g,
                forall|a: int| 0 <= a < g ==> (#[trigger] out@[a]).wf(),
                forall|a: int, s: int|
                    0 <= a < g && 0 <= s < NUM_SLIP ==> #[trigger] out@[a].spec_values()[s] as int
                        == spec_tauc_entry(
                        old(self).tau_c@[a].spec_values()[s] as int,
                        old(self).tau_c_rate@[a].spec_values()[s] as int,
                        dt as int,
                    ),
            decreases n - g,
        {
            out.push(compute_tauc(&self.tau_c[g], &self.tau_c_rate[g], dt));
            g = g + 1;
        }
        self.tau_c = out;
    }

    /// Plastic strain rate of every grain: the slip rates contracted with
    /// the Schmid tensors.
    pub fn calc_din(&mut self)
        requires
            old(self).wf(),
        ensures
            final(self).wf(),
            *final(self) == (Polycrystal { din: final(self).din, ..*old(self) }),
            final(self).din@.len() == old(self).n_spec(),
            forall|g: int|
                0 <= g < final(self).n_spec() ==> (#[trigger] final(self).din@[g]).spec_tensor()
                    == spec_din_partial(
                    old(self).bn@[g].spec_matrices(),
                    old(self).gamma_rate@[g].spec_values(),
                    NUM_SLIP as nat,
                ),
    {
        let n = self.entities.len();
        let mut out: Vec<DComponent> = Vec::new();
        let mut g: usize = 0;
        while g < n
            invariant
                g <= n,
                old(self).wf(),
                n as int == old(self).n_spec(),
                *self == (Polycrystal { din: self.din, ..*old(self) }),
                out@.len() == g,
                forall|a: int| 0 <= a < g ==> (#[trigger] out@[a]).synced(),
                forall|a: int|
                    0 <= a < g ==> (#[trigger] out@[a]).spec_tensor() == spec_din_partial(
                        old(self).bn@[a].spec_matrices(),
                        old(self).gamma_rate@[a].spec_values(),
                        NUM_SLIP as nat,
                    ),
            decreases n - g,
        {
            let t = compute_din(&self.gamma_rate[g], &self.bn[g]);
            let mut c = DComponent::new();
            c.set_tensor(t);
            out.push(c);
            g = g + 1;
        }
        self.din = out;
    }

    /// Elastic strain rate of every grain in the purely elastic regime:
    /// the full strain rate.
    pub fn calc_de_elastic_deform(&mut self)
        requires
            old(self).wf(),
        ensures
            final(self).wf(),
            *final(self) == (Polycrystal { de: final(self).de, ..*old(self) }),
            final(self).de@.len() == old(self).n_spec(),
            forall|g: int|
                0 <= g < final(self).n_spec() ==> (#[trigger] final(self).de@[g]).spec_tensor()
                    == old(self).d@[g].spec_tensor(),
    {
        let n = self.entities.len();
        let mut out: Vec<DComponent> = Vec::new();
        let mut g: usize = 0;
        while g < n
            invariant
                g <= n,
                old(self).wf(),
                n as int == old(self).n_spec(),
                *self == (Polycrystal { de: self.de, ..*old(self) }),
                out@.len() == g,
                forall|a: int| 0 <= a < g ==> (#[trigger] out@[a]).synced(),
                forall|a: int|
                    0 <= a < g ==> (#[trigger] out@[a]).spec_tensor()
                        == old(self).d@[a].spec_tensor(),
            decreases n - g,
        {
            let t = self.d[g].get_tensor();
            let mut c = DComponent::new();
            c.set_tensor(t);
            out.push(c);
            g = g + 1;
        }
        self.de = out;
    }

    /// Elastic strain rate of every grain in the elasto-plastic regime:
    /// the full strain rate minus the plastic strain rate.
    pub fn calc_de_elastic_plastic_deform(&mut self)
        requires
            old(self).wf(),
        ensures
            final(self).wf(),
            *final(self) == (Polycrystal { de: final(self).de, ..*old(self) }),
            final(self).de@.len() == old(self).n_spec(),
            forall|g: int|
                0 <= g < final(self).n_spec() ==> (#[trigger] final(self).de@[g]).spec_tensor()
                    == old(self).d@[g].spec_tensor().spec_sub(old(self).din@[g].spec_tensor()),
    {
        let n = self.entities.len();
        let mut out: Vec<DComponent> = Vec::new();
        let mut g: usize = 0;
        while g < n
            invariant
                g <= n,
                old(self).wf(),
                n as int == old(self).n_spec(),
                *self == (Polycrystal { de: self.de, ..*old(self) }),
                out@.len() == g,
                forall|a: int| 0 <= a < g ==> (#[trigger] out@[a]).synced(),
                forall|a: int|
                    0 <= a < g ==> (#[trigger] out@[a]).spec_tensor()
                        == old(self).d@[a].spec_tensor().spec_sub(old(self).din@[a].spec_tensor()),
            decreases n - g,
        {
            let t = self.d[g].get_tensor().sub(&self.din[g].get_tensor());
            let mut c = DComponent::new();
            c.set_tensor(t);
            out.push(c);
            g = g + 1;
        }
        self.de = out;
    }

    /// Stress rate of every grain by Hooke's law in Voigt form: the cubic
    /// stiffness applied to the elastic strain-rate 6-vector.
    pub fn calc_hooke_law(&mut self)
        requires
            old(self).wf(),
        ensures
            final(self).wf(),
            *final(self) == (Polycrystal { sigma_rate: final(self).sigma_rate, ..*old(self) }),
            final(self).sigma_rate@.len() == old(self).n_spec(),
            forall|g: int|
                0 <= g < final(self).n_spec() ==> (#[trigger] final(self).sigma_rate@[g]).spec_vector() == old(self).elasticity@[g].spec_apply(
                    old(self).de@[g].spec_vector(),
                ),
            forall|g: int|
                0 <= g < final(self).n_spec() ==> (#[trigger] final(self).sigma_rate@[g]).spec_tensor() == crate::tensor::spec_mat_of(
                    final(self).sigma_rate@[g].spec_vector(),
                ),
    {
        let n = self.entities.len();
        let mut out: Vec<SigmaRateComponent> = Vec::new();
        let mut g: usize = 0;
        while g < n
            invariant
                g <= n,
                old(self).wf(),
                n as int == old(self).n_spec(),
                *self == (Polycrystal { sigma_rate: self.sigma_rate, ..*old(self) }),
                out@.len() == g,
                forall|a: int| 0 <= a < g ==> (#[trigger] out@[a]).synced(),
                forall|a: int|
                    0 <= a < g ==> (#[trigger] out@[a]).spec_vector()
                        == old(self).elasticity@[a].spec_apply(old(self).de@[a].spec_vector()),
                forall|a: int|
                    0 <= a < g ==> (#[trigger] out@[a]).spec_tensor() == crate::tensor::spec_mat_of(
                        out@[a].spec_vector(),
                    ),
            decreases n - g,
        {
            let v = self.elasticity[g].apply(&self.de[g].get_vector());
            let mut c = SigmaRateComponent::new();
            c.set_vector(v);
            out.push(c);
            g = g + 1;
        }
        self.sigma_rate = out;
    }

    /// Stress of every grain after one explicit step:
    /// sigma + sigma_rate * dt.
    pub fn calc_sigma(&mut self, dt: i64)
        requires
            old(self).wf(),
        ensures
            final(self).wf(),
            *final(self) == (Polycrystal { sigma: final(self).sigma, ..*old(self) }),
            final(self).sigma@.len() == old(self).n_spec(),
            forall|g: int|
                0 <= g < final(self).n_spec() ==> (#[trigger] final(self).sigma@[g]).spec_tensor()
                    == old(self).sigma@[g].spec_tensor().spec_add(
                    old(self).sigma_rate@[g].spec_tensor().spec_scale(dt as int),
                ),
    {
        let n = self.entities.len();
        let mut out: Vec<SigmaComponent> = Vec::new();
        let mut g: usize = 0;
        while g < n
            invariant
                g <= n,
                old(self).wf(),
                n as int == old(self).n_spec(),
                *self == (Polycrystal { sigma: self.sigma, ..*old(self) }),
                out@.len() == g,
                forall|a: int| 0 <= a < g ==> (#[trigger] out@[a]).synced(),
                forall|a: int|
                    0 <= a < g ==> (#[trigger] out@[a]).spec_tensor()
                        == old(self).sigma@[a].spec_tensor().spec_add(
                        old(self).sigma_rate@[a].spec_tensor().spec_scale(dt as int),
                    ),
            decreases n - g,
        {
            let t = self.sigma[g].get_tensor().add(&self.sigma_rate[g].get_tensor().scale(dt));
            let mut c = SigmaComponent::new();
            c.set_tensor(t);
            out.push(c);
            g = g + 1;
        }
        self.sigma = out;
    }

    /// Accumulated strain of every grain after one explicit step:
    /// eps + D * dt.
    pub fn calc_eps(&mut self, dt: i64)
        requires
            old(self).wf(),
        ensures
            final(self).wf(),
            *final(self) == (Polycrystal { eps: final(self).eps, ..*old(self) }),
            final(self).eps@.len() == old(self).n_spec(),
            forall|g: int|
                0 <= g < final(self).n_spec() ==> (#[trigger] final(self).eps@[g]).spec_tensor()
                    == old(self).eps@[g].spec_tensor().spec_add(
                    old(self).d@[g].spec_tensor().spec_scale(dt as int),
                ),
    {
        let n = self.entities.len();
        let mut out: Vec<EpsComponent> = Vec::new();
        let mut g: usize = 0;
        while g < n
            invariant
                g <= n,
                old(self).wf(),
                n as int == old(self).n_spec(),
                *self == (Polycrystal { eps: self.eps, ..*old(self) }),
                out@.len() == g,
                forall|a: int| 0 <= a < g ==> (#[trigger] out@[a]).synced(),
                forall|a: int|
                    0 <= a < g ==> (#[trigger] out@[a]).spec_tensor()
                        == old(self).eps@[a].spec_tensor().spec_add(
                        old(self).d@[a].spec_tensor().spec_scale(dt as int),
                    ),
            decreases n - g,
        {
            let t = self.eps[g].get_tensor().add(&self.d[g].get_tensor().scale(dt));
            let mut c = EpsComponent::new();
            c.set_tensor(t);
            out.push(c);
            g = g + 1;
        }
        self.eps = out;
    }

    /// Stored-energy rate of every grain: alfa times the contraction of
    /// the (unit-rescaled) stress with the plastic strain rate. The
    /// rescale factor is the explicit unit-convention choice.
    pub fn calc_accum_energy_rate(&mut self, alfa: i64, sigma_unit_scale: i64)
        requires
            old(self).wf(),
        ensures
            final(self).wf(),
            *final(self) == (Polycrystal { est_rate: final(self).est_rate, ..*old(self) }),
            final(self).est_rate@.len() == old(self).n_spec(),
            forall|g: int|
                0 <= g < final(self).n_spec() ==> (#[trigger] final(self).est_rate@[g]).spec_value() as int == s_mul(
                    alfa as int,
                    old(self).sigma@[g].spec_tensor().spec_scale(sigma_unit_scale as int).spec_ddot(
                        old(self).din@[g].spec_tensor(),
                    ),
                ),
    {
        let n = self.entities.len();
        let mut out: Vec<AccumEnergyRateComponent> = Vec::new();
        let mut g: usize = 0;
        while g < n
            invariant
                g <= n,
                old(self).wf(),
                n as int == old(self).n_spec(),
                *self == (Polycrystal { est_rate: self.est_rate, ..*old(self) }),
                out@.len() == g,
                forall|a: int|
                    0 <= a < g ==> (#[trigger] out@[a]).spec_value() as int == s_mul(
                        alfa as int,
                        old(self).sigma@[a].spec_tensor().spec_scale(
                            sigma_unit_scale as int,
                        ).spec_ddot(old(self).din@[a].spec_tensor()),
                    ),
            decreases n - g,
        {
            let scaled = self.sigma[g].get_tensor().scale(sigma_unit_scale);
            let v = crate::fx::fx_mul(alfa, scaled.ddot(&self.din[g].get_tensor()));
            let mut c = AccumEnergyRateComponent::new();
            c.set_value(v);
            out.push(c);
            g = g + 1;
        }
        self.est_rate = out;
    }

    /// Accumulated stored energy of every grain after one explicit step:
    /// est + est_rate * dt.
    pub fn calc_accum_energy(&mut self, dt: i64)
        requires
            old(self).wf(),
        ensures
            final(self).wf(),
            *final(self) == (Polycrystal { est: final(self).est, ..*old(self) }),
            final(self).est@.len() == old(self).n_spec(),
            forall|g: int|
                0 <= g < final(self).n_spec() ==> (#[trigger] final(self).est@[g]).spec_value()
                    as int == s_add(
                    old(self).est@[g].spec_value() as int,
                    s_mul(old(self).est_rate@[g].spec_value() as int, dt as int),
                ),
    {
        let n = self.entities.len();
        let mut out: Vec<AccumEnergyComponent> = Vec::new();
        let mut g: usize = 0;
        while g < n
            invariant
                g <= n,
                old(self).wf(),
                n as int == old(self).n_spec(),
                *self == (Polycrystal { est: self.est, ..*old(self) }),
                out@.len() == g,
                forall|a: int|
                    0 <= a < g ==> (#[trigger] out@[a]).spec_value() as int == s_add(
                        old(self).est@[a].spec_value() as int,
                        s_mul(old(self).est_rate@[a].spec_value() as int, dt as int),
                    ),
            decreases n - g,
        {
            let v = crate::fx::fx_add(
                self.est[g].get_value(),
                crate::fx::fx_mul(self.est_rate[g].get_value(), dt),
            );
            let mut c = AccumEnergyComponent::new();
            c.set_value(v);
            out.push(c);
            g = g + 1;
        }
        self.est = out;
    }

    /// Cubic stiffness of every grain from the three constants, scaled by
    /// the calibration coefficient.
    pub fn initialize_elasticity_tensor_fcc(&mut self, c11: i64, c12: i64, c44: i64, koef: i64)
        requires
            old(self).wf(),
        ensures
            final(self).wf(),
            *final(self) == (Polycrystal { elasticity: final(self).elasticity, ..*old(self) }),
            final(self).elasticity@.len() == old(self).n_spec(),
            forall|g: int|
                0 <= g < final(self).n_spec() ==> (#[trigger] final(self).elasticity@[g]).spec_c11() == s_mul(c11 as int, koef as int) && final(self).elasticity@[g].spec_c12() == s_mul(c12 as int, koef as int) && final(self).elasticity@[g].spec_c44() == s_mul(c44 as int, koef as int),
    {
        let n = self.entities.len();
        let mut out: Vec<ElasticityTensorComponent> = Vec::new();
        let mut g: usize = 0;
        while g < n
            invariant
                g <= n,
                old(self).wf(),
                n as int == old(self).n_spec(),
                *self == (Polycrystal { elasticity: self.elasticity, ..*old(self) }),
                out@.len() == g,
                forall|a: int|
                    0 <= a < g ==> (#[trigger] out@[a]).spec_c11() == s_mul(c11 as int, koef as int)
                        && out@[a].spec_c12() == s_mul(c12 as int, koef as int)
                        && out@[a].spec_c44() == s_mul(c44 as int, koef as int),
            decreases n - g,
        {
            let mut c = ElasticityTensorComponent::new();
            c.set_constants(c11, c12, c44, koef);
            out.push(c);
            g = g + 1;
        }
        self.elasticity = out;
    }

    /// Base critical shear stress of every grain and system.
    pub fn initialize_tau_c(&mut self, tauc: i64)
        requires
            old(self).wf(),
        ensures
            final(self).wf(),
            *final(self) == (Polycrystal { tau_c: final(self).tau_c, ..*old(self) }),
            final(self).tau_c@.len() == old(self).n_spec(),
            forall|g: int, s: int|
                0 <= g < final(self).n_spec() && 0 <= s < NUM_SLIP ==> #[trigger] final(self).tau_c@[g].spec_values()[s] == tauc,
    {
        let n = self.entities.len();
        let mut out: Vec<TauComponent> = Vec::new();
        let mut g: usize = 0;
        while g < n
            invariant
                g <= n,
                old(self).wf(),
                n as int == old(self).n_spec(),
                *self == (Polycrystal { tau_c: self.tau_c, ..*old(self) }),
                out@.len() == g,
                forall|a: int| 0 <= a < g ==> (#[trigger] out@[a]).wf(),
                forall|a: int, s: int|
                    0 <= a < g && 0 <= s < NUM_SLIP ==> #[trigger] out@[a].spec_values()[s] == tauc,
            decreases n - g,
        {
            out.push(tau_c_uniform(tauc));
            g = g + 1;
        }
        self.tau_c = out;
    }

    /// Base critical shear stress of every grain and system with the
    /// Hall-Petch grain-size strengthening term added.
    pub fn initialize_tau_c_hp(&mut self, tauc: i64, b: i64, k_y: i64, d_g: i64)
        requires
            old(self).wf(),
        ensures
            final(self).wf(),
            *final(self) == (Polycrystal { tau_c: final(self).tau_c, ..*old(self) }),
            final(self).tau_c@.len() == old(self).n_spec(),
            forall|g: int, s: int|
                0 <= g < final(self).n_spec() && 0 <= s < NUM_SLIP ==> #[trigger] final(self).tau_c@[g].spec_values()[s] as int == s_add(
                    tauc as int,
                    spec_hall_petch(k_y as int, b as int, d_g as int),
                ),
    {
        let value = crate::fx::fx_add(tauc, compute_hall_petch(k_y, b, d_g));
        let n = self.entities.len();
        let mut out: Vec<TauComponent> = Vec::new();
        let mut g: usize = 0;
        while g < n
            invariant
                g <= n,
                old(self).wf(),
                n as int == old(self).n_spec(),
                value as int == s_add(
                    tauc as int,
                    spec_hall_petch(k_y as int, b as int, d_g as int),
                ),
                *self == (Polycrystal { tau_c: self.tau_c, ..*old(self) }),
                out@.len() == g,
                forall|a: int| 0 <= a < g ==> (#[trigger] out@[a]).wf(),
                forall|a: int, s: int|
                    0 <= a < g && 0 <= s < NUM_SLIP ==> #[trigger] out@[a].spec_values()[s] as int
                        == s_add(tauc as int, spec_hall_petch(k_y as int, b as int, d_g as int)),
            decreases n - g,
        {
            out.push(tau_c_uniform(value));
            g = g + 1;
        }
        self.tau_c = out;
    }

    /// Initial equivalent radius of every grain from a caller-supplied
    /// sample (one drawn size per grain), shifted down by one as the
    /// reference setup prescribes.
    pub fn init_grain_size(&mut self, sizes: &Vec<i64>)
        requires
            old(self).wf(),
            sizes@.len() == old(self).n_spec(),
        ensures
            final(self).wf(),
            *final(self) == (Polycrystal { gr_size: final(self).gr_size, ..*old(self) }),
            final(self).gr_size@.len() == old(self).n_spec(),
            forall|g: int|
                0 <= g < final(self).n_spec() ==> (#[trigger] final(self).gr_size@[g]).spec_value() as int == s_sub(
                    sizes@[g] as int,
                    crate::fx::FX_ONE as int,
                ),
    {
        let n = self.entities.len();
        let mut out: Vec<GrainSizeComponent> = Vec::new();
        let mut g: usize = 0;
        while g < n
            invariant
                g <= n,
                old(self).wf(),
                n as int == old(self).n_spec(),
                sizes@.len() == old(self).n_spec(),
                *self == (Polycrystal { gr_size: self.gr_size, ..*old(self) }),
                out@.len() == g,
                forall|a: int|
                    0 <= a < g ==> (#[trigger] out@[a]).spec_value() as int == s_sub(
                        sizes@[a] as int,
                        crate::fx::FX_ONE as int,
                    ),
            decreases n - g,
        {
            let v = crate::fx::fx_sub(sizes[g], crate::fx::FX_ONE);
            let mut c = GrainSizeComponent::new();
            c.set_value(v);
            out.push(c);
            g = g + 1;
        }
        self.gr_size = out;
    }

    /// Subgrain population of every grain: a fresh Rayleigh sample of the
    /// configured size, with the driving-force list reset to zeros of the
    /// same length (the two stay aligned at all times).
    pub fn initialize_subgrains(&mut self, rng: &mut rand::rngs::StdRng, r0: i64, num: usize)
        requires
            old(self).wf(),
            0 <= r0 <= 100_000_000_000_000,
            num <= 1_000_000,
        ensures
            final(self).wf(),
            *final(self) == (Polycrystal {
                subgrains: final(self).subgrains,
                df_recr: final(self).df_recr,
                ..*old(self)
            }),
            final(self).subgrains@.len() == old(self).n_spec(),
            final(self).df_recr@.len() == old(self).n_spec(),
            forall|g: int|
                0 <= g < final(self).n_spec() ==> (#[trigger] final(self).subgrains@[g]).spec_values().len() == num,
            forall|g: int, i: int|
                0 <= g < final(self).n_spec() && 0 <= i < num ==> #[trigger] final(self).subgrains@[g].spec_values()[i] >= 0,
            r0 > 0 ==> forall|g: int, i: int|
                0 <= g < final(self).n_spec() && 0 <= i < num ==> #[trigger] final(self).subgrains@[g].spec_values()[i] < 10 * r0,
            forall|g: int|
                0 <= g < final(self).n_spec() ==> (#[trigger] final(self).df_recr@[g]).spec_values().len() == num,
    {
        let n = self.entities.len();
        let mut out_sub: Vec<SubGrainsComponent> = Vec::new();
        let mut out_df: Vec<DriveForceRecrComponent> = Vec::new();
        let mut g: usize = 0;
        while g < n
            invariant
                g <= n,
                old(self).wf(),
                0 <= r0 <= 100_000_000_000_000,
                num <= 1_000_000,
                n as int == old(self).n_spec(),
                *self == (Polycrystal {
                    subgrains: self.subgrains,
                    df_recr: self.df_recr,
                    ..*old(self)
                }),
                out_sub@.len() == g,
                out_df@.len() == g,
                forall|a: int| 0 <= a < g ==> (#[trigger] out_sub@[a]).spec_values().len() == num,
                forall|a: int, i: int|
                    0 <= a < g && 0 <= i < num ==> #[trigger] out_sub@[a].spec_values()[i] >= 0,
                r0 > 0 ==> forall|a: int, i: int|
                    0 <= a < g && 0 <= i < num ==> #[trigger] out_sub@[a].spec_values()[i] < 10
                        * r0,
                forall|a: int| 0 <= a < g ==> (#[trigger] out_df@[a]).spec_values().len() == num,
            decreases n - g,
        {
            let radii = crate::random::get_distr_rayleigh(rng, num, r0);
            out_sub.push(SubGrainsComponent::from_values(radii));
            out_df.push(DriveForceRecrComponent::zeros(num));
            g = g + 1;
        }
        self.subgrains = out_sub;
        self.df_recr = out_df;
    }

    /// Reset the driving-force list of every grain to zeros, one entry
    /// per subgrain.
    pub fn initialize_drive_force_recr(&mut self)
        requires
            old(self).wf(),
        ensures
            final(self).wf(),
            *final(self) == (Polycrystal { df_recr: final(self).df_recr, ..*old(self) }),
            final(self).df_recr@.len() == old(self).n_spec(),
            forall|g: int|
                0 <= g < final(self).n_spec() ==> (#[trigger] final(self).df_recr@[g]).spec_values().len()
                    == old(self).subgrains@[g].spec_values().len(),
            forall|g: int, i: int|
                0 <= g < final(self).n_spec() && 0 <= i
                    < old(self).subgrains@[g].spec_values().len() ==> #[trigger] final(self).df_recr@[g].spec_values()[i] == 0i64,
    {
        let n = self.entities.len();
        let mut out: Vec<DriveForceRecrComponent> = Vec::new();
        let mut g: usize = 0;
        while g < n
            invariant
                g <= n,
                old(self).wf(),
                n as int == old(self).n_spec(),
                *self == (Polycrystal { df_recr: self.df_recr, ..*old(self) }),
                out@.len() == g,
                forall|a: int|
                    0 <= a < g ==> (#[trigger] out@[a]).spec_values().len()
                        == old(self).subgrains@[a].spec_values().len(),
                forall|a: int, i: int|
                    0 <= a < g && 0 <= i < old(self).subgrains@[a].spec_values().len()
                        ==> #[trigger] out@[a].spec_values()[i] == 0i64,
            decreases n - g,
        {
            out.push(DriveForceRecrComponent::zeros(self.subgrains[g].len()));
            g = g + 1;
        }
        self.df_recr = out;
    }

    /// Resample the orientation of every grain from the uniform
    /// distribution, through the checked rotation write, which always
    /// accepts because the sampler only returns orthogonal tensors. A
    /// single-grain polycrystal keeps its identity orientation.
    pub fn gen_uniform_distribution(&mut self, rng: &mut rand::rngs::StdRng)
        requires
            old(self).wf(),
        ensures
            final(self).wf(),
            *final(self) == (Polycrystal { rotation: final(self).rotation, ..*old(self) }),
            final(self).rotation@.len() == old(self).n_spec(),
            old(self).n_spec() <= 1 ==> final(self).rotation@ == old(self).rotation@,
    {
        let n = self.entities.len();
        if n <= 1 {
            return ;
        }
        let mut out: Vec<RotationComponent> = Vec::new();
        let mut g: usize = 0;
        while g < n
            invariant
                g <= n,
                old(self).wf(),
                n as int == old(self).n_spec(),
                *self == (Polycrystal { rotation: self.rotation, ..*old(self) }),
                out@.len() == g,
                forall|a: int|
                    0 <= a < g ==> (#[trigger] out@[a]).spec_tensor().spec_is_orthogonal(),
            decreases n - g,
        {
            let mut comp = self.rotation[g];
            let m = crate::random::get_uniform_distribution(rng);
            let accepted = comp.set_matrix(m);
            proof {
                assert(accepted is Ok);
            }
            out.push(comp);
            g = g + 1;
        }
        self.rotation = out;
    }

    /// Nucleation driving force of every subgrain of every grain: the
    /// polycrystal mean stored energy minus the boundary-curvature
    /// penalty of the subgrain's radius.
    pub fn calc_drive_force_recr(&mut self, est_poly: i64, egb: i64)
        requires
            old(self).wf(),
        ensures
            final(self).wf(),
            *final(self) == (Polycrystal { df_recr: final(self).df_recr, ..*old(self) }),
            final(self).df_recr@.len() == old(self).n_spec(),
            forall|g: int|
                0 <= g < final(self).n_spec() ==> (#[trigger] final(self).df_recr@[g]).spec_values().len()
                    == old(self).subgrains@[g].spec_values().len(),
            forall|g: int, i: int|
                0 <= g < final(self).n_spec() && 0 <= i
                    < old(self).subgrains@[g].spec_values().len() ==> #[trigger] final(self).df_recr@[g].spec_values()[i] as int == spec_drive_force(
                    est_poly as int,
                    egb as int,
                    old(self).subgrains@[g].spec_values()[i] as int,
                ),
    {
        let n = self.entities.len();
        let mut out: Vec<DriveForceRecrComponent> = Vec::new();
        let mut g: usize = 0;
        while g < n
            invariant
                g <= n,
                old(self).wf(),
                n as int == old(self).n_spec(),
                *self == (Polycrystal { df_recr: self.df_recr, ..*old(self) }),
                out@.len() == g,
                forall|a: int|
                    0 <= a < g ==> (#[trigger] out@[a]).spec_values().len()
                        == old(self).subgrains@[a].spec_values().len(),
                forall|a: int, i: int|
                    0 <= a < g && 0 <= i < old(self).subgrains@[a].spec_values().len()
                        ==> #[trigger] out@[a].spec_values()[i] as int == spec_drive_force(
                        est_poly as int,
                        egb as int,
                        old(self).subgrains@[a].spec_values()[i] as int,
                    ),
            decreases n - g,
        {
            let k = self.subgrains[g].len();
            let mut values: Vec<i64> = Vec::new();
            let mut i: usize = 0;
            while i < k
                invariant
                    i <= k,
                    g < n,
                    old(self).wf(),
                    n as int == old(self).n_spec(),
                    *self == (Polycrystal { df_recr: self.df_recr, ..*old(self) }),
                    k == self.subgrains@[g as int].spec_values().len(),
                    values@.len() == i,
                    forall|j: int|
                        0 <= j < i ==> #[trigger] values@[j] as int == spec_drive_force(
                            est_poly as int,
                            egb as int,
                            self.subgrains@[g as int].spec_values()[j] as int,
                        ),
                decreases k - i,
            {
                let r = self.subgrains[g].get_value(i).unwrap();
                values.push(compute_drive_force(est_poly, egb, r));
                i = i + 1;
            }
            out.push(DriveForceRecrComponent::from_values(values));
            g = g + 1;
        }
        self.df_recr = out;
    }

    /// Whole-crystal nucleation driving force of every recrystallized
    /// grain, from the grain's own radius; grains that are not
    /// recrystallization products keep their previous value.
    pub fn calc_drive_force_recr_cryst(&mut self, est_poly: i64, egb: i64)
        requires
            old(self).wf(),
        ensures
            final(self).wf(),
            *final(self) == (Polycrystal {
                df_recr_cryst: final(self).df_recr_cryst,
                ..*old(self)
            }),
            final(self).df_recr_cryst@.len() == old(self).n_spec(),
            forall|g: int|
                0 <= g < final(self).n_spec() && old(self).status@[g].spec_value()
                    ==> (#[trigger] final(self).df_recr_cryst@[g]).spec_value() as int
                    == spec_drive_force(
                    est_poly as int,
                    egb as int,
                    old(self).gr_size@[g].spec_value() as int,
                ),
            forall|g: int|
                0 <= g < final(self).n_spec() && !old(self).status@[g].spec_value()
                    ==> (#[trigger] final(self).df_recr_cryst@[g]) == old(self).df_recr_cryst@[g],
    {
        let n = self.entities.len();
        let mut out: Vec<DriveForceRecrCrystComponent> = Vec::new();
        let mut g: usize = 0;
        while g < n
            invariant
                g <= n,
                old(self).wf(),
                n as int == old(self).n_spec(),
                *self == (Polycrystal { df_recr_cryst: self.df_recr_cryst, ..*old(self) }),
                out@.len() == g,
                forall|a: int|
                    0 <= a < g && old(self).status@[a].spec_value() ==> (#[trigger] out@[a]).spec_value() as int == spec_drive_force(
                        est_poly as int,
                        egb as int,
                        old(self).gr_size@[a].spec_value() as int,
                    ),
                forall|a: int|
                    0 <= a < g && !old(self).status@[a].spec_value() ==> (#[trigger] out@[a])
                        == old(self).df_recr_cryst@[a],
            decreases n - g,
        {
            if self.status[g].get_value() {
                let v = compute_drive_force(est_poly, egb, self.gr_size[g].get_value());
                let mut c = DriveForceRecrCrystComponent::new();
                c.set_value(v);
                out.push(c);
            } else {
                out.push(self.df_recr_cryst[g]);
            }
            g = g + 1;
        }
        self.df_recr_cryst = out;
    }

    /// Facet mobility of every grain: m0 * e^(-q/(r*temp)), the same
    /// Arrhenius value written for every grain; a negative ratio gives
    /// the growing exponential, saturating at the scalar maximum.
    pub fn calc_facet_mobility(&mut self, m0: i64, q: i64, r: i64, temp: i64)
        requires
            old(self).wf(),
        ensures
            final(self).wf(),
            *final(self) == (Polycrystal {
                facet_mobility: final(self).facet_mobility,
                ..*old(self)
            }),
            final(self).facet_mobility@.len() == old(self).n_spec(),
            forall|g: int|
                0 <= g < final(self).n_spec() ==> (#[trigger] final(self).facet_mobility@[g]).spec_value() as int == spec_facet_mobility(
                    m0 as int,
                    q as int,
                    r as int,
                    temp as int,
                ),
    {
        let a = crate::fx::fx_div(q, crate::fx::fx_mul(r, temp));
        let value = if a < 0 {
            crate::fx::fx_mul(m0, crate::fxmath::fx_exp_pos(crate::fx::fx_neg(a)))
        } else {
            crate::fx::fx_mul(m0, crate::fxmath::fx_exp_neg(a))
        };
        let n = self.entities.len();
        let mut out: Vec<FacetMobilityComponent> = Vec::new();
        let mut g: usize = 0;
        while g < n
            invariant
                g <= n,
                old(self).wf(),
                n as int == old(self).n_spec(),
                value as int == spec_facet_mobility(m0 as int, q as int, r as int, temp as int),
                *self == (Polycrystal { facet_mobility: self.facet_mobility, ..*old(self) }),
                out@.len() == g,
                forall|a2: int|
                    0 <= a2 < g ==> (#[trigger] out@[a2]).spec_value() as int
                        == spec_facet_mobility(m0 as int, q as int, r as int, temp as int),
            decreases n - g,
        {
            let mut c = FacetMobilityComponent::new();
            c.set_value(value);
            out.push(c);
            g = g + 1;
        }
        self.facet_mobility = out;
    }

    /// Facet migration velocity of every grain: the whole-crystal driving
    /// force times the mobility, clamped at zero from below.
    pub fn calc_vel_facet(&mut self)
        requires
            old(self).wf(),
        ensures
            final(self).wf(),
            *final(self) == (Polycrystal { vel_facet: final(self).vel_facet, ..*old(self) }),
            final(self).vel_facet@.len() == old(self).n_spec(),
            forall|g: int|
                0 <= g < final(self).n_spec() ==> (#[trigger] final(self).vel_facet@[g]).spec_value() as int == crate::slide_system::max0(
                    s_mul(
                        old(self).df_recr_cryst@[g].spec_value() as int,
                        old(self).facet_mobility@[g].spec_value() as int,
                    ),
                ),
    {
        let n = self.entities.len();
        let mut out: Vec<VelocityFacetComponent> = Vec::new();
        let mut g: usize = 0;
        while g < n
            invariant
                g <= n,
                old(self).wf(),
                n as int == old(self).n_spec(),
                *self == (Polycrystal { vel_facet: self.vel_facet, ..*old(self) }),
                out@.len() == g,
                forall|a: int|
                    0 <= a < g ==> (#[trigger] out@[a]).spec_value() as int
                        == crate::slide_system::max0(
                        s_mul(
                            old(self).df_recr_cryst@[a].spec_value() as int,
                            old(self).facet_mobility@[a].spec_value() as int,
                        ),
                    ),
            decreases n - g,
        {
            let v = crate::fx::fx_mul(
                self.df_recr_cryst[g].get_value(),
                self.facet_mobility[g].get_value(),
            );
            let value = if v < 0 {
                0
            } else {
                v
            };
            let mut c = VelocityFacetComponent::new();
            c.set_value(value);
            out.push(c);
            g = g + 1;
        }
        self.vel_facet = out;
    }

    /// Grow the radius of every grain by its facet velocity over one step
    /// and move each grain's Hall-Petch contribution from the old radius
    /// to the new one.
    pub fn calc_grain_size(&mut self, b: i64, k_y: i64, dt: i64)
        requires
            old(self).wf(),
        ensures
            final(self).wf(),
            *final(self) == (Polycrystal {
                gr_size: final(self).gr_size,
                tau_c: final(self).tau_c,
                ..*old(self)
            }),
            final(self).gr_size@.len() == old(self).n_spec(),
            final(self).tau_c@.len() == old(self).n_spec(),
            forall|g: int|
                0 <= g < final(self).n_spec() ==> (#[trigger] final(self).gr_size@[g]).spec_value() as int == s_add(
                    old(self).gr_size@[g].spec_value() as int,
                    s_mul(old(self).vel_facet@[g].spec_value() as int, dt as int),
                ),
            forall|g: int, s: int|
                0 <= g < final(self).n_spec() && 0 <= s < NUM_SLIP ==> #[trigger] final(self).tau_c@[g].spec_values()[s] as int == s_add(
                    s_sub(
                        old(self).tau_c@[g].spec_values()[s] as int,
                        spec_hall_petch(
                            k_y as int,
                            b as int,
                            old(self).gr_size@[g].spec_value() as int,
                        ),
                    ),
                    spec_hall_petch(
                        k_y as int,
                        b as int,
                        s_add(
                            old(self).gr_size@[g].spec_value() as int,
                            s_mul(old(self).vel_facet@[g].spec_value() as int, dt as int),
                        ),
                    ),
                ),
    {
        let n = self.entities.len();
        let mut out_size: Vec<GrainSizeComponent> = Vec::new();
        let mut out_tc: Vec<TauComponent> = Vec::new();
        let mut g: usize = 0;
        while g < n
            invariant
                g <= n,
                old(self).wf(),
                n as int == old(self).n_spec(),
                *self == (Polycrystal { gr_size: self.gr_size, tau_c: self.tau_c, ..*old(self) }),
                out_size@.len() == g,
                out_tc@.len() == g,
                forall|a: int|
                    0 <= a < g ==> (#[trigger] out_size@[a]).spec_value() as int == s_add(
                        old(self).gr_size@[a].spec_value() as int,
                        s_mul(old(self).vel_facet@[a].spec_value() as int, dt as int),
                    ),
                forall|a: int| 0 <= a < g ==> (#[trigger] out_tc@[a]).wf(),
                forall|a: int, s: int|
                    0 <= a < g && 0 <= s < NUM_SLIP ==> #[trigger] out_tc@[a].spec_values()[s]
                        as int == s_add(
                        s_sub(
                            old(self).tau_c@[a].spec_values()[s] as int,
                            spec_hall_petch(
                                k_y as int,
                                b as int,
                                old(self).gr_size@[a].spec_value() as int,
                            ),
                        ),
                        spec_hall_petch(
                            k_y as int,
                            b as int,
                            s_add(
                                old(self).gr_size@[a].spec_value() as int,
                                s_mul(old(self).vel_facet@[a].spec_value() as int, dt as int),
                            ),
                        ),
                    ),
            decreases n - g,
        {
            let size = self.gr_size[g].get_value();
            let new_size = crate::fx::fx_add(
                size,
                crate::fx::fx_mul(self.vel_facet[g].get_value(), dt),
            );
            let hp_old = compute_hall_petch(k_y, b, size);
            let hp_new = compute_hall_petch(k_y, b, new_size);
            out_tc.push(tau_c_adjust_hp(&self.tau_c[g], hp_old, hp_new));
            let mut c = GrainSizeComponent::new();
            c.set_value(new_size);
            out_size.push(c);
            g = g + 1;
        }
        self.gr_size = out_size;
        self.tau_c = out_tc;
    }
}

/// Facet mobility value m0 * e^(-q/(r*temp)): the decaying exponential
/// for a non-negative ratio, the growing (saturating) one for a negative
/// ratio.
pub open spec fn spec_facet_mobility(m0: int, q: int, r: int, temp: int) -> int {
    let a = crate::fx::s_div(q, s_mul(r, temp));
    if a < 0 {
        s_mul(m0, crate::fxmath::exp_pos_spec(crate::fx::clamp_fx(-a)))
    } else {
        s_mul(m0, crate::fxmath::exp_neg_spec(a))
    }
}

/// Sum of the stored energies of the first k grains.
pub open spec fn spec_sum_energy(s: Seq<AccumEnergyComponent>, k: nat) -> int
    decreases k,
{
    if k == 0 {
        0
    } else {
        s_add(spec_sum_energy(s, (k - 1) as nat), s[k - 1].spec_value() as int)
    }
}

/// Sum of the equivalent radii of the first k grains.
pub open spec fn spec_sum_size(s: Seq<GrainSizeComponent>, k: nat) -> int
    decreases k,
{
    if k == 0 {
        0
    } else {
        s_add(spec_sum_size(s, (k - 1) as nat), s[k - 1].spec_value() as int)
    }
}

/// A grain's stress rotated into the sample frame: R * sigma * R^T.
pub open spec fn spec_rotated(rot: Mat3, t: Mat3) -> Mat3 {
    rot.spec_mul(t).spec_mul(rot.spec_transpose())
}

/// Sum of the sample-frame stresses of the first k grains.
pub open spec fn spec_sum_rot_sigma(rot: Seq<RotationComponent>, sig: Seq<SigmaComponent>, k: nat)
    -> Mat3
    decreases k,
{
    if k == 0 {
        Mat3::spec_zero()
    } else {
        spec_sum_rot_sigma(rot, sig, (k - 1) as nat).spec_add(
            spec_rotated(rot[k - 1].spec_tensor(), sig[k - 1].spec_tensor()),
        )
    }
}

/// Sum of the sample-frame strains of the first k grains.
pub open spec fn spec_sum_rot_eps(rot: Seq<RotationComponent>, eps: Seq<EpsComponent>, k: nat)
    -> Mat3
    decreases k,
{
    if k == 0 {
        Mat3::spec_zero()
    } else {
        spec_sum_rot_eps(rot, eps, (k - 1) as nat).spec_add(
            spec_rotated(rot[k - 1].spec_tensor(), eps[k - 1].spec_tensor()),
        )
    }
}

impl Polycrystal {
    /// Mean stored energy over the polycrystal: the arithmetic mean of
    /// the per-grain values (zero for an empty polycrystal).
    pub fn calc_mean_accum_energy(&self) -> (r: i64)
        requires
            self.wf(),
            self.n_spec() < 0x8000_0000_0000_0000,
        ensures
            self.n_spec() == 0 ==> r == 0,
            self.n_spec() > 0 ==> r as int == crate::fx::s_divn(
                spec_sum_energy(self.est@, self.n_spec() as nat),
                self.n_spec(),
            ),
    {
        let n = self.entities.len();
        if n == 0 {
            return 0;
        }
        let mut sum: i64 = 0;
        let mut g: usize = 0;
        while g < n
            invariant
                g <= n,
                self.wf(),
                n as int == self.n_spec(),
                sum as int == spec_sum_energy(self.est@, g as nat),
            decreases n - g,
        {
            sum = crate::fx::fx_add(sum, self.est[g].get_value());
            g = g + 1;
        }
        crate::fx::fx_divn(sum, n as i64)
    }

    /// Mean equivalent radius over the polycrystal (zero for an empty
    /// polycrystal).
    pub fn calc_mean_grain_size(&self) -> (r: i64)
        requires
            self.wf(),
            self.n_spec() < 0x8000_0000_0000_0000,
        ensures
            self.n_spec() == 0 ==> r == 0,
            self.n_spec() > 0 ==> r as int == crate::fx::s_divn(
                spec_sum_size(self.gr_size@, self.n_spec() as nat),
                self.n_spec(),
            ),
    {
        let n = self.entities.len();
        if n == 0 {
            return 0;
        }
        let mut sum: i64 = 0;
        let mut g: usize = 0;
        while g < n
            invariant
                g <= n,
                self.wf(),
                n as int == self.n_spec(),
                sum as int == spec_sum_size(self.gr_size@, g as nat),
            decreases n - g,
        {
            sum = crate::fx::fx_add(sum, self.gr_size[g].get_value());
            g = g + 1;
        }
        crate::fx::fx_divn(sum, n as i64)
    }

    /// Polycrystal mean stress: the orientation-weighted average, each
    /// grain's stress rotated into the sample frame by its own rotation
    /// and the sum divided by the grain count (zero for an empty
    /// polycrystal).
    pub fn calc_mean_sigma(&self) -> (r: Mat3)
        requires
            self.wf(),
            self.n_spec() < 0x8000_0000_0000_0000,
        ensures
            self.n_spec() == 0 ==> r == Mat3::spec_zero(),
            self.n_spec() > 0 ==> r == spec_sum_rot_sigma(
                self.rotation@,
                self.sigma@,
                self.n_spec() as nat,
            ).spec_divn(self.n_spec()),
    {
        let n = self.entities.len();
        if n == 0 {
            return Mat3::zero();
        }
        let mut sum = Mat3::zero();
        let mut g: usize = 0;
        while g < n
            invariant
                g <= n,
                self.wf(),
                n as int == self.n_spec(),
                sum == spec_sum_rot_sigma(self.rotation@, self.sigma@, g as nat),
            decreases n - g,
        {
            let rot = self.rotation[g].get_tensor();
            let t = rot.mul(&self.sigma[g].get_tensor()).mul(&rot.transpose());
            sum = sum.add(&t);
            g = g + 1;
        }
        sum.divn(n as i64)
    }

    /// Polycrystal mean strain: the orientation-weighted average of the
    /// per-grain strains in the sample frame (zero for an empty
    /// polycrystal).
    pub fn calc_mean_eps(&self) -> (r: Mat3)
        requires
            self.wf(),
            self.n_spec() < 0x8000_0000_0000_0000,
        ensures
            self.n_spec() == 0 ==> r == Mat3::spec_zero(),
            self.n_spec() > 0 ==> r == spec_sum_rot_eps(
                self.rotation@,
                self.eps@,
                self.n_spec() as nat,
            ).spec_divn(self.n_spec()),
    {
        let n = self.entities.len();
        if n == 0 {
            return Mat3::zero();
        }
        let mut sum = Mat3::zero();
        let mut g: usize = 0;
        while g < n
            invariant
                g <= n,
                self.wf(),
                n as int == self.n_spec(),
                sum == spec_sum_rot_eps(self.rotation@, self.eps@, g as nat),
            decreases n - g,
        {
            let rot = self.rotation[g].get_tensor();
            let t = rot.mul(&self.eps[g].get_tensor()).mul(&rot.transpose());
            sum = sum.add(&t);
            g = g + 1;
        }
        sum.divn(n as i64)
    }
}

impl Polycrystal {
    /// One grain's nucleation scan from subgrain index i on: `size` is
    /// the parent radius so far, `subs` the subgrain radii so far,
    /// `events` the whole-table transient list so far. A pair fires when
    /// its driving force is positive, the table-wide event budget has
    /// room, both radii are non-negative and the parent's volume exceeds
    /// the subgrain's; a firing pair records the subgrain's radius,
    /// shrinks the parent to the radius of the remaining volume and
    /// resets the subgrain to the negligible floor. Any other pair
    /// changes nothing.
    pub open spec fn spec_scan_row(
        df: Seq<i64>,
        subs: Seq<i64>,
        size: int,
        events: Seq<i64>,
        i: nat,
    ) -> (int, Seq<i64>, Seq<i64>)
        decreases df.len() - i,
    {
        if i >= df.len() {
            (size, subs, events)
        } else {
            let fire = df[i as int] > 0 && events.len() < 1_000_000 && size >= 0 && i < subs.len()
                && subs[i as int] >= 0 && crate::fx::s_sub(
                crate::recrystallization::spec_volume(size),
                crate::recrystallization::spec_volume(subs[i as int] as int),
            ) > 0;
            if fire {
                let diff = crate::fx::s_sub(
                    crate::recrystallization::spec_volume(size),
                    crate::recrystallization::spec_volume(subs[i as int] as int),
                );
                Polycrystal::spec_scan_row(
                    df,
                    subs.update(i as int, crate::recrystallization::SUBGRAIN_FLOOR),
                    crate::recrystallization::spec_radius_of_volume(diff),
                    events.push(subs[i as int]),
                    i + 1,
                )
            } else {
                Polycrystal::spec_scan_row(df, subs, size, events, i + 1)
            }
        }
    }

    /// The transient-event list after the sequential scan of the first g
    /// grains.
    pub open spec fn spec_scan_events(self, g: nat) -> Seq<i64>
        decreases g, 0int,
    {
        if g == 0 {
            Seq::<i64>::empty()
        } else {
            self.spec_scan_grain((g - 1) as nat).2
        }
    }

    /// Grain g's scan outcome: its final radius, its final subgrain
    /// population, and the transient-event list after it, given that the
    /// grains before it were scanned first.
    pub open spec fn spec_scan_grain(self, g: nat) -> (int, Seq<i64>, Seq<i64>)
        decreases g, 1int,
    {
        Polycrystal::spec_scan_row(
            self.df_recr@[g as int].spec_values(),
            self.subgrains@[g as int].spec_values(),
            self.gr_size@[g as int].spec_value() as int,
            self.spec_scan_events(g),
            0,
        )
    }

    /// The (grain, subgrain) pair is ripe for nucleation: its driving
    /// force is positive, both radii are well-formed, and the parent's
    /// volume exceeds the subgrain's.
    pub open spec fn nucleation_candidate(self, g: int, i: int) -> bool {
        &&& 0 <= g < self.n_spec()
        &&& 0 <= i < self.df_recr@[g].spec_values().len()
        &&& i < self.subgrains@[g].spec_values().len()
        &&& self.df_recr@[g].spec_values()[i] > 0
        &&& self.gr_size@[g].spec_value() >= 0
        &&& self.subgrains@[g].spec_values()[i] >= 0
        &&& crate::fx::s_sub(
            crate::recrystallization::spec_volume(self.gr_size@[g].spec_value() as int),
            crate::recrystallization::spec_volume(
                self.subgrains@[g].spec_values()[i] as int,
            ),
        ) > 0
    }

    /// Scan every (grain, subgrain) pair for nucleation: where the
    /// driving force is positive and the parent's volume exceeds the
    /// subgrain's, shrink the parent to the radius of the remaining
    /// volume, reset the subgrain to the negligible floor, and record the
    /// nucleated radius in the transient list. The grain population is
    /// not touched here: the recorded radii become grains in
    /// `create_nucleated_grains`, so detection and population mutation
    /// stay separate. The scan is sequential: a later event of the same
    /// grain sees the already-shrunk parent.
    pub fn check_new_grain(&mut self)
        requires
            old(self).wf(),
            old(self).new_grains.spec_values().len() == 0,
        ensures
            final(self).wf(),
            *final(self) == (Polycrystal {
                gr_size: final(self).gr_size,
                subgrains: final(self).subgrains,
                new_grains: final(self).new_grains,
                ..*old(self)
            }),
            final(self).n_spec() == old(self).n_spec(),
            final(self).gr_size@.len() == old(self).n_spec(),
            final(self).subgrains@.len() == old(self).n_spec(),
            forall|g: int|
                0 <= g < final(self).n_spec() ==> (#[trigger] final(self).subgrains@[g]).spec_values().len()
                    == old(self).subgrains@[g].spec_values().len(),
            final(self).new_grains.spec_values().len() <= 1_000_000,
            (exists|g: int, i: int| old(self).nucleation_candidate(g, i)) ==> final(self).new_grains.spec_values().len() > 0,
            final(self).new_grains.spec_values() == old(self).spec_scan_events(
                old(self).n_spec() as nat,
            ),
            forall|g: int|
                0 <= g < old(self).n_spec() ==> (#[trigger] final(self).gr_size@[g]).spec_value()
                    as int == old(self).spec_scan_grain(g as nat).0,
            forall|g: int|
                0 <= g < old(self).n_spec() ==> (#[trigger] final(self).subgrains@[g]).spec_values()
                    == old(self).spec_scan_grain(g as nat).1,
    {
        let n = self.entities.len();
        let mut g: usize = 0;
        while g < n
            invariant
                g <= n,
                self.wf(),
                n as int == self.n_spec(),
                n as int == old(self).n_spec(),
                *self == (Polycrystal {
                    gr_size: self.gr_size,
                    subgrains: self.subgrains,
                    new_grains: self.new_grains,
                    ..*old(self)
                }),
                self.gr_size@.len() == old(self).n_spec(),
                self.subgrains@.len() == old(self).n_spec(),
                forall|a: int|
                    0 <= a < self.n_spec() ==> (#[trigger] self.subgrains@[a]).spec_values().len()
                        == old(self).subgrains@[a].spec_values().len(),
                self.new_grains.spec_values().len() <= 1_000_000,
                self.new_grains.spec_values().len() == 0 ==> self.gr_size@ == old(self).gr_size@
                    && self.subgrains@ == old(self).subgrains@,
                self.new_grains.spec_values().len() == 0 ==> forall|a: int, b: int|
                    0 <= a < g ==> !#[trigger] old(self).nucleation_candidate(a, b),
                self.new_grains.spec_values() == old(self).spec_scan_events(g as nat),
                forall|a: int|
                    0 <= a < g ==> (#[trigger] self.gr_size@[a]).spec_value() as int == old(self).spec_scan_grain(a as nat).0,
                forall|a: int|
                    0 <= a < g ==> (#[trigger] self.subgrains@[a]).spec_values() == old(self).spec_scan_grain(a as nat).1,
                forall|a: int|
                    g <= a < n ==> (#[trigger] self.gr_size@[a]) == old(self).gr_size@[a],
                forall|a: int|
                    g <= a < n ==> (#[trigger] self.subgrains@[a]) == old(self).subgrains@[a],
            decreases n - g,
        {
            let k = self.df_recr[g].len();
            let mut i: usize = 0;
            while i < k
                invariant
                    i <= k,
                    g < n,
                    self.wf(),
                    n as int == self.n_spec(),
                    n as int == old(self).n_spec(),
                    k == self.df_recr@[g as int].spec_values().len(),
                    *self == (Polycrystal {
                        gr_size: self.gr_size,
                        subgrains: self.subgrains,
                        new_grains: self.new_grains,
                        ..*old(self)
                    }),
                    self.gr_size@.len() == old(self).n_spec(),
                    self.subgrains@.len() == old(self).n_spec(),
                    forall|a: int|
                        0 <= a < self.n_spec() ==> (#[trigger] self.subgrains@[a]).spec_values().len() == old(self).subgrains@[a].spec_values().len(),
                    self.new_grains.spec_values().len() <= 1_000_000,
                    self.new_grains.spec_values().len() == 0 ==> self.gr_size@ == old(self).gr_size@ && self.subgrains@ == old(self).subgrains@,
                    self.new_grains.spec_values().len() == 0 ==> forall|a: int, b: int|
                        0 <= a < g ==> !#[trigger] old(self).nucleation_candidate(a, b),
                    self.new_grains.spec_values().len() == 0 ==> forall|b: int|
                        0 <= b < i ==> !#[trigger] old(self).nucleation_candidate(g as int, b),
                    forall|a: int|
                        0 <= a < g ==> (#[trigger] self.gr_size@[a]).spec_value() as int == old(self).spec_scan_grain(a as nat).0,
                    forall|a: int|
                        0 <= a < g ==> (#[trigger] self.subgrains@[a]).spec_values() == old(self).spec_scan_grain(a as nat).1,
                    forall|a: int|
                        g < a < n ==> (#[trigger] self.gr_size@[a]) == old(self).gr_size@[a],
                    forall|a: int|
                        g < a < n ==> (#[trigger] self.subgrains@[a]) == old(self).subgrains@[a],
                    Polycrystal::spec_scan_row(
                        old(self).df_recr@[g as int].spec_values(),
                        old(self).subgrains@[g as int].spec_values(),
                        old(self).gr_size@[g as int].spec_value() as int,
                        old(self).spec_scan_events(g as nat),
                        0,
                    ) == Polycrystal::spec_scan_row(
                        old(self).df_recr@[g as int].spec_values(),
                        self.subgrains@[g as int].spec_values(),
                        self.gr_size@[g as int].spec_value() as int,
                        self.new_grains.spec_values(),
                        i as nat,
                    ),
                decreases k - i,
            {
                let df = self.df_recr[g].get_value(i).unwrap();
                if df > 0 && self.new_grains.len() < 1_000_000 {
                    proof {
                        assert(self.subgrains@[g as int].spec_values().len() == self.df_recr@[g as int].spec_values().len());
                    }
                    let gr = self.gr_size[g].get_value();
                    let sub_r = self.subgrains[g].get_value(i).unwrap();
                    if gr >= 0 && sub_r >= 0 {
                        match crate::recrystallization::try_nucleate(gr, sub_r) {
                            Some(new_size) => {
                                self.new_grains.push_value(sub_r);
                                let mut c = self.gr_size[g];
                                c.set_value(new_size);
                                self.gr_size.set(g, c);
                                let updated = self.subgrains[g].with_updated(
                                    i,
                                    crate::recrystallization::SUBGRAIN_FLOOR,
                                );
                                self.subgrains.set(g, updated);
                            },
                            None => {},
                        }
                    }
                }
                i = i + 1;
            }
            g = g + 1;
        }
    }

    /// Turn every radius recorded by `check_new_grain` into a brand-new
    /// grain: one atomic row append per radius, followed by the fresh
    /// initialization of the new grain's orientation (a fresh uniform
    /// draw, always accepted by the checked write), slip geometry,
    /// stiffness, Hall-Petch-adjusted
    /// critical stress, subgrain population, size (the nucleated radius)
    /// and recrystallized status. The transient list is cleared at the
    /// end.
    #[verifier::rlimit(100)]
    pub fn create_nucleated_grains(
        &mut self,
        rng: &mut rand::rngs::StdRng,
        dirs_b: &Vec<Vec3>,
        dirs_n: &Vec<Vec3>,
    )
        requires
            old(self).wf(),
            dirs_b@.len() == 12,
            dirs_n@.len() == 12,
            old(self).n_spec() + old(self).new_grains.spec_values().len() < 0xffff_ffff,
        ensures
            final(self).wf(),
            final(self).n_spec() == old(self).n_spec() + old(self).new_grains.spec_values().len(),
            final(self).same_rows_below(*old(self), old(self).n_spec()),
            final(self).params == old(self).params,
            final(self).new_grains.spec_values().len() == 0,
            forall|k: int|
                0 <= k < old(self).new_grains.spec_values().len() ==> (#[trigger] final(self).status@[old(self).n_spec() + k]).spec_value() == true,
            forall|k: int|
                0 <= k < old(self).new_grains.spec_values().len() ==> (#[trigger] final(self).gr_size@[old(self).n_spec() + k]).spec_value()
                    == old(self).new_grains.spec_values()[k],
            forall|k: int|
                0 <= k < old(self).new_grains.spec_values().len() ==> (#[trigger] final(self).subgrains@[old(self).n_spec() + k]).spec_values().len()
                    == old(self).params.num_sg,
            forall|k: int, i: int|
                0 <= k < old(self).new_grains.spec_values().len() && 0 <= i < old(self).params.num_sg ==> #[trigger] final(self).subgrains@[old(self).n_spec()
                    + k].spec_values()[i] >= 0,
            forall|k: int, i: int|
                0 <= k < old(self).new_grains.spec_values().len() && 0 <= i < 12 ==> #[trigger] final(self).burgers@[old(self).n_spec() + k].spec_vectors()[2 * i]
                    == dirs_b@[i].spec_normalize() && final(self).burgers@[old(self).n_spec()
                    + k].spec_vectors()[2 * i + 1] == dirs_b@[i].spec_normalize().spec_neg(),
            forall|k: int, i: int|
                0 <= k < old(self).new_grains.spec_values().len() && 0 <= i < 12 ==> #[trigger] final(self).normals@[old(self).n_spec() + k].spec_vectors()[2 * i]
                    == dirs_n@[i].spec_normalize() && final(self).normals@[old(self).n_spec()
                    + k].spec_vectors()[2 * i + 1] == dirs_n@[i].spec_normalize(),
            forall|k: int, s: int|
                0 <= k < old(self).new_grains.spec_values().len() && 0 <= s < NUM_SLIP
                    ==> #[trigger] final(self).bn@[old(self).n_spec() + k].spec_matrices()[s]
                    == final(self).burgers@[old(self).n_spec() + k].spec_vectors()[s].spec_outer(
                    final(self).normals@[old(self).n_spec() + k].spec_vectors()[s],
                ),
            forall|k: int|
                0 <= k < old(self).new_grains.spec_values().len() ==> (#[trigger] final(self).elasticity@[old(self).n_spec() + k]).spec_c11() == s_mul(
                    old(self).params.c11 as int,
                    old(self).params.koef as int,
                ) && final(self).elasticity@[old(self).n_spec() + k].spec_c12() == s_mul(
                    old(self).params.c12 as int,
                    old(self).params.koef as int,
                ) && final(self).elasticity@[old(self).n_spec() + k].spec_c44() == s_mul(
                    old(self).params.c44 as int,
                    old(self).params.koef as int,
                ),
            forall|k: int, s: int|
                0 <= k < old(self).new_grains.spec_values().len() && 0 <= s < NUM_SLIP
                    ==> #[trigger] final(self).tau_c@[old(self).n_spec() + k].spec_values()[s]
                    as int == s_add(
                    old(self).params.tau_c as int,
                    spec_hall_petch(
                        old(self).params.k_y as int,
                        old(self).params.b as int,
                        old(self).params.gr_size as int,
                    ),
                ),
    {
        let count = self.new_grains.len();
        let ghost n0 = old(self).n_spec();
        let mut idx: usize = 0;
        while idx < count
            invariant
                idx <= count,
                self.wf(),
                count == old(self).new_grains.spec_values().len(),
                self.new_grains == old(self).new_grains,
                self.params == old(self).params,
                n0 == old(self).n_spec(),
                self.n_spec() == n0 + idx,
                n0 + count < 0xffff_ffff,
                dirs_b@.len() == 12,
                dirs_n@.len() == 12,
                self.same_rows_below(*old(self), n0),
                forall|k: int|
                    0 <= k < idx ==> (#[trigger] self.status@[n0 + k]).spec_value() == true,
                forall|k: int|
                    0 <= k < idx ==> (#[trigger] self.gr_size@[n0 + k]).spec_value()
                        == old(self).new_grains.spec_values()[k],
                forall|k: int|
                    0 <= k < idx ==> (#[trigger] self.subgrains@[n0 + k]).spec_values().len()
                        == old(self).params.num_sg,
                forall|k: int, i: int|
                    0 <= k < idx && 0 <= i < old(self).params.num_sg ==> #[trigger] self.subgrains@[n0 + k].spec_values()[i] >= 0,
                forall|k: int, i: int|
                    0 <= k < idx && 0 <= i < 12 ==> #[trigger] self.burgers@[n0
                        + k].spec_vectors()[2 * i] == dirs_b@[i].spec_normalize()
                        && self.burgers@[n0 + k].spec_vectors()[2 * i + 1]
                        == dirs_b@[i].spec_normalize().spec_neg(),
                forall|k: int, i: int|
                    0 <= k < idx && 0 <= i < 12 ==> #[trigger] self.normals@[n0
                        + k].spec_vectors()[2 * i] == dirs_n@[i].spec_normalize()
                        && self.normals@[n0 + k].spec_vectors()[2 * i + 1]
                        == dirs_n@[i].spec_normalize(),
                forall|k: int, s: int|
                    0 <= k < idx && 0 <= s < NUM_SLIP ==> #[trigger] self.bn@[n0
                        + k].spec_matrices()[s] == self.burgers@[n0 + k].spec_vectors()[
                        s].spec_outer(self.normals@[n0 + k].spec_vectors()[s]),
                forall|k: int|
                    0 <= k < idx ==> (#[trigger] self.elasticity@[n0 + k]).spec_c11() == s_mul(
                        old(self).params.c11 as int,
                        old(self).params.koef as int,
                    ) && self.elasticity@[n0 + k].spec_c12() == s_mul(
                        old(self).params.c12 as int,
                        old(self).params.koef as int,
                    ) && self.elasticity@[n0 + k].spec_c44() == s_mul(
                        old(self).params.c44 as int,
                        old(self).params.koef as int,
                    ),
                forall|k: int, s: int|
                    0 <= k < idx && 0 <= s < NUM_SLIP ==> #[trigger] self.tau_c@[n0
                        + k].spec_values()[s] as int == s_add(
                        old(self).params.tau_c as int,
                        spec_hall_petch(
                            old(self).params.k_y as int,
                            old(self).params.b as int,
                            old(self).params.gr_size as int,
                        ),
                    ),
            decreases count - idx,
        {
            let radius = self.new_grains.get_value(idx).unwrap();
            self.push_default_grain();
            let gidx = self.entities.len() - 1;
            // fresh random orientation; the sampler guarantees a tensor
            // the checked write accepts
            let mut rc = self.rotation[gidx];
            let m = crate::random::get_uniform_distribution(rng);
            let accepted = rc.set_matrix(m);
            proof {
                assert(accepted is Ok);
            }
            self.rotation.set(gidx, rc);
            // shared slip geometry and stiffness
            let bcomp = burgers_from_directions(dirs_b);
            let ncomp = normals_from_directions(dirs_n);
            let bn = BNComponent::compute_from(&bcomp, &ncomp);
            self.burgers.set(gidx, bcomp);
            self.normals.set(gidx, ncomp);
            self.bn.set(gidx, bn);
            let p = self.params;
            let mut e = ElasticityTensorComponent::new();
            e.set_constants(p.c11, p.c12, p.c44, p.koef);
            self.elasticity.set(gidx, e);
            // Hall-Petch-adjusted critical stress
            let tc = tau_c_uniform(crate::fx::fx_add(
                p.tau_c,
                compute_hall_petch(p.k_y, p.b, p.gr_size),
            ));
            self.tau_c.set(gidx, tc);
            // fresh subgrain population with an aligned driving-force list
            let radii = crate::random::get_distr_rayleigh(rng, p.num_sg, p.r0);
            self.subgrains.set(gidx, SubGrainsComponent::from_values(radii));
            self.df_recr.set(gidx, DriveForceRecrComponent::zeros(p.num_sg));
            // the nucleated radius and the one-way status flag
            let mut c = self.gr_size[gidx];
            c.set_value(radius);
            self.gr_size.set(gidx, c);
            let mut st = self.status[gidx];
            st.set_value(true);
            self.status.set(gidx, st);
            idx = idx + 1;
        }
        self.new_grains.clear();
    }
}

impl Polycrystal {
    /// Advance the polycrystal by one explicit time step: refresh the
    /// crystal-frame kinematics from the fixed macroscopic velocity
    /// gradient, evaluate slip kinetics and hardening, split the strain
    /// rate, integrate stress, strain and stored energy, update the
    /// nucleation driving forces from the polycrystal mean energy, and
    /// run the two-phase nucleation (detect, then apply) which may grow
    /// the population. The population never shrinks, grain identities are
    /// stable, and a recrystallized status is never reverted.
    #[verifier::rlimit(100)]
    pub fn step(
        &mut self,
        rng: &mut rand::rngs::StdRng,
        init_grad_v: Mat3,
        dirs_b: &Vec<Vec3>,
        dirs_n: &Vec<Vec3>,
    )
        requires
            old(self).wf(),
            dirs_b@.len() == 12,
            dirs_n@.len() == 12,
            old(self).new_grains.spec_values().len() == 0,
            old(self).n_spec() < 0xfff0_0000,
        ensures
            final(self).wf(),
            old(self).n_spec() <= final(self).n_spec() <= old(self).n_spec() + 1_000_000,
            final(self).params == old(self).params,
            final(self).new_grains.spec_values().len() == 0,
            forall|g: int|
                0 <= g < old(self).n_spec() ==> (#[trigger] final(self).entities@[g])
                    == old(self).entities@[g],
            forall|g: int|
                0 <= g < old(self).n_spec() ==> (#[trigger] final(self).status@[g])
                    == old(self).status@[g],
            forall|g: int|
                0 <= g < old(self).n_spec() ==> (#[trigger] final(self).rotation@[g])
                    == old(self).rotation@[g],
            forall|g: int|
                0 <= g < old(self).n_spec() ==> (#[trigger] final(self).grad_v@[g]).spec_tensor()
                    == old(self).step_grad_v(init_grad_v, g),
            forall|g: int|
                0 <= g < old(self).n_spec() ==> (#[trigger] final(self).d@[g]).spec_tensor()
                    == old(self).step_d(init_grad_v, g),
            forall|g: int, s: int|
                0 <= g < old(self).n_spec() && 0 <= s < NUM_SLIP ==> #[trigger] final(self).tau@[g].spec_values()[s] as int == old(self).step_tau(g, s),
            forall|g: int, s: int|
                0 <= g < old(self).n_spec() && 0 <= s < NUM_SLIP ==> #[trigger] final(self).gamma_rate@[g].spec_values()[s] as int == old(self).step_gamma_rate(g, s),
            forall|g: int, s: int|
                0 <= g < old(self).n_spec() && 0 <= s < NUM_SLIP ==> #[trigger] final(self).gamma@[g].spec_values()[s] as int == old(self).step_gamma(g, s),
            forall|g: int, s: int|
                0 <= g < old(self).n_spec() && 0 <= s < NUM_SLIP ==> #[trigger] final(self).tau_c@[g].spec_values()[s] as int == old(self).step_tauc(g, s),
            forall|g: int|
                0 <= g < old(self).n_spec() ==> (#[trigger] final(self).din@[g]).spec_tensor()
                    == old(self).step_din(g),
            forall|g: int|
                0 <= g < old(self).n_spec() ==> (#[trigger] final(self).de@[g]).spec_tensor()
                    == old(self).step_de(init_grad_v, g),
            forall|g: int|
                0 <= g < old(self).n_spec() ==> (#[trigger] final(self).sigma_rate@[g]).spec_vector() == old(self).step_sigma_rate(init_grad_v, g),
            forall|g: int|
                0 <= g < old(self).n_spec() ==> (#[trigger] final(self).sigma@[g]).spec_tensor()
                    == old(self).step_sigma(init_grad_v, g),
            forall|g: int|
                0 <= g < old(self).n_spec() ==> (#[trigger] final(self).eps@[g]).spec_tensor()
                    == old(self).step_eps(init_grad_v, g),
            forall|g: int|
                0 <= g < old(self).n_spec() ==> (#[trigger] final(self).est_rate@[g]).spec_value()
                    as int == old(self).step_est_rate(init_grad_v, g),
            forall|g: int|
                0 <= g < old(self).n_spec() ==> (#[trigger] final(self).est@[g]).spec_value()
                    as int == old(self).step_est(init_grad_v, g),
    {
        let ghost n = old(self).n_spec();
        let p = self.params;
        self.initialize_grad_v(init_grad_v);
        self.initialize_d();
        self.calc_tau();
        proof {
            assert forall|g: int, s: int| 0 <= g < n && 0 <= s < NUM_SLIP implies #[trigger] self.tau@[g].spec_values()[s] as int == old(self).step_tau(g, s) by {}
        }
        self.calc_gamma_rate(p.gamma_0, p.m_exp);
        proof {
            assert forall|g: int, s: int| 0 <= g < n && 0 <= s < NUM_SLIP implies #[trigger] self.gamma_rate@[g].spec_values()[s] as int == old(self).step_gamma_rate(g, s) by {}
            assert forall|g: int| 0 <= g < n implies #[trigger] self.gamma_rate@[g].spec_values()
                =~= old(self).step_gamma_rate_seq(g) by {
                assert forall|s: int| 0 <= s < NUM_SLIP implies self.gamma_rate@[g].spec_values()[s]
                    == old(self).step_gamma_rate_seq(g)[s] by {}
            }
        }
        self.calc_gamma(p.dt);
        self.calc_h_vector(p.tau_sat, p.h0, p.a_exp);
        self.calc_h_matrix(p.qlat);
        proof {
            assert forall|g: int, k: int| 0 <= g < n && 0 <= k < NUM_SLIP implies #[trigger] self.h_matrix@[g].spec_rows()[k] =~= old(self).step_h_row(g, k) by {
                assert forall|j: int| 0 <= j < NUM_SLIP implies self.h_matrix@[g].spec_rows()[k][j]
                    == old(self).step_h_row(g, k)[j] by {}
            }
        }
        self.calc_tauc_rate_sat_law();
        proof {
            assert forall|g: int, k: int| 0 <= g < n && 0 <= k < NUM_SLIP implies #[trigger] self.tau_c_rate@[g].spec_values()[k] as int == old(self).step_tauc_rate(g, k) by {}
        }
        self.calc_tauc(p.dt);
        self.calc_din();
        proof {
            assert forall|g: int| 0 <= g < n implies (#[trigger] self.din@[g]).spec_tensor()
                == old(self).step_din(g) by {}
        }
        self.calc_de_elastic_plastic_deform();
        self.calc_hooke_law();
        proof {
            assert forall|g: int| 0 <= g < n implies (#[trigger] self.sigma_rate@[g]).spec_vector()
                == old(self).step_sigma_rate(init_grad_v, g) by {}
        }
        self.calc_sigma(p.dt);
        self.calc_eps(p.dt);
        self.calc_accum_energy_rate(p.alfa, p.sigma_unit_scale);
        proof {
            assert forall|g: int| 0 <= g < n implies (#[trigger] self.est_rate@[g]).spec_value()
                as int == old(self).step_est_rate(init_grad_v, g) by {}
        }
        self.calc_accum_energy(p.dt);
        let est_mean = self.calc_mean_accum_energy();
        self.calc_drive_force_recr(est_mean, p.egb);
        self.check_new_grain();
        self.create_nucleated_grains(rng, dirs_b, dirs_n);
    }
}

impl Polycrystal {
    /// Burgers directions of every grain from the 12 canonical
    /// directions: each is normalized and mirrored into the 24 signed
    /// systems, identically for all grains.
    pub fn initialize_burgers_vectors(&mut self, dirs: &Vec<Vec3>)
        requires
            old(self).wf(),
            dirs@.len() == 12,
        ensures
            final(self).wf(),
            *final(self) == (Polycrystal { burgers: final(self).burgers, ..*old(self) }),
            final(self).burgers@.len() == old(self).n_spec(),
            forall|g: int, i: int|
                0 <= g < final(self).n_spec() && 0 <= i < 12 ==> #[trigger] final(self).burgers@[g].spec_vectors()[2 * i] == dirs@[i].spec_normalize(),
            forall|g: int, i: int|
                0 <= g < final(self).n_spec() && 0 <= i < 12 ==> #[trigger] final(self).burgers@[g].spec_vectors()[2 * i + 1] == dirs@[i].spec_normalize().spec_neg(),
    {
        let n = self.entities.len();
        let mut out: Vec<BurgersVectorComponent> = Vec::new();
        let mut g: usize = 0;
        while g < n
            invariant
                g <= n,
                old(self).wf(),
                dirs@.len() == 12,
                n as int == old(self).n_spec(),
                *self == (Polycrystal { burgers: self.burgers, ..*old(self) }),
                out@.len() == g,
                forall|a: int| 0 <= a < g ==> (#[trigger] out@[a]).wf(),
                forall|a: int, i: int|
                    0 <= a < g && 0 <= i < 12 ==> #[trigger] out@[a].spec_vectors()[2 * i]
                        == dirs@[i].spec_normalize(),
                forall|a: int, i: int|
                    0 <= a < g && 0 <= i < 12 ==> #[trigger] out@[a].spec_vectors()[2 * i + 1]
                        == dirs@[i].spec_normalize().spec_neg(),
            decreases n - g,
        {
            out.push(burgers_from_directions(dirs));
            g = g + 1;
        }
        self.burgers = out;
    }

    /// Slip-plane normals of every grain from the 12 canonical normals:
    /// each is normalized and repeated for both signed systems,
    /// identically for all grains.
    pub fn initialize_normal_vectors(&mut self, dirs: &Vec<Vec3>)
        requires
            old(self).wf(),
            dirs@.len() == 12,
        ensures
            final(self).wf(),
            *final(self) == (Polycrystal { normals: final(self).normals, ..*old(self) }),
            final(self).normals@.len() == old(self).n_spec(),
            forall|g: int, i: int|
                0 <= g < final(self).n_spec() && 0 <= i < 12 ==> #[trigger] final(self).normals@[g].spec_vectors()[2 * i] == dirs@[i].spec_normalize(),
            forall|g: int, i: int|
                0 <= g < final(self).n_spec() && 0 <= i < 12 ==> #[trigger] final(self).normals@[g].spec_vectors()[2 * i + 1] == dirs@[i].spec_normalize(),
    {
        let n = self.entities.len();
        let mut out: Vec<NormalVectorComponent> = Vec::new();
        let mut g: usize = 0;
        while g < n
            invariant
                g <= n,
                old(self).wf(),
                dirs@.len() == 12,
                n as int == old(self).n_spec(),
                *self == (Polycrystal { normals: self.normals, ..*old(self) }),
                out@.len() == g,
                forall|a: int| 0 <= a < g ==> (#[trigger] out@[a]).wf(),
                forall|a: int, i: int|
                    0 <= a < g && 0 <= i < 12 ==> #[trigger] out@[a].spec_vectors()[2 * i]
                        == dirs@[i].spec_normalize(),
                forall|a: int, i: int|
                    0 <= a < g && 0 <= i < 12 ==> #[trigger] out@[a].spec_vectors()[2 * i + 1]
                        == dirs@[i].spec_normalize(),
            decreases n - g,
        {
            out.push(normals_from_directions(dirs));
            g = g + 1;
        }
        self.normals = out;
    }

    /// Schmid tensors of every grain: the outer product of the stored
    /// Burgers direction and slip-plane normal of each system.
    pub fn initialize_bn(&mut self)
        requires
            old(self).wf(),
        ensures
            final(self).wf(),
            *final(self) == (Polycrystal { bn: final(self).bn, ..*old(self) }),
            final(self).bn@.len() == old(self).n_spec(),
            forall|g: int, s: int|
                0 <= g < final(self).n_spec() && 0 <= s < NUM_SLIP ==> #[trigger] final(self).bn@[g].spec_matrices()[s] == old(self).burgers@[g].spec_vectors()[s].spec_outer(
                    old(self).normals@[g].spec_vectors()[s],
                ),
    {
        let n = self.entities.len();
        let mut out: Vec<BNComponent> = Vec::new();
        let mut g: usize = 0;
        while g < n
            invariant
                g <= n,
                old(self).wf(),
                n as int == old(self).n_spec(),
                *self == (Polycrystal { bn: self.bn, ..*old(self) }),
                out@.len() == g,
                forall|a: int| 0 <= a < g ==> (#[trigger] out@[a]).wf(),
                forall|a: int, s: int|
                    0 <= a < g && 0 <= s < NUM_SLIP ==> #[trigger] out@[a].spec_matrices()[s]
                        == old(self).burgers@[a].spec_vectors()[s].spec_outer(
                        old(self).normals@[a].spec_vectors()[s],
                    ),
            decreases n - g,
        {
            out.push(BNComponent::compute_from(&self.burgers[g], &self.normals[g]));
            g = g + 1;
        }
        self.bn = out;
    }
}

impl Polycrystal {
    /// One step's crystal-frame velocity gradient of grain g, over the
    /// pre-step state: R^T * L * R.
    pub open spec fn step_grad_v(self, l: Mat3, g: int) -> Mat3 {
        self.rotation@[g].spec_tensor().spec_transpose().spec_mul(l).spec_mul(
            self.rotation@[g].spec_tensor(),
        )
    }

    /// One step's strain rate of grain g: the symmetric part of the
    /// crystal-frame velocity gradient.
    pub open spec fn step_d(self, l: Mat3, g: int) -> Mat3 {
        self.step_grad_v(l, g).spec_sym()
    }

    /// One step's resolved shear stress of grain g, system s, from the
    /// pre-step stress.
    pub open spec fn step_tau(self, g: int, s: int) -> int {
        spec_tau_entry(self.bn@[g].spec_matrices()[s], self.sigma@[g].spec_tensor())
    }

    /// One step's slip rate of grain g, system s.
    pub open spec fn step_gamma_rate(self, g: int, s: int) -> int {
        spec_gamma_rate_entry(
            self.step_tau(g, s),
            self.tau_c@[g].spec_values()[s] as int,
            self.params.gamma_0 as int,
            self.params.m_exp as nat,
        )
    }

    /// One step's slip rates of grain g as a 24-vector.
    pub open spec fn step_gamma_rate_seq(self, g: int) -> Seq<i64> {
        Seq::new(NUM_SLIP as nat, |s: int| self.step_gamma_rate(g, s) as i64)
    }

    /// One step's accumulated slip shear of grain g, system s.
    pub open spec fn step_gamma(self, g: int, s: int) -> int {
        spec_gamma_entry(
            self.gamma@[g].spec_values()[s] as int,
            self.step_gamma_rate(g, s),
            self.params.dt as int,
        )
    }

    /// One step's hardening-interaction row k of grain g, over the
    /// pre-step critical stresses.
    pub open spec fn step_h_row(self, g: int, k: int) -> Seq<i64> {
        Seq::new(
            NUM_SLIP as nat,
            |j: int|
                spec_h_matrix_entry(
                    spec_h_entry(
                        self.tau_c@[g].spec_values()[j] as int,
                        self.params.tau_sat as int,
                        self.params.h0 as int,
                        self.params.a_exp as nat,
                    ),
                    k == j,
                    self.params.qlat as int,
                ) as i64,
        )
    }

    /// One step's critical-stress rate of grain g, system k.
    pub open spec fn step_tauc_rate(self, g: int, k: int) -> int {
        spec_tauc_rate_entry(self.step_h_row(g, k), self.step_gamma_rate_seq(g), k)
    }

    /// One step's critical shear stress of grain g, system k.
    pub open spec fn step_tauc(self, g: int, k: int) -> int {
        spec_tauc_entry(
            self.tau_c@[g].spec_values()[k] as int,
            self.step_tauc_rate(g, k),
            self.params.dt as int,
        )
    }

    /// One step's plastic strain rate of grain g.
    pub open spec fn step_din(self, g: int) -> Mat3 {
        spec_din_partial(self.bn@[g].spec_matrices(), self.step_gamma_rate_seq(g), NUM_SLIP as nat)
    }

    /// One step's elastic strain rate of grain g.
    pub open spec fn step_de(self, l: Mat3, g: int) -> Mat3 {
        self.step_d(l, g).spec_sub(self.step_din(g))
    }

    /// One step's stress-rate 6-vector of grain g by Hooke's law.
    pub open spec fn step_sigma_rate(self, l: Mat3, g: int) -> Voigt6 {
        self.elasticity@[g].spec_apply(crate::tensor::spec_voigt_of(self.step_de(l, g)))
    }

    /// One step's integrated stress of grain g.
    pub open spec fn step_sigma(self, l: Mat3, g: int) -> Mat3 {
        self.sigma@[g].spec_tensor().spec_add(
            crate::tensor::spec_mat_of(self.step_sigma_rate(l, g)).spec_scale(self.params.dt as int),
        )
    }

    /// One step's integrated strain of grain g.
    pub open spec fn step_eps(self, l: Mat3, g: int) -> Mat3 {
        self.eps@[g].spec_tensor().spec_add(self.step_d(l, g).spec_scale(self.params.dt as int))
    }

    /// One step's stored-energy rate of grain g: the unit-rescaled new
    /// stress contracted with the plastic strain rate.
    pub open spec fn step_est_rate(self, l: Mat3, g: int) -> int {
        s_mul(
            self.params.alfa as int,
            self.step_sigma(l, g).spec_scale(self.params.sigma_unit_scale as int).spec_ddot(
                self.step_din(g),
            ),
        )
    }

    /// One step's integrated stored energy of grain g.
    pub open spec fn step_est(self, l: Mat3, g: int) -> int {
        s_add(
            self.est@[g].spec_value() as int,
            s_mul(self.step_est_rate(l, g), self.params.dt as int),
        )
    }
}

} // verus!
