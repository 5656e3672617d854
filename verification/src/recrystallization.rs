//! Per-grain stored-energy and recrystallization state.
//!
//! Each grain accumulates a stored dislocation energy, owns a population
//! of subgrain radii sampled at creation, and carries the nucleation
//! driving force of each subgrain. Nucleation converts a subgrain into a
//! new grain when its driving force is positive and volume balance
//! permits; the grain's recrystallization status is a one-way flag set at
//! that moment.

use vstd::prelude::*;
use crate::fx::{s_mul, s_add, s_sub, s_div, s_divn, fx_mul, fx_add, fx_sub, fx_div, fx_divn};
use crate::fxmath::{cbrt_floor, fx_cbrt};

verus! {

/// Four pi in fixed point.
pub const FX_FOUR_PI: i64 = 12_566_370_614;

/// Numerically negligible radius a consumed subgrain is reset to: the
/// smallest positive scalar, so its boundary-curvature penalty saturates
/// and the subgrain never nucleates again.
pub const SUBGRAIN_FLOOR: i64 = 1;

/// Per-grain equivalent radius.
#[derive(Clone, Copy, PartialEq, Eq, Structural, Debug)]
pub struct GrainSizeComponent {
    value: i64,
}

impl GrainSizeComponent {
    /// A fresh component holding zero.
    pub fn new() -> (r: GrainSizeComponent)
        ensures
            r.spec_value() == 0,
    {
        GrainSizeComponent { value: 0 }
    }

    /// Install a radius.
    pub fn set_value(&mut self, value: i64)
        ensures
            final(self).spec_value() == value,
    {
        self.value = value;
    }

    /// The stored radius.
    pub fn get_value(&self) -> (r: i64)
        ensures
            r == self.spec_value(),
    {
        self.value
    }

    /// The stored radius (specification view).
    pub closed spec fn spec_value(self) -> i64 {
        self.value
    }
}

/// Per-grain accumulated stored energy density.
#[derive(Clone, Copy, PartialEq, Eq, Structural, Debug)]
pub struct AccumEnergyComponent {
    value: i64,
}

impl AccumEnergyComponent {
    /// A fresh component holding zero.
    pub fn new() -> (r: AccumEnergyComponent)
        ensures
            r.spec_value() == 0,
    {
        AccumEnergyComponent { value: 0 }
    }

    /// Install an energy value.
    pub fn set_value(&mut self, value: i64)
        ensures
            final(self).spec_value() == value,
    {
        self.value = value;
    }

    /// The stored energy.
    pub fn get_value(&self) -> (r: i64)
        ensures
            r == self.spec_value(),
    {
        self.value
    }

    /// The stored energy (specification view).
    pub closed spec fn spec_value(self) -> i64 {
        self.value
    }
}

/// Per-grain stored-energy rate.
#[derive(Clone, Copy, PartialEq, Eq, Structural, Debug)]
pub struct AccumEnergyRateComponent {
    value: i64,
}

impl AccumEnergyRateComponent {
    /// A fresh component holding zero.
    pub fn new() -> (r: AccumEnergyRateComponent)
        ensures
            r.spec_value() == 0,
    {
        AccumEnergyRateComponent { value: 0 }
    }

    /// Install a rate.
    pub fn set_value(&mut self, value: i64)
        ensures
            final(self).spec_value() == value,
    {
        self.value = value;
    }

    /// The stored rate.
    pub fn get_value(&self) -> (r: i64)
        ensures
            r == self.spec_value(),
    {
        self.value
    }

    /// The stored rate (specification view).
    pub closed spec fn spec_value(self) -> i64 {
        self.value
    }
}

/// Per-grain population of subgrain radii, sampled once at grain creation.
#[derive(PartialEq, Eq, Debug)]
pub struct SubGrainsComponent {
    vector: Vec<i64>,
}

impl SubGrainsComponent {
    /// A fresh, empty population.
    pub fn new() -> (r: SubGrainsComponent)
        ensures
            r.spec_values() =~= Seq::<i64>::empty(),
    {
        SubGrainsComponent { vector: Vec::new() }
    }

    /// A population holding exactly the given radii.
    pub fn from_values(values: Vec<i64>) -> (r: SubGrainsComponent)
        ensures
            r.spec_values() == values@,
    {
        SubGrainsComponent { vector: values }
    }

    /// Overwrite one radius; an out-of-range index is ignored.
    pub fn set_value(&mut self, index: usize, value: i64)
        ensures
            index < old(self).spec_values().len() ==> final(self).spec_values()
                == old(self).spec_values().update(index as int, value),
            index >= old(self).spec_values().len() ==> *final(self) == *old(self),
    {
        if index < self.vector.len() {
            self.vector.set(index, value);
        }
    }

    /// Append one radius.
    pub fn push_value(&mut self, value: i64)
        ensures
            final(self).spec_values() == old(self).spec_values().push(value),
    {
        self.vector.push(value);
    }

    /// A copy of the population with one radius replaced.
    pub fn with_updated(&self, index: usize, value: i64) -> (r: SubGrainsComponent)
        requires
            index < self.spec_values().len(),
        ensures
            r.spec_values() =~= self.spec_values().update(index as int, value),
    {
        let len = self.vector.len();
        let mut vector: Vec<i64> = Vec::new();
        let mut i: usize = 0;
        while i < len
            invariant
                i <= len,
                len == self.spec_values().len(),
                index < len,
                vector@.len() == i,
                forall|j: int|
                    0 <= j < i ==> vector@[j] == (if j == index {
                        value
                    } else {
                        self.spec_values()[j]
                    }),
            decreases len - i,
        {
            if i == index {
                vector.push(value);
            } else {
                vector.push(self.vector[i]);
            }
            i = i + 1;
        }
        SubGrainsComponent { vector }
    }

    /// One radius, `None` out of range.
    pub fn get_value(&self, index: usize) -> (r: Option<i64>)
        ensures
            index < self.spec_values().len() ==> r == Some(self.spec_values()[index as int]),
            index >= self.spec_values().len() ==> r is None,
    {
        if index < self.vector.len() {
            Some(self.vector[index])
        } else {
            None
        }
    }

    /// The population size.
    pub fn len(&self) -> (r: usize)
        ensures
            r == self.spec_values().len(),
    {
        self.vector.len()
    }

    /// The stored radii (specification view).
    pub closed spec fn spec_values(self) -> Seq<i64> {
        self.vector@
    }
}

/// Per-grain nucleation driving force, aligned with the subgrain
/// population.
#[derive(PartialEq, Eq, Debug)]
pub struct DriveForceRecrComponent {
    vector: Vec<i64>,
}

impl DriveForceRecrComponent {
    /// A fresh, empty list.
    pub fn new() -> (r: DriveForceRecrComponent)
        ensures
            r.spec_values() =~= Seq::<i64>::empty(),
    {
        DriveForceRecrComponent { vector: Vec::new() }
    }

    /// A list holding exactly the given entries.
    pub fn from_values(values: Vec<i64>) -> (r: DriveForceRecrComponent)
        ensures
            r.spec_values() == values@,
    {
        DriveForceRecrComponent { vector: values }
    }

    /// A list of the given length, all zero.
    pub fn zeros(len: usize) -> (r: DriveForceRecrComponent)
        ensures
            r.spec_values().len() == len,
            forall|i: int| 0 <= i < len ==> r.spec_values()[i] == 0i64,
    {
        let mut vector: Vec<i64> = Vec::new();
        let mut i: usize = 0;
        while i < len
            invariant
                i <= len,
                vector@.len() == i,
                forall|j: int| 0 <= j < i ==> vector@[j] == 0i64,
            decreases len - i,
        {
            vector.push(0);
            i = i + 1;
        }
        DriveForceRecrComponent { vector }
    }

    /// Overwrite one entry; an out-of-range index is ignored.
    pub fn set_value(&mut self, index: usize, value: i64)
        ensures
            index < old(self).spec_values().len() ==> final(self).spec_values()
                == old(self).spec_values().update(index as int, value),
            index >= old(self).spec_values().len() ==> *final(self) == *old(self),
    {
        if index < self.vector.len() {
            self.vector.set(index, value);
        }
    }

    /// Append one entry.
    pub fn push_value(&mut self, value: i64)
        ensures
            final(self).spec_values() == old(self).spec_values().push(value),
    {
        self.vector.push(value);
    }

    /// One entry, `None` out of range.
    pub fn get_value(&self, index: usize) -> (r: Option<i64>)
        ensures
            index < self.spec_values().len() ==> r == Some(self.spec_values()[index as int]),
            index >= self.spec_values().len() ==> r is None,
    {
        if index < self.vector.len() {
            Some(self.vector[index])
        } else {
            None
        }
    }

    /// The list length.
    pub fn len(&self) -> (r: usize)
        ensures
            r == self.spec_values().len(),
    {
        self.vector.len()
    }

    /// The stored entries (specification view).
    pub closed spec fn spec_values(self) -> Seq<i64> {
        self.vector@
    }
}

/// Per-grain whole-crystal nucleation driving force (grain-boundary
/// migration extension path).
#[derive(Clone, Copy, PartialEq, Eq, Structural, Debug)]
pub struct DriveForceRecrCrystComponent {
    value: i64,
}

impl DriveForceRecrCrystComponent {
    /// A fresh component holding zero.
    pub fn new() -> (r: DriveForceRecrCrystComponent)
        ensures
            r.spec_value() == 0,
    {
        DriveForceRecrCrystComponent { value: 0 }
    }

    /// Install a value.
    pub fn set_value(&mut self, value: i64)
        ensures
            final(self).spec_value() == value,
    {
        self.value = value;
    }

    /// The stored value.
    pub fn get_value(&self) -> (r: i64)
        ensures
            r == self.spec_value(),
    {
        self.value
    }

    /// The stored value (specification view).
    pub closed spec fn spec_value(self) -> i64 {
        self.value
    }
}

/// Per-grain grain-boundary facet mobility (extension path).
#[derive(Clone, Copy, PartialEq, Eq, Structural, Debug)]
pub struct FacetMobilityComponent {
    value: i64,
}

impl FacetMobilityComponent {
    /// A fresh component holding zero.
    pub fn new() -> (r: FacetMobilityComponent)
        ensures
            r.spec_value() == 0,
    {
        FacetMobilityComponent { value: 0 }
    }

    /// Install a mobility.
    pub fn set_value(&mut self, value: i64)
        ensures
            final(self).spec_value() == value,
    {
        self.value = value;
    }

    /// The stored mobility.
    pub fn get_value(&self) -> (r: i64)
        ensures
            r == self.spec_value(),
    {
        self.value
    }

    /// The stored mobility (specification view).
    pub closed spec fn spec_value(self) -> i64 {
        self.value
    }
}

/// Per-grain facet migration velocity (extension path).
#[derive(Clone, Copy, PartialEq, Eq, Structural, Debug)]
pub struct VelocityFacetComponent {
    value: i64,
}

impl VelocityFacetComponent {
    /// A fresh component holding zero.
    pub fn new() -> (r: VelocityFacetComponent)
        ensures
            r.spec_value() == 0,
    {
        VelocityFacetComponent { value: 0 }
    }

    /// Install a velocity.
    pub fn set_value(&mut self, value: i64)
        ensures
            final(self).spec_value() == value,
    {
        self.value = value;
    }

    /// The stored velocity.
    pub fn get_value(&self) -> (r: i64)
        ensures
            r == self.spec_value(),
    {
        self.value
    }

    /// The stored velocity (specification view).
    pub closed spec fn spec_value(self) -> i64 {
        self.value
    }
}

/// Per-grain recrystallization status: false for an original grain, true
/// once the grain is a recrystallization product. The flag is one-way.
#[derive(Clone, Copy, PartialEq, Eq, Structural, Debug)]
pub struct StatusRecrystComponent {
    value: bool,
}

impl StatusRecrystComponent {
    /// A fresh component: not yet recrystallized.
    pub fn new() -> (r: StatusRecrystComponent)
        ensures
            r.spec_value() == false,
    {
        StatusRecrystComponent { value: false }
    }

    /// Install the flag.
    pub fn set_value(&mut self, value: bool)
        ensures
            final(self).spec_value() == value,
    {
        self.value = value;
    }

    /// The stored flag.
    pub fn get_value(&self) -> (r: bool)
        ensures
            r == self.spec_value(),
    {
        self.value
    }

    /// The stored flag (specification view).
    pub closed spec fn spec_value(self) -> bool {
        self.value
    }
}

/// Transient list of radii nucleated within the current step, cleared
/// after the new grains are created.
#[derive(PartialEq, Eq, Debug)]
pub struct NewGrainsComponent {
    vector: Vec<i64>,
}

impl NewGrainsComponent {
    /// A fresh, empty list.
    pub fn new() -> (r: NewGrainsComponent)
        ensures
            r.spec_values() =~= Seq::<i64>::empty(),
    {
        NewGrainsComponent { vector: Vec::new() }
    }

    /// Append one nucleated radius.
    pub fn push_value(&mut self, value: i64)
        ensures
            final(self).spec_values() == old(self).spec_values().push(value),
    {
        self.vector.push(value);
    }

    /// One radius, `None` out of range.
    pub fn get_value(&self, index: usize) -> (r: Option<i64>)
        ensures
            index < self.spec_values().len() ==> r == Some(self.spec_values()[index as int]),
            index >= self.spec_values().len() ==> r is None,
    {
        if index < self.vector.len() {
            Some(self.vector[index])
        } else {
            None
        }
    }

    /// The list length.
    pub fn len(&self) -> (r: usize)
        ensures
            r == self.spec_values().len(),
    {
        self.vector.len()
    }

    /// Drop all entries.
    pub fn clear(&mut self)
        ensures
            final(self).spec_values() =~= Seq::<i64>::empty(),
    {
        self.vector = Vec::new();
    }

    /// The stored radii (specification view).
    pub closed spec fn spec_values(self) -> Seq<i64> {
        self.vector@
    }
}

/// Three times a scalar, saturating.
pub open spec fn s_triple(x: int) -> int {
    s_add(s_add(x, x), x)
}

/// Three times a scalar, saturating.
pub fn fx_triple(x: i64) -> (r: i64)
    ensures
        r as int == s_triple(x as int),
{
    fx_add(fx_add(x, x), x)
}

/// Nucleation driving force of one subgrain: the polycrystal mean stored
/// energy minus the boundary-curvature penalty 3*egb/r.
pub open spec fn spec_drive_force(est_mean: int, egb: int, r: int) -> int {
    s_sub(est_mean, s_div(s_triple(egb), r))
}

/// Nucleation driving force of one subgrain.
pub fn compute_drive_force(est_mean: i64, egb: i64, r: i64) -> (d: i64)
    ensures
        d as int == spec_drive_force(est_mean as int, egb as int, r as int),
{
    fx_sub(est_mean, fx_div(fx_triple(egb), r))
}

/// Equivalent sphere volume 4*pi*r^3/3 of a radius.
pub open spec fn spec_volume(r: int) -> int {
    s_divn(s_mul(FX_FOUR_PI as int, s_mul(s_mul(r, r), r)), 3)
}

/// Equivalent sphere volume 4*pi*r^3/3 of a radius.
pub fn compute_volume(r: i64) -> (v: i64)
    ensures
        v as int == spec_volume(r as int),
{
    fx_divn(fx_mul(FX_FOUR_PI, fx_mul(fx_mul(r, r), r)), 3)
}

/// The radius whose sphere volume is v: the cube root of v*3/(4*pi) at
/// fixed-point resolution.
pub open spec fn spec_radius_of_volume(v: int) -> int {
    cbrt_floor(s_div(s_mul(v, 3 * crate::fx::FX_ONE), FX_FOUR_PI as int) * crate::fx::FX_ONE
        * crate::fx::FX_ONE)
}

/// The radius whose sphere volume is v (zero for a non-positive volume:
/// the degenerate case is guarded).
pub fn compute_radius_of_volume(v: i64) -> (r: i64)
    ensures
        r >= 0,
        s_div(s_mul(v as int, 3 * crate::fx::FX_ONE), FX_FOUR_PI as int) >= 0 ==> r as int
            == spec_radius_of_volume(v as int),
        s_div(s_mul(v as int, 3 * crate::fx::FX_ONE), FX_FOUR_PI as int) < 0 ==> r == 0,
{
    let scaled = fx_div(fx_mul(v, 3 * crate::fx::FX_ONE), FX_FOUR_PI);
    if scaled < 0 {
        0
    } else {
        fx_cbrt(scaled)
    }
}

/// A sphere volume of a non-negative radius is non-negative.
pub proof fn lemma_volume_nonneg(r: int)
    requires
        0 <= r,
    ensures
        0 <= spec_volume(r),
{
    crate::fx::lemma_s_mul_nonneg(r, r);
    crate::fx::lemma_s_mul_nonneg(s_mul(r, r), r);
    crate::fx::lemma_s_mul_nonneg(FX_FOUR_PI as int, s_mul(s_mul(r, r), r));
    crate::fx::lemma_s_divn_nonneg(s_mul(FX_FOUR_PI as int, s_mul(s_mul(r, r), r)), 3);
}

/// Volume conservation at nucleation: when the parent volume minus the
/// subgrain volume is positive (the event is accepted), the remaining
/// parent volume plus the nucleated grain's volume equals the parent
/// volume before the event, exactly.
pub proof fn lemma_nucleation_volume_conservation(gr: int, sub: int)
    requires
        0 <= gr <= i64::MAX as int,
        0 <= sub <= i64::MAX as int,
        s_sub(spec_volume(gr), spec_volume(sub)) > 0,
    ensures
        s_sub(spec_volume(gr), spec_volume(sub)) + spec_volume(sub) == spec_volume(gr),
{
    lemma_volume_nonneg(gr);
    lemma_volume_nonneg(sub);
}

/// The parent radius after an accepted nucleation: the radius of the
/// remaining volume, when that volume is positive.
pub fn try_nucleate(gr: i64, sub_r: i64) -> (r: Option<i64>)
    requires
        0 <= gr,
        0 <= sub_r,
    ensures
        (r is Some) <==> s_sub(spec_volume(gr as int), spec_volume(sub_r as int)) > 0,
        r matches Some(nr) ==> {
            let diff = s_sub(spec_volume(gr as int), spec_volume(sub_r as int));
            &&& 0 <= nr
            &&& nr as int == spec_radius_of_volume(diff)
        },
{
    let vg = compute_volume(gr);
    let vs = compute_volume(sub_r);
    let diff = fx_sub(vg, vs);
    if diff > 0 {
        proof {
            crate::fx::lemma_s_mul_nonneg(diff as int, 3 * crate::fx::FX_ONE as int);
            crate::fx::lemma_s_mul_nonneg(
                s_mul(diff as int, 3 * crate::fx::FX_ONE as int),
                crate::fx::FX_ONE as int,
            );
            vstd::arithmetic::div_mod::lemma_div_is_ordered(
                0,
                (s_mul(diff as int, 3 * crate::fx::FX_ONE as int)) * (crate::fx::FX_ONE as int),
                FX_FOUR_PI as int,
            );
        }
        Some(compute_radius_of_volume(diff))
    } else {
        None
    }
}

/// Energy-monotonicity law: one explicit stored-energy step with a
/// non-negative rate and step size never decreases the accumulated
/// energy.
pub proof fn lemma_energy_monotone(est: int, rate: int, dt: int)
    requires
        i64::MIN as int <= est <= i64::MAX as int,
        0 <= rate,
        0 <= dt,
    ensures
        s_add(est, s_mul(rate, dt)) >= est,
{
    crate::fx::lemma_s_mul_nonneg(rate, dt);
}

/// Fill one subgrain component with a fresh Rayleigh population of the
/// given size (used when a single grain's population is re-created).
pub fn get_subgrains(
    rng: &mut rand::rngs::StdRng,
    subgrains_component: &mut SubGrainsComponent,
    r0: i64,
    num: usize,
)
    requires
        0 <= r0 <= 100_000_000_000_000,
        num <= 1_000_000,
    ensures
        final(subgrains_component).spec_values().len() == old(subgrains_component).spec_values().len() + num,
        forall|i: int|
            0 <= i < old(subgrains_component).spec_values().len() ==> #[trigger] final(subgrains_component).spec_values()[i] == old(subgrains_component).spec_values()[i],
        forall|i: int|
            old(subgrains_component).spec_values().len() <= i < final(subgrains_component).spec_values().len() ==> #[trigger] final(subgrains_component).spec_values()[i] >= 0,
        r0 > 0 ==> forall|i: int|
            old(subgrains_component).spec_values().len() <= i < final(subgrains_component).spec_values().len() ==> #[trigger] final(subgrains_component).spec_values()[i] < 10
                * r0,
{
    let values = crate::random::get_distr_rayleigh(rng, num, r0);
    let mut i: usize = 0;
    while i < values.len()
        invariant
            i <= values@.len(),
            values@.len() == num,
            forall|j: int| 0 <= j < values@.len() ==> values@[j] >= 0,
            r0 > 0 ==> forall|j: int| 0 <= j < values@.len() ==> values@[j] < 10 * r0,
            subgrains_component.spec_values().len() == old(subgrains_component).spec_values().len() + i,
            forall|j: int|
                0 <= j < old(subgrains_component).spec_values().len() ==> #[trigger] subgrains_component.spec_values()[j] == old(subgrains_component).spec_values()[j],
            forall|j: int|
                old(subgrains_component).spec_values().len() <= j
                    < subgrains_component.spec_values().len()
                    ==> #[trigger] subgrains_component.spec_values()[j] >= 0,
            r0 > 0 ==> forall|j: int|
                old(subgrains_component).spec_values().len() <= j
                    < subgrains_component.spec_values().len()
                    ==> #[trigger] subgrains_component.spec_values()[j] < 10 * r0,
        decreases values.len() - i,
    {
        subgrains_component.push_value(values[i]);
        i = i + 1;
    }
}

} // verus!
