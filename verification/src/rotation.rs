//! Per-grain orientation state.
//!
//! The rotation tensor maps the crystal frame to the sample frame. Every
//! write is checked for orthogonality within 1e-5; a failing write is
//! rejected and leaves the stored tensor untouched, so a corrupted
//! rotation can never propagate through the pipeline.

use vstd::prelude::*;
use crate::tensor::{Mat3, Vec3};
use crate::fx::FX_ONE;

verus! {

/// Per-grain rotation tensor (crystal to sample frame), orthogonal within
/// [`crate::tensor::ORTHO_TOL`] whenever it was written through
/// `set_matrix`; a fresh component holds the identity.
#[derive(Clone, Copy, PartialEq, Eq, Structural, Debug)]
pub struct RotationComponent {
    tensor_form: Mat3,
}

impl RotationComponent {
    /// A fresh component holding the identity orientation.
    pub fn new() -> (r: RotationComponent)
        ensures
            r.spec_tensor() == Mat3::spec_identity(),
    {
        RotationComponent { tensor_form: Mat3::identity() }
    }

    /// Install a rotation; rejected (and the stored tensor unchanged) when
    /// the matrix is not orthogonal within tolerance.
    pub fn set_matrix(&mut self, matrix: Mat3) -> (r: Result<(), &'static str>)
        ensures
            matrix.spec_is_orthogonal() ==> r is Ok && final(self).spec_tensor() == matrix,
            !matrix.spec_is_orthogonal() ==> r is Err && *final(self) == *old(self),
    {
        if matrix.is_orthogonal() {
            self.tensor_form = matrix;
            Ok(())
        } else {
            Err("matrix is not orthogonal")
        }
    }

    /// The stored rotation.
    pub fn get_tensor(&self) -> (r: Mat3)
        ensures
            r == self.spec_tensor(),
    {
        self.tensor_form
    }

    /// The stored rotation (specification view).
    pub closed spec fn spec_tensor(self) -> Mat3 {
        self.tensor_form
    }
}

/// Per-grain incremental rotation over one step (optional lattice-spin
/// extension path). Writes are guarded exactly as for the rotation itself.
#[derive(Clone, Copy, PartialEq, Eq, Structural, Debug)]
pub struct RotationRateComponent {
    tensor_form: Mat3,
}

impl RotationRateComponent {
    /// A fresh component holding the identity.
    pub fn new() -> (r: RotationRateComponent)
        ensures
            r.spec_tensor() == Mat3::spec_identity(),
    {
        RotationRateComponent { tensor_form: Mat3::identity() }
    }

    /// Install an incremental rotation; rejected when not orthogonal.
    pub fn set_tensor(&mut self, tensor: Mat3) -> (r: Result<(), &'static str>)
        ensures
            tensor.spec_is_orthogonal() ==> r is Ok && final(self).spec_tensor() == tensor,
            !tensor.spec_is_orthogonal() ==> r is Err && *final(self) == *old(self),
    {
        if tensor.is_orthogonal() {
            self.tensor_form = tensor;
            Ok(())
        } else {
            Err("tensor is not orthogonal")
        }
    }

    /// The stored tensor.
    pub fn get_tensor(&self) -> (r: Mat3)
        ensures
            r == self.spec_tensor(),
    {
        self.tensor_form
    }

    /// The stored tensor (specification view).
    pub closed spec fn spec_tensor(self) -> Mat3 {
        self.tensor_form
    }
}

/// Per-grain lattice spin (optional extension path). Writes are guarded
/// by the same orthogonality check as rotation writes.
#[derive(Clone, Copy, PartialEq, Eq, Structural, Debug)]
pub struct SpinComponent {
    tensor_form: Mat3,
}

impl SpinComponent {
    /// A fresh component holding the identity.
    pub fn new() -> (r: SpinComponent)
        ensures
            r.spec_tensor() == Mat3::spec_identity(),
    {
        SpinComponent { tensor_form: Mat3::identity() }
    }

    /// Install a spin tensor; rejected when not orthogonal.
    pub fn set_tensor(&mut self, tensor: Mat3) -> (r: Result<(), &'static str>)
        ensures
            tensor.spec_is_orthogonal() ==> r is Ok && final(self).spec_tensor() == tensor,
            !tensor.spec_is_orthogonal() ==> r is Err && *final(self) == *old(self),
    {
        if tensor.is_orthogonal() {
            self.tensor_form = tensor;
            Ok(())
        } else {
            Err("tensor is not orthogonal")
        }
    }

    /// The stored tensor.
    pub fn get_tensor(&self) -> (r: Mat3)
        ensures
            r == self.spec_tensor(),
    {
        self.tensor_form
    }

    /// The stored tensor (specification view).
    pub closed spec fn spec_tensor(self) -> Mat3 {
        self.tensor_form
    }
}

/// The three pole-figure sample directions of a grain: the unit test
/// directions of the 100, 110 and 111 poles, each mapped through the
/// grain's rotation as (v^T * R)^T.
pub fn pole_directions(rotation: &RotationComponent) -> (r: (Vec3, Vec3, Vec3))
    ensures
        r.0 == (Vec3 { x: FX_ONE, y: 0, z: 0 }).spec_normalize().spec_mul_mat(
            rotation.spec_tensor(),
        ),
        r.1 == (Vec3 { x: FX_ONE, y: FX_ONE, z: 0 }).spec_normalize().spec_mul_mat(
            rotation.spec_tensor(),
        ),
        r.2 == (Vec3 { x: FX_ONE, y: FX_ONE, z: FX_ONE }).spec_normalize().spec_mul_mat(
            rotation.spec_tensor(),
        ),
{
    let m = rotation.get_tensor();
    let v100 = Vec3 { x: FX_ONE, y: 0, z: 0 }.normalize();
    let v110 = Vec3 { x: FX_ONE, y: FX_ONE, z: 0 }.normalize();
    let v111 = Vec3 { x: FX_ONE, y: FX_ONE, z: FX_ONE }.normalize();
    (v100.mul_mat(&m), v110.mul_mat(&m), v111.mul_mat(&m))
}

} // verus!