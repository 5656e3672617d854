//! Polycrystal elasto-visco-plasticity core.
//!
//! Per-grain constitutive and micro-structural evolution for an FCC
//! polycrystal: crystallographic slip, strain hardening, anisotropic
//! elasticity, stored-energy accumulation and dynamic-recrystallization
//! nucleation, advanced by explicit time integration.
//!
//! All state is held in fixed-point scalars (`fx`): signed 64-bit values
//! scaled by one billion, with saturating arithmetic. Every operation has an
//! exact integer-level contract, so the whole pipeline is verified down to
//! the scalar ops.

pub mod fx;
pub mod fxmath;
pub mod tensor;
pub mod entity;
pub mod rotation;
pub mod elasticity;
pub mod slide_system;
pub mod recrystallization;
pub mod random;
pub mod polycrystal;
pub mod base;
