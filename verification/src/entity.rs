//! Grain identity.
//!
//! A grain is an opaque, totally-ordered, hashable integer identifier; all
//! state lives in component tables keyed by it. The population only grows.

use vstd::prelude::*;

verus! {

/// Identity of one crystal grain.
#[derive(Clone, Copy, PartialEq, Eq, Structural, Hash, Debug)]
pub struct CrystalEntity {
    id: u32,
}

impl CrystalEntity {
    /// A grain identity with the given number.
    pub fn new(id: u32) -> (r: CrystalEntity)
        ensures
            r.spec_id() == id,
    {
        CrystalEntity { id }
    }

    /// The identity's number.
    pub fn get_id(&self) -> (r: u32)
        ensures
            r == self.spec_id(),
    {
        self.id
    }

    /// The identity's number (specification view).
    pub closed spec fn spec_id(self) -> u32 {
        self.id
    }
}

} // verus!
