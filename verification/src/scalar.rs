//! A native field scalar, held as plain limbs.
//!
//! The extraction layer never computes with field elements; it only moves
//! them and must be able to produce the additive identity as a placeholder.
//! A scalar is therefore carried as its canonical (fully reduced)
//! little-endian 64-bit limbs, which is all the downstream consumers of a
//! witness read of it.

use vstd::prelude::*;

verus! {

/// A native field scalar in canonical form: four 64-bit limbs,
/// least significant first.
#[derive(Clone, Copy, Debug, PartialEq, Eq, Structural)]
pub struct FieldScalar {
    pub l0: u64,
    pub l1: u64,
    pub l2: u64,
    pub l3: u64,
}

impl FieldScalar {
    /// The additive identity: every limb is zero.
    pub open spec fn zero_spec() -> FieldScalar {
        FieldScalar { l0: 0, l1: 0, l2: 0, l3: 0 }
    }

    /// Builds the additive identity of the field.
    pub fn zero() -> (r: FieldScalar)
        ensures
            r == FieldScalar::zero_spec(),
    {
        FieldScalar { l0: 0, l1: 0, l2: 0, l3: 0 }
    }
}

} // verus!
