//! Leaf circuit variables.
//!
//! A leaf variable stands for a single allocated circuit signal.  The
//! constraint system that allocates the signal lives outside this crate;
//! all this layer ever reads of a variable is its optional native
//! assignment, so a variable is carried here as exactly that: the assigned
//! value, or nothing while it is unassigned.  The adapters own no other
//! state and never mutate the circuit.

use vstd::prelude::*;

use crate::scalar::FieldScalar;
use crate::witness::CSWitnessable;

verus! {

/// A field-element variable: one circuit signal carrying a field scalar.
#[derive(Clone, Copy, Debug, PartialEq, Eq, Structural)]
pub struct FieldVar {
    /// The currently assigned scalar, if any.
    pub assigned: Option<FieldScalar>,
}

/// A boolean variable: one circuit signal constrained to a bit.
#[derive(Clone, Copy, Debug, PartialEq, Eq, Structural)]
pub struct BoolVar {
    /// The currently assigned bit, if any.
    pub assigned: Option<bool>,
}

/// A byte variable: one circuit signal constrained to eight bits.
#[derive(Clone, Copy, Debug, PartialEq, Eq, Structural)]
pub struct ByteVar {
    /// The currently assigned byte, if any.
    pub assigned: Option<u8>,
}

impl FieldVar {
    /// A variable already assigned the given scalar.
    pub fn new(value: FieldScalar) -> (r: FieldVar)
        ensures
            r.assigned == Some(value),
    {
        FieldVar { assigned: Some(value) }
    }

    /// A variable with no assignment yet.
    pub fn unassigned() -> (r: FieldVar)
        ensures
            r.assigned is None,
    {
        FieldVar { assigned: None }
    }

    /// The fallible accessor of the current assignment.
    pub fn get_value(&self) -> (r: Option<FieldScalar>)
        ensures
            r == self.assigned,
    {
        self.assigned
    }
}

impl BoolVar {
    /// A variable already assigned the given bit.
    pub fn new(value: bool) -> (r: BoolVar)
        ensures
            r.assigned == Some(value),
    {
        BoolVar { assigned: Some(value) }
    }

    /// A variable with no assignment yet.
    pub fn unassigned() -> (r: BoolVar)
        ensures
            r.assigned is None,
    {
        BoolVar { assigned: None }
    }

    /// The fallible accessor of the current assignment.
    pub fn get_value(&self) -> (r: Option<bool>)
        ensures
            r == self.assigned,
    {
        self.assigned
    }
}

impl ByteVar {
    /// A variable already assigned the given byte.
    pub fn new(value: u8) -> (r: ByteVar)
        ensures
            r.assigned == Some(value),
    {
        ByteVar { assigned: Some(value) }
    }

    /// A variable with no assignment yet.
    pub fn unassigned() -> (r: ByteVar)
        ensures
            r.assigned is None,
    {
        ByteVar { assigned: None }
    }

    /// The fallible accessor of the current assignment.
    pub fn get_value(&self) -> (r: Option<u8>)
        ensures
            r == self.assigned,
    {
        self.assigned
    }
}

impl CSWitnessable for FieldVar {
    type Witness = FieldScalar;

    type Model = FieldScalar;

    open spec fn model_of(w: &FieldScalar) -> FieldScalar {
        *w
    }

    open spec fn witness_model(&self) -> Option<FieldScalar> {
        self.assigned
    }

    /// The placeholder of a field variable is the additive identity.
    open spec fn placeholder_model() -> FieldScalar {
        FieldScalar::zero_spec()
    }

    fn create_witness(&self) -> Option<FieldScalar> {
        self.assigned
    }

    fn placeholder_witness() -> FieldScalar {
        FieldScalar::zero()
    }
}

impl CSWitnessable for BoolVar {
    type Witness = bool;

    type Model = bool;

    open spec fn model_of(w: &bool) -> bool {
        *w
    }

    open spec fn witness_model(&self) -> Option<bool> {
        self.assigned
    }

    /// The placeholder of a boolean variable is `false`.
    open spec fn placeholder_model() -> bool {
        false
    }

    fn create_witness(&self) -> Option<bool> {
        self.assigned
    }

    fn placeholder_witness() -> bool {
        false
    }
}

impl CSWitnessable for ByteVar {
    type Witness = u8;

    type Model = u8;

    open spec fn model_of(w: &u8) -> u8 {
        *w
    }

    open spec fn witness_model(&self) -> Option<u8> {
        self.assigned
    }

    /// The placeholder of a byte variable is `0`.
    open spec fn placeholder_model() -> u8 {
        0
    }

    fn create_witness(&self) -> Option<u8> {
        self.assigned
    }

    fn placeholder_witness() -> u8 {
        0
    }
}

} // verus!
