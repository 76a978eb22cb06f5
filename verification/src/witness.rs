//! The witness contract.
//!
//! A circuit-representable type associates exactly one native value type
//! with itself and offers two operations: `create_witness`, the fallible,
//! all-or-nothing snapshot of the current assignment, and
//! `placeholder_witness`, the total, canonical stand-in used when no
//! assignment exists.  Both are specified against a mathematical model of
//! the native value, so composite implementations can be proved to mirror
//! the shape of their parts exactly.

use vstd::prelude::*;

verus! {

/// The capability every circuit-representable type implements.
///
/// `Witness` is the native value type: the unit value for the unit type, a
/// native scalar, boolean or byte for the leaf variables, and the same
/// composite shape over element witnesses for sequences.  Every witness
/// type this crate produces can be compared, printed and duplicated
/// freely.  `Model` is the mathematical view of a native value; contracts
/// are stated over it.
///
/// `create_witness` returns the assigned native value, or `None` as soon as
/// any leaf reachable from `self` is unassigned; no partially populated
/// value is ever produced.  `placeholder_witness` never fails and depends
/// on nothing but the type: its result always has the model
/// `placeholder_model()`, so two calls agree.
pub trait CSWitnessable: Sized {
    /// The native value type extraction produces.
    type Witness;

    /// The mathematical model of a native value.
    type Model;

    /// The model of a concrete native value.
    spec fn model_of(w: &Self::Witness) -> Self::Model;

    /// The current assignment at the model level: `Some` exactly when every
    /// leaf reachable from `self` is assigned.
    spec fn witness_model(&self) -> Option<Self::Model>;

    /// The model of the canonical placeholder value.
    spec fn placeholder_model() -> Self::Model;

    /// Extracts the currently assigned native value, all-or-nothing.
    fn create_witness(&self) -> (r: Option<Self::Witness>)
        ensures
            r is Some <==> self.witness_model() is Some,
            r matches Some(w) ==> Self::model_of(&w) == self.witness_model()->0,
    ;

    /// Produces the canonical placeholder native value.
    fn placeholder_witness() -> (r: Self::Witness)
        ensures
            Self::model_of(&r) == Self::placeholder_model(),
    ;
}

impl CSWitnessable for () {
    type Witness = ();

    type Model = ();

    open spec fn model_of(w: &()) -> () {
        ()
    }

    open spec fn witness_model(&self) -> Option<()> {
        Some(())
    }

    open spec fn placeholder_model() -> () {
        ()
    }

    fn create_witness(&self) -> Option<()> {
        Some(())
    }

    fn placeholder_witness() -> () {
        ()
    }
}

} // verus!
