//! Laws of the witness contract.
//!
//! These proof functions state, over the models that the contracts of
//! `CSWitnessable` use, the guarantees callers build on: placeholders are
//! deterministic, fixed-size extraction is shape-exact and short-circuits
//! on any absent element, growable extraction preserves length and order
//! while its placeholder is always empty, and the rules compose through
//! nesting.

use vstd::prelude::*;

use crate::witness::CSWitnessable;

verus! {

/// Placeholder generation is deterministic: any two placeholder values of
/// one witnessable type agree at the model level.  (It has no failure
/// channel at all: `placeholder_witness` returns a witness, never an
/// optional one.)
pub proof fn lemma_placeholder_deterministic<T: CSWitnessable>(w1: T::Witness, w2: T::Witness)
    requires
        T::model_of(&w1) == T::placeholder_model(),
        T::model_of(&w2) == T::placeholder_model(),
    ensures
        T::model_of(&w1) == T::model_of(&w2),
{
}

/// If every element of a fixed-size array is assigned, the array extracts
/// to exactly its static arity `N`, element `i` being element `i`'s own
/// extracted value.
pub proof fn lemma_fixed_extracts_all_assigned<T: CSWitnessable, const N: usize>(a: [T; N])
    requires
        forall|i: int| 0 <= i < N ==> (#[trigger] a@[i].witness_model()) is Some,
    ensures
        a.witness_model() is Some,
        a.witness_model()->0.len() == N,
        forall|i: int| 0 <= i < N ==> a.witness_model()->0[i] == a@[i].witness_model()->0,
{
}

/// If any single element of a fixed-size array is unassigned, the whole
/// array's extraction is absent, whatever the other elements hold.
pub proof fn lemma_fixed_short_circuits<T: CSWitnessable, const N: usize>(a: [T; N], i: int)
    requires
        0 <= i < N,
        a@[i].witness_model() is None,
    ensures
        a.witness_model() is None,
{
}

/// A growable sequence of length `L` extracts, when it succeeds, to a
/// native sequence of length exactly `L`, in matching order; and an
/// unassigned element at any position makes the whole extraction absent.
pub proof fn lemma_growable_extraction_shape<T: CSWitnessable>(v: Vec<T>)
    ensures
        v.witness_model() is Some ==> v.witness_model()->0.len() == v@.len(),
        v.witness_model() is Some ==> forall|i: int|
            0 <= i < v@.len() ==> v.witness_model()->0[i] == v@[i].witness_model()->0,
        (exists|i: int| 0 <= i < v@.len() && (#[trigger] v@[i].witness_model()) is None)
            ==> v.witness_model() is None,
{
}

/// A growable sequence's placeholder carries no length information: it is
/// the empty sequence, whatever length any instance has.
pub proof fn lemma_growable_placeholder_empty<T: CSWitnessable>()
    ensures
        <Vec<T> as CSWitnessable>::placeholder_model().len() == 0,
{
}

/// Nesting is compositional: a fixed-size array of growable sequences
/// extracts by the same rules applied recursively.  It succeeds exactly
/// when every element of every inner sequence is assigned, and on success
/// the value at position `i, j` is the extracted value of the inner
/// element at `i, j`, each inner sequence keeping its own length.
pub proof fn lemma_nesting_composes<T: CSWitnessable, const N: usize>(a: [Vec<T>; N])
    ensures
        a.witness_model() is Some <==> forall|i: int, j: int|
            0 <= i < N && 0 <= j < a@[i]@.len()
                ==> (#[trigger] a@[i]@[j].witness_model()) is Some,
        a.witness_model() is Some ==> a.witness_model()->0.len() == N,
        a.witness_model() is Some ==> forall|i: int|
            0 <= i < N ==> (#[trigger] a.witness_model()->0[i]).len() == a@[i]@.len(),
        a.witness_model() is Some ==> forall|i: int, j: int|
            0 <= i < N && 0 <= j < a@[i]@.len()
                ==> a.witness_model()->0[i][j] == a@[i]@[j].witness_model()->0,
{
    if a.witness_model() is Some {
        assert forall|i: int, j: int|
            0 <= i < N && 0 <= j < a@[i]@.len()
                implies (#[trigger] a@[i]@[j].witness_model()) is Some by {
            assert(a@[i].witness_model() is Some);
        }
    }
    if forall|i: int, j: int|
        0 <= i < N && 0 <= j < a@[i]@.len()
            ==> (#[trigger] a@[i]@[j].witness_model()) is Some {
        assert forall|i: int| 0 <= i < N
            implies (#[trigger] a@[i].witness_model()) is Some by {
            assert(forall|j: int|
                0 <= j < a@[i]@.len() ==> (#[trigger] a@[i]@[j].witness_model()) is Some);
        }
    }
}

} // verus!
