//! Composite extractors over sequences.
//!
//! Two combinators lift the witness contract over aggregates of
//! witnessable elements: a fixed-size array of static arity `N`, and a
//! growable vector whose length is only known at run time.  Both extract
//! element by element in index order and short-circuit to `None` on the
//! first unassigned element, so no partially populated composite is ever
//! returned.  The placeholders differ deliberately: an array knows its
//! arity at the type level and yields `N` element placeholders, while a
//! vector carries no static length and yields the empty sequence.

use vstd::prelude::*;

use crate::witness::CSWitnessable;

verus! {

/// Relies on the standard library's conversion of a vector into an array:
/// for a vector whose length equals the array's, it succeeds and hands the
/// elements over unchanged, in order.
#[verifier::external_body]
fn vec_to_array<T, const N: usize>(v: Vec<T>) -> (r: [T; N])
    requires
        v@.len() == N,
    ensures
        r@ == v@,
{
    v.try_into().ok().unwrap()
}

impl<T: CSWitnessable, const N: usize> CSWitnessable for [T; N] {
    type Witness = [T::Witness; N];

    type Model = Seq<T::Model>;

    open spec fn model_of(w: &[T::Witness; N]) -> Seq<T::Model> {
        w@.map_values(|x: T::Witness| T::model_of(&x))
    }

    open spec fn witness_model(&self) -> Option<Seq<T::Model>> {
        if forall|i: int| 0 <= i < N ==> (#[trigger] self@[i].witness_model()) is Some {
            Some(Seq::new(N as nat, |i: int| self@[i].witness_model()->0))
        } else {
            None
        }
    }

    /// An array's placeholder has exactly the static arity `N`.
    open spec fn placeholder_model() -> Seq<T::Model> {
        Seq::new(N as nat, |i: int| T::placeholder_model())
    }

    fn create_witness(&self) -> Option<[T::Witness; N]> {
        let mut collected: Vec<T::Witness> = Vec::new();
        let mut idx: usize = 0;
        while idx < N
            invariant
                idx <= N,
                collected@.len() == idx as int,
                forall|j: int| 0 <= j < idx ==> (#[trigger] self@[j].witness_model()) is Some,
                forall|j: int| 0 <= j < idx
                    ==> T::model_of(&collected@[j]) == self@[j].witness_model()->0,
            decreases N - idx,
        {
            let element = vstd::array::array_index_get(self, idx);
            match element.create_witness() {
                Some(w) => collected.push(w),
                None => {
                    return None;
                },
            }
            idx += 1;
        }
        let result: [T::Witness; N] = vec_to_array(collected);
        proof {
            assert(Self::model_of(&result) =~= self.witness_model()->0);
        }
        Some(result)
    }

    fn placeholder_witness() -> [T::Witness; N] {
        let mut collected: Vec<T::Witness> = Vec::new();
        let mut idx: usize = 0;
        while idx < N
            invariant
                idx <= N,
                collected@.len() == idx as int,
                forall|j: int| 0 <= j < idx
                    ==> T::model_of(&collected@[j]) == T::placeholder_model(),
            decreases N - idx,
        {
            collected.push(T::placeholder_witness());
            idx += 1;
        }
        let result: [T::Witness; N] = vec_to_array(collected);
        proof {
            assert(Self::model_of(&result) =~= Self::placeholder_model());
        }
        result
    }
}

impl<T: CSWitnessable> CSWitnessable for Vec<T> {
    type Witness = Vec<T::Witness>;

    type Model = Seq<T::Model>;

    open spec fn model_of(w: &Vec<T::Witness>) -> Seq<T::Model> {
        w@.map_values(|x: T::Witness| T::model_of(&x))
    }

    open spec fn witness_model(&self) -> Option<Seq<T::Model>> {
        if forall|i: int| 0 <= i < self@.len() ==> (#[trigger] self@[i].witness_model()) is Some {
            Some(Seq::new(self@.len(), |i: int| self@[i].witness_model()->0))
        } else {
            None
        }
    }

    /// A vector carries no length at the type level, so its placeholder is
    /// the empty sequence.
    open spec fn placeholder_model() -> Seq<T::Model> {
        Seq::empty()
    }

    fn create_witness(&self) -> Option<Vec<T::Witness>> {
        let mut collected: Vec<T::Witness> = Vec::new();
        let mut idx: usize = 0;
        while idx < self.len()
            invariant
                idx <= self@.len(),
                collected@.len() == idx as int,
                forall|j: int| 0 <= j < idx ==> (#[trigger] self@[j].witness_model()) is Some,
                forall|j: int| 0 <= j < idx
                    ==> T::model_of(&collected@[j]) == self@[j].witness_model()->0,
            decreases self@.len() - idx,
        {
            let element = &self[idx];
            match element.create_witness() {
                Some(w) => collected.push(w),
                None => {
                    return None;
                },
            }
            idx += 1;
        }
        proof {
            assert(Self::model_of(&collected) =~= self.witness_model()->0);
        }
        Some(collected)
    }

    fn placeholder_witness() -> Vec<T::Witness> {
        let result: Vec<T::Witness> = Vec::new();
        proof {
            assert(Self::model_of(&result) =~= Self::placeholder_model());
        }
        result
    }
}

} // verus!
