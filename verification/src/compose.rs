//! Field-by-field composition for bespoke composite structures.
//!
//! A circuit structure with named fields (a register, a queue state)
//! obtains witness extraction by structural composition: extract each
//! field, then aggregate the results under the same short-circuit-on-absent
//! rule the sequence combinators use.  The helpers here do that
//! aggregation: the composite value exists exactly when every field's
//! does, and no partially populated composite is ever produced.  The
//! composite placeholder needs no helper; it is the tuple of the fields'
//! placeholders.

use vstd::prelude::*;

verus! {

/// Aggregates the extraction results of a two-field composite.
pub fn compose_witness2<A, B>(a: Option<A>, b: Option<B>) -> (r: Option<(A, B)>)
    ensures
        r is Some <==> (a is Some && b is Some),
        r matches Some(p) ==> p.0 == a->0 && p.1 == b->0,
{
    match (a, b) {
        (Some(x), Some(y)) => Some((x, y)),
        _ => None,
    }
}

/// Aggregates the extraction results of a three-field composite.
pub fn compose_witness3<A, B, C>(a: Option<A>, b: Option<B>, c: Option<C>) -> (r: Option<
    (A, B, C),
>)
    ensures
        r is Some <==> (a is Some && b is Some && c is Some),
        r matches Some(p) ==> p.0 == a->0 && p.1 == b->0 && p.2 == c->0,
{
    match (a, b, c) {
        (Some(x), Some(y), Some(z)) => Some((x, y, z)),
        _ => None,
    }
}

} // verus!
