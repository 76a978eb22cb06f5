//! Witness extraction for circuit values.
//!
//! A constraint system assigns native values to in-circuit variables; this
//! crate pulls those values back out.  Every circuit-representable type
//! implements one contract: a fallible, all-or-nothing extraction of the
//! currently assigned native value, and a total, deterministic placeholder
//! used when no assignment exists (key generation, shape analysis).

mod compose;
mod laws;
mod scalar;
mod sequences;
mod variables;
mod witness;

pub use compose::compose_witness2;
pub use compose::compose_witness3;
pub use laws::lemma_fixed_extracts_all_assigned;
pub use laws::lemma_fixed_short_circuits;
pub use laws::lemma_growable_extraction_shape;
pub use laws::lemma_growable_placeholder_empty;
pub use laws::lemma_nesting_composes;
pub use laws::lemma_placeholder_deterministic;
pub use scalar::FieldScalar;
pub use variables::BoolVar;
pub use variables::ByteVar;
pub use variables::FieldVar;
pub use witness::CSWitnessable;
