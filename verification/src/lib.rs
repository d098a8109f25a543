//! Synthesis of duplication-contract implementations.
//!
//! Given the declaration of a data type (a record with named or positional
//! fields, a tagged union of such records, or a raw union) together with
//! per-type and per-field configuration directives, this crate computes a
//! structured representation of an implementation of the duplication
//! contract: an operation producing an independent, equal-valued copy of an
//! instance, and, when applicable, an operation refreshing an existing
//! instance in place from a source instance.
//!
//! The pipeline is a pure transformation: a normalization step turns every
//! supported shape into a uniform variant/field model, a resolution step
//! merges and validates the directives, a bound-inference step computes the
//! minimal generic constraints the emitted implementation needs, and the
//! synthesizer emits the per-variant matching and field-copying logic,
//! including a bitwise fast path when the type qualifies for it.
//! Serialization of the emitted representation into concrete source text is
//! left to the caller.

pub mod attrs;
pub mod bounds;
pub mod ident;
pub mod laws;
pub mod model;
pub mod output;
pub mod synth;
pub mod walker;
