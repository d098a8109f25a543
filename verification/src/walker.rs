//! The variant walker: normalization of a data shape into a uniform,
//! ordered variant list.
//!
//! A record yields exactly one implicit variant with no discriminant and no
//! variant-level directives; a tagged union yields its declared variants in
//! declaration order, an order that is reproduced verbatim in the emitted
//! match logic and is itself part of the contract. A raw union has no
//! variant concept: invoking the walker on one is a programming error in
//! the caller, excluded here by precondition, and the synthesizer handles
//! that shape directly.

use vstd::prelude::*;

use crate::model::{DataShape, DataShapeV, Variant, VariantV, variants_view};

verus! {

/// The normalized variant list of a shape. Meaningless for a raw union,
/// which the walker must never be given.
pub open spec fn spec_walk(shape: DataShapeV) -> Seq<VariantV>
    recommends
        !(shape is RawUnion),
{
    match shape {
        DataShapeV::Record(fields) => seq![
            VariantV { discriminant: None, fields, attrs: Seq::empty() },
        ],
        DataShapeV::TaggedUnion(variants) => variants,
        DataShapeV::RawUnion(_) => Seq::empty(),
    }
}

/// Normalizes a record or tagged union into its ordered variant list: one
/// implicit variant for a record, the declared variants in declaration
/// order for a tagged union.
pub fn walk(shape: DataShape) -> (r: Vec<Variant>)
    requires
        !(shape is RawUnion),
    ensures
        variants_view(r@) == spec_walk(shape@),
{
    let ghost sv = shape@;
    match shape {
        DataShape::Record(fields) => {
            let ghost fv = crate::model::fields_view(fields@);
            let mut r: Vec<Variant> = Vec::new();
            r.push(Variant { discriminant: None, fields, attrs: Vec::new() });
            proof {
                assert(variants_view(r@) =~= spec_walk(sv)) by {
                    assert(r@[0]@.attrs =~= Seq::<crate::model::DirectiveV>::empty());
                    assert(r@[0]@.fields == fv);
                }
            }
            r
        },
        DataShape::TaggedUnion(variants) => variants,
        DataShape::RawUnion(_) => vstd::pervasive::unreached(),
    }
}

} // verus!
