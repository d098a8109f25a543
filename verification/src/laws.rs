//! Laws of the emitted implementations.
//!
//! The generated-code representation fixes the runtime meaning of the two
//! operations; this module states that meaning over abstract instance
//! values and proves, for every declaration the synthesizer accepts: that
//! the match arms of both operations follow walker order; that duplication
//! produces an equal-valued copy and duplicating a duplicate equals
//! duplicating the original; that a same-variant refresh updates the
//! destination's fields in its existing storage while a cross-variant
//! refresh replaces the destination with a fresh copy; that the fast path
//! is active exactly when requested with no custom method anywhere, and
//! then emits no per-field logic; and that the inferred where-clause
//! constrains exactly the generic parameters mentioned by a default-path
//! field type.

use vstd::prelude::*;

use crate::attrs::{TypeAttributeV, resolve_type_spec};
use crate::bounds::{lemma_inferred_membership, mentions_any, spec_infer};
use crate::model::{TypeDeclarationV, TypeExpr, VariantV, expr_mentions};
use crate::output::{CloneBodyV, DupModeV, GeneratedImplementationV, MatchArmV, PredicateV,
    RefreshBodyV};
use crate::synth::{cands_upto, field_has_custom, fields_cands_upto, has_custom, spec_arm,
    spec_arms, spec_candidates, spec_contract, spec_generate};
use crate::walker::spec_walk;

verus! {

/// An abstract instance of a generated type: the index of the variant it
/// holds and the abstract values of that variant's fields.
pub struct DupValue {
    pub variant: int,
    pub fields: Seq<DupValue>,
}

/// The meaning of the user-supplied custom methods: a pure function from a
/// callable name and a field value to the value the callable returns.
pub type MethodSem = spec_fn(Seq<char>, DupValue) -> DupValue;

/// The value one copy step leaves in a field: what the custom method
/// returns, or, on the default path, an equal-valued copy of the source
/// field.
pub open spec fn eval_field(mode: DupModeV, m: MethodSem, x: DupValue) -> DupValue {
    match mode {
        DupModeV::Custom(name) => m(name, x),
        DupModeV::Default => x,
    }
}

/// The instance one match arm constructs from a source instance.
pub open spec fn eval_arm(arm: MatchArmV, m: MethodSem, v: DupValue) -> DupValue {
    DupValue {
        variant: v.variant,
        fields: Seq::new(arm.fields.len(), |j: int| eval_field(arm.fields[j].mode, m, v.fields[j])),
    }
}

/// The instance the copy operation produces: the source itself for a
/// bitwise copy, and the matching arm's construction otherwise. For an
/// unreachable body no conforming source exists.
pub open spec fn eval_clone(body: CloneBodyV, m: MethodSem, v: DupValue) -> DupValue {
    match body {
        CloneBodyV::Bitwise => v,
        CloneBodyV::Unreachable => v,
        CloneBodyV::Arms(arms) => eval_arm(arms[v.variant], m, v),
    }
}

/// Whether an instance fits the copy operation: it holds one of the
/// emitted variants and the right number of fields for it.
pub open spec fn conforms(v: DupValue, body: CloneBodyV) -> bool {
    match body {
        CloneBodyV::Arms(arms) => 0 <= v.variant < arms.len() && v.fields.len()
            == arms[v.variant].fields.len(),
        CloneBodyV::Unreachable => false,
        CloneBodyV::Bitwise => true,
    }
}

/// The value the refresh operation leaves in the destination: with source
/// and destination holding the same variant, the destination with each
/// field overwritten in place from the source; with different variants,
/// the destination discarded and replaced by a fresh copy of the source.
pub open spec fn eval_refresh(
    body: CloneBodyV,
    arms: Seq<MatchArmV>,
    m: MethodSem,
    dst: DupValue,
    src: DupValue,
) -> DupValue {
    if dst.variant == src.variant {
        DupValue {
            variant: dst.variant,
            fields: Seq::new(arms[src.variant].fields.len(), |j: int|
                eval_field(arms[src.variant].fields[j].mode, m, src.fields[j])),
        }
    } else {
        eval_clone(body, m, src)
    }
}

/// Whether no emitted copy step uses a custom method.
pub open spec fn no_custom_arms(arms: Seq<MatchArmV>) -> bool {
    forall|i: int, j: int|
        0 <= i < arms.len() && 0 <= j < arms[i].fields.len() ==> #[trigger] arms[i].fields[j].mode
            is Default
}

/// Whether the copy operation contains no custom method anywhere.
pub open spec fn clone_no_custom(body: CloneBodyV) -> bool {
    match body {
        CloneBodyV::Arms(arms) => no_custom_arms(arms),
        _ => true,
    }
}

/// Whether every custom method is idempotent under the given meaning.
pub open spec fn methods_idempotent(m: MethodSem) -> bool {
    forall|name: Seq<char>, x: DupValue| m(name, #[trigger] m(name, x)) == m(name, x)
}

/// The match arms of both emitted operations reproduce the walker's
/// variant order: arm `i` selects exactly the discriminant of variant `i`
/// of the walker's output.
pub proof fn lemma_match_arm_order(d: TypeDeclarationV, g: GeneratedImplementationV)
    requires
        spec_generate(d) == Ok::<Option<GeneratedImplementationV>, crate::attrs::DirectiveErrorV>(
            Some(g),
        ),
        g.clone_body is Arms,
    ensures
        ({
            let vs = spec_walk(d.shape);
            let arms = g.clone_body->Arms_0;
            &&& arms == spec_arms(vs)
            &&& arms.len() == vs.len()
            &&& forall|i: int|
                0 <= i < vs.len() ==> #[trigger] arms[i].selector == vs[i].discriminant
            &&& g.refresh_body matches Some(rb) && rb == RefreshBodyV::Arms(arms)
        }),
{
    let vs = spec_walk(d.shape);
    let arms = g.clone_body->Arms_0;
    assert(arms == spec_arms(vs));
    assert forall|i: int| 0 <= i < vs.len() implies #[trigger] arms[i].selector
        == vs[i].discriminant by {
        assert(arms[i] == spec_arm(vs[i]));
    }
}

/// With no custom method anywhere, duplication is an equal-valued copy.
pub proof fn lemma_duplicate_value_equal(body: CloneBodyV, m: MethodSem, v: DupValue)
    requires
        conforms(v, body),
        clone_no_custom(body),
    ensures
        eval_clone(body, m, v) == v,
{
    match body {
        CloneBodyV::Arms(arms) => {
            assert(eval_clone(body, m, v).fields =~= v.fields);
        },
        _ => {},
    }
}

/// Duplicating an already-duplicated instance equals duplicating the
/// original. Stated for implementations whose copy steps are all on the
/// default path, where duplication has no per-call effect beyond producing
/// the equal-valued copy.
pub proof fn lemma_duplication_idempotent(body: CloneBodyV, m: MethodSem, v: DupValue)
    requires
        conforms(v, body),
        clone_no_custom(body),
    ensures
        eval_clone(body, m, eval_clone(body, m, v)) == eval_clone(body, m, v),
{
    lemma_duplicate_value_equal(body, m, v);
}

/// Duplicating an already-duplicated instance equals duplicating the
/// original, in the presence of custom methods, whenever each custom
/// method is itself idempotent.
pub proof fn lemma_duplication_idempotent_custom(body: CloneBodyV, m: MethodSem, v: DupValue)
    requires
        conforms(v, body),
        methods_idempotent(m),
    ensures
        eval_clone(body, m, eval_clone(body, m, v)) == eval_clone(body, m, v),
{
    match body {
        CloneBodyV::Arms(arms) => {
            let once = eval_clone(body, m, v);
            let twice = eval_clone(body, m, once);
            assert(once.variant == v.variant);
            assert(conforms(once, body));
            assert(twice.fields =~= once.fields) by {
                assert forall|j: int| 0 <= j < once.fields.len() implies #[trigger] twice.fields[j]
                    == once.fields[j] by {
                    match arms[v.variant].fields[j].mode {
                        DupModeV::Custom(name) => {
                            assert(once.fields[j] == m(name, v.fields[j]));
                            assert(m(name, m(name, v.fields[j])) == m(name, v.fields[j]));
                        },
                        DupModeV::Default => {},
                    }
                }
            }
        },
        _ => {},
    }
}

/// A same-variant refresh keeps the destination instance (same variant
/// slot, same field storage shape) and overwrites each field in place from
/// the source; a cross-variant refresh replaces the destination wholesale
/// with a fresh copy of the source. Either way the destination afterwards
/// is value-equal to a fresh copy of the source.
pub proof fn lemma_refresh_in_place(
    d: TypeDeclarationV,
    g: GeneratedImplementationV,
    m: MethodSem,
    dst: DupValue,
    src: DupValue,
)
    requires
        spec_generate(d) == Ok::<Option<GeneratedImplementationV>, crate::attrs::DirectiveErrorV>(
            Some(g),
        ),
        g.clone_body is Arms,
        conforms(dst, g.clone_body),
        conforms(src, g.clone_body),
    ensures
        ({
            let arms = g.clone_body->Arms_0;
            let after = eval_refresh(g.clone_body, arms, m, dst, src);
            &&& g.refresh_body == Some(RefreshBodyV::Arms(arms))
            &&& dst.variant == src.variant ==> after.variant == dst.variant && after.fields.len()
                == dst.fields.len()
            &&& dst.variant != src.variant ==> after == eval_clone(g.clone_body, m, src)
            &&& after == eval_clone(g.clone_body, m, src)
        }),
{
    let arms = g.clone_body->Arms_0;
    let after = eval_refresh(g.clone_body, arms, m, dst, src);
    if dst.variant == src.variant {
        assert(after.fields =~= eval_clone(g.clone_body, m, src).fields);
        assert(after == eval_clone(g.clone_body, m, src));
    }
}

/// The fast path is active exactly when it was requested and no field of
/// any variant declares a custom method; it then emits a whole-value
/// bitwise copy with no per-field logic, no refresh operation, and the
/// companion trivial-copy marker. Any custom method disables it.
pub proof fn lemma_fast_path(
    d: TypeDeclarationV,
    attr: TypeAttributeV,
    g: GeneratedImplementationV,
)
    requires
        spec_generate(d) == Ok::<Option<GeneratedImplementationV>, crate::attrs::DirectiveErrorV>(
            Some(g),
        ),
        !(d.shape is RawUnion),
        resolve_type_spec(d.attrs, true, true) == Ok::<
            TypeAttributeV,
            crate::attrs::DirectiveErrorV,
        >(attr),
    ensures
        (attr.fast_path_requested && !has_custom(spec_walk(d.shape))) <==> (g.clone_body
            is Bitwise && g.refresh_body is None && g.copy_marker),
        has_custom(spec_walk(d.shape)) ==> !(g.clone_body is Bitwise),
{
}

/// Whether parameter `p` appears in the declared type of at least one
/// field that duplicates by the default path.
pub open spec fn default_mentions(vs: Seq<VariantV>, p: int) -> bool {
    exists|i: int, j: int|
        0 <= i < vs.len() && 0 <= j < vs[i].fields.len() && !field_has_custom(
            #[trigger] vs[i].fields[j]) && expr_mentions(vs[i].fields[j].ty, p)
}

proof fn lemma_mentions_concat(a: Seq<TypeExpr>, b: Seq<TypeExpr>, p: int)
    ensures
        mentions_any(a + b, p) <==> (mentions_any(a, p) || mentions_any(b, p)),
{
    if mentions_any(a + b, p) {
        let i = choose|i: int| 0 <= i < (a + b).len() && expr_mentions(#[trigger] (a + b)[i], p);
        if i < a.len() {
            assert((a + b)[i] == a[i]);
            assert(mentions_any(a, p));
        } else {
            assert((a + b)[i] == b[i - a.len()]);
            assert(mentions_any(b, p));
        }
    }
    if mentions_any(a, p) {
        let i = choose|i: int| 0 <= i < a.len() && expr_mentions(#[trigger] a[i], p);
        assert((a + b)[i] == a[i]);
        assert(mentions_any(a + b, p));
    }
    if mentions_any(b, p) {
        let i = choose|i: int| 0 <= i < b.len() && expr_mentions(#[trigger] b[i], p);
        assert((a + b)[a.len() + i] == b[i]);
        assert(mentions_any(a + b, p));
    }
}

proof fn lemma_fields_cands_mentions(fs: Seq<crate::model::FieldV>, j: int, p: int)
    requires
        j <= fs.len(),
    ensures
        mentions_any(fields_cands_upto(fs, j), p) <==> exists|l: int|
            0 <= l < j && !field_has_custom(#[trigger] fs[l]) && expr_mentions(fs[l].ty, p),
    decreases j,
{
    if j <= 0 {
        assert(!mentions_any(Seq::<TypeExpr>::empty(), p));
    } else {
        lemma_fields_cands_mentions(fs, j - 1, p);
        let tail: Seq<TypeExpr> = if field_has_custom(fs[j - 1]) {
            Seq::empty()
        } else {
            seq![fs[j - 1].ty]
        };
        lemma_mentions_concat(fields_cands_upto(fs, j - 1), tail, p);
        if !field_has_custom(fs[j - 1]) {
            assert(tail[0] == fs[j - 1].ty);
            assert(mentions_any(tail, p) <==> expr_mentions(fs[j - 1].ty, p));
        } else {
            assert(!mentions_any(tail, p));
        }
    }
}

proof fn lemma_cands_mentions(vs: Seq<VariantV>, i: int, p: int)
    requires
        i <= vs.len(),
    ensures
        mentions_any(cands_upto(vs, i), p) <==> exists|k: int, j: int|
            0 <= k < i && 0 <= j < vs[k].fields.len() && !field_has_custom(
                #[trigger] vs[k].fields[j]) && expr_mentions(vs[k].fields[j].ty, p),
    decreases i,
{
    if i <= 0 {
        assert(!mentions_any(Seq::<TypeExpr>::empty(), p));
    } else {
        lemma_cands_mentions(vs, i - 1, p);
        lemma_fields_cands_mentions(vs[i - 1].fields, vs[i - 1].fields.len() as int, p);
        lemma_mentions_concat(cands_upto(vs, i - 1), fields_cands_upto(vs[i - 1].fields,
            vs[i - 1].fields.len() as int), p);
    }
}

/// With the bound left to inference, the emitted where-clause constrains a
/// generic parameter exactly when it is in range and appears, however
/// nested, in the declared type of a default-path field: a parameter
/// mentioned only by fields with custom methods is never constrained, one
/// mentioned by a default-path field always is.
pub proof fn lemma_bound_inference(
    d: TypeDeclarationV,
    attr: TypeAttributeV,
    g: GeneratedImplementationV,
    p: int,
)
    requires
        spec_generate(d) == Ok::<Option<GeneratedImplementationV>, crate::attrs::DirectiveErrorV>(
            Some(g),
        ),
        !(d.shape is RawUnion),
        resolve_type_spec(d.attrs, true, true) == Ok::<
            TypeAttributeV,
            crate::attrs::DirectiveErrorV,
        >(attr),
        attr.bound is Inferred,
    ensures
        ({
            let vs = spec_walk(d.shape);
            let fast = attr.fast_path_requested && !has_custom(vs);
            g.where_clause.contains(PredicateV::Constraint {
                param: p,
                contract: spec_contract(fast),
            }) <==> (0 <= p < d.generic_params.len() && default_mentions(vs, p))
        }),
{
    let vs = spec_walk(d.shape);
    let fast = attr.fast_path_requested && !has_custom(vs);
    assert(g.where_clause == spec_infer(attr.bound, d.generic_params.len() as int,
        spec_contract(fast), spec_candidates(vs)));
    lemma_inferred_membership(d.generic_params.len() as int, spec_candidates(vs),
        spec_contract(fast), p);
    lemma_cands_mentions(vs, vs.len() as int, p);
}

} // verus!
