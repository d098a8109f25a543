//! The duplication synthesizer: the generation algorithm proper.
//!
//! One generation request takes a type declaration with its raw directives
//! and produces the full generated-code representation, or the first
//! diagnostic, or nothing when the contract is disabled for the type.
//! Directives are examined in a fixed order: the type-level directives,
//! then, per variant in walker order, the variant-level directives and then
//! each field's directives in declaration order; the first rejected
//! directive aborts the request, so generation is all-or-nothing.
//!
//! The shapes are handled as a small state machine: a raw union emits a
//! whole-value bitwise copy and no refresh operation; a fast-path type
//! (requested, and no custom method anywhere) likewise, plus the companion
//! trivial-copy marker; a tagged union with zero variants emits an
//! unreachable copy body and a no-op refresh; every other shape emits one
//! destructuring match arm per variant for both operations.

use vstd::prelude::*;

use crate::attrs::{DirectiveError, DirectiveErrorV, FieldAttributeV, TypeAttributeV,
    resolve_field_attributes, resolve_field_spec, resolve_type_attributes, resolve_type_spec};
use crate::bounds::{cand_views, infer_bound, spec_infer};
use crate::ident::{canonical_identity, resolve_identity};
use crate::model::{DataShape, DataShapeV, Field, FieldV, TypeDeclaration, TypeDeclarationV,
    TypeExpr, Variant, VariantV, dirs_view, fields_view, strings_view, variants_view};
use crate::output::{CloneBody, CloneBodyV, ContractKind, DupMode, DupModeV, FieldDup, FieldDupV,
    GeneratedImplementation, GeneratedImplementationV, MatchArm, MatchArmV, RefreshBody,
    RefreshBodyV, arms_view};
use crate::walker::{spec_walk, walk};

verus! {

/// How a field is duplicated: by its custom method when its directives
/// declare one, by the default recursive duplication otherwise.
pub open spec fn spec_field_mode(f: FieldV) -> DupModeV {
    match resolve_field_spec(f.attrs, true) {
        Ok(a) => match a.custom_method {
            Some(m) => DupModeV::Custom(m),
            None => DupModeV::Default,
        },
        Err(_) => DupModeV::Default,
    }
}

/// Whether a field's directives declare a custom duplication method.
pub open spec fn field_has_custom(f: FieldV) -> bool {
    spec_field_mode(f) is Custom
}

/// The emitted copy step for the field at position `j` of its variant.
pub open spec fn spec_field_dup(f: FieldV, j: int) -> FieldDupV {
    FieldDupV { name: canonical_identity(f.name, j), mode: spec_field_mode(f) }
}

/// The emitted match arm of one variant: its discriminant as selector and
/// one copy step per field, in declaration order.
pub open spec fn spec_arm(v: VariantV) -> MatchArmV {
    MatchArmV {
        selector: v.discriminant,
        fields: Seq::new(v.fields.len(), |j: int| spec_field_dup(v.fields[j], j)),
    }
}

/// The emitted match arms, one per variant, in walker order.
pub open spec fn spec_arms(vs: Seq<VariantV>) -> Seq<MatchArmV> {
    vs.map_values(|v: VariantV| spec_arm(v))
}

/// Whether any field of the variant declares a custom method.
pub open spec fn variant_has_custom(v: VariantV) -> bool {
    exists|j: int| 0 <= j < v.fields.len() && field_has_custom(#[trigger] v.fields[j])
}

/// Whether any field across all variants declares a custom method.
pub open spec fn has_custom(vs: Seq<VariantV>) -> bool {
    exists|i: int| 0 <= i < vs.len() && variant_has_custom(#[trigger] vs[i])
}

/// The candidate types among the first `j` fields of a variant: the types
/// of the fields that duplicate by the default path. Fields with a custom
/// method never contribute a candidate.
pub open spec fn fields_cands_upto(fs: Seq<FieldV>, j: int) -> Seq<TypeExpr>
    decreases j,
{
    if j <= 0 {
        Seq::empty()
    } else {
        fields_cands_upto(fs, j - 1) + if field_has_custom(fs[j - 1]) {
            Seq::empty()
        } else {
            seq![fs[j - 1].ty]
        }
    }
}

/// The candidate types of the first `i` variants.
pub open spec fn cands_upto(vs: Seq<VariantV>, i: int) -> Seq<TypeExpr>
    decreases i,
{
    if i <= 0 {
        Seq::empty()
    } else {
        cands_upto(vs, i - 1) + fields_cands_upto(vs[i - 1].fields, vs[i - 1].fields.len() as int)
    }
}

/// All candidate types of a variant list, in declaration order.
pub open spec fn spec_candidates(vs: Seq<VariantV>) -> Seq<TypeExpr> {
    cands_upto(vs, vs.len() as int)
}

/// The first diagnostic among the directive lists of the fields from
/// position `j` on, or `None` when they all resolve.
pub open spec fn fields_first_error(fs: Seq<FieldV>, j: int, enable_method: bool) -> Option<
    DirectiveErrorV,
>
    decreases fs.len() - j,
{
    if j < 0 || j >= fs.len() {
        None
    } else {
        match resolve_field_spec(fs[j].attrs, enable_method) {
            Err(e) => Some(e),
            Ok(_) => fields_first_error(fs, j + 1, enable_method),
        }
    }
}

/// The first diagnostic among the variants from position `i` on: per
/// variant, its own directives first, then its fields' in order.
pub open spec fn variants_first_error(vs: Seq<VariantV>, i: int) -> Option<DirectiveErrorV>
    decreases vs.len() - i,
{
    if i < 0 || i >= vs.len() {
        None
    } else {
        match resolve_type_spec(vs[i].attrs, false, false) {
            Err(e) => Some(e),
            Ok(_) => match fields_first_error(vs[i].fields, 0, true) {
                Some(e) => Some(e),
                None => variants_first_error(vs, i + 1),
            },
        }
    }
}

/// The contract the inferred constraints require: trivial copy on the fast
/// path, the duplication contract otherwise.
pub open spec fn spec_contract(fast: bool) -> ContractKind {
    if fast {
        ContractKind::TrivialCopy
    } else {
        ContractKind::Duplicate
    }
}

/// The generated implementation for a record or tagged union whose
/// directives all resolved. The fast path is active exactly when requested
/// and no field anywhere declares a custom method.
pub open spec fn spec_variants_impl(
    d: TypeDeclarationV,
    attr: TypeAttributeV,
    vs: Seq<VariantV>,
) -> GeneratedImplementationV {
    let fast = attr.fast_path_requested && !has_custom(vs);
    let wc = spec_infer(attr.bound, d.generic_params.len() as int, spec_contract(fast),
        spec_candidates(vs));
    if fast {
        GeneratedImplementationV {
            target_name: d.name,
            where_clause: wc,
            clone_body: CloneBodyV::Bitwise,
            refresh_body: None,
            copy_marker: true,
        }
    } else if vs.len() == 0 {
        GeneratedImplementationV {
            target_name: d.name,
            where_clause: wc,
            clone_body: CloneBodyV::Unreachable,
            refresh_body: Some(RefreshBodyV::Ignore),
            copy_marker: false,
        }
    } else {
        GeneratedImplementationV {
            target_name: d.name,
            where_clause: wc,
            clone_body: CloneBodyV::Arms(spec_arms(vs)),
            refresh_body: Some(RefreshBodyV::Arms(spec_arms(vs))),
            copy_marker: false,
        }
    }
}

/// The generated implementation for a raw union whose field directive
/// lists are all empty: a whole-value bitwise copy (the only legal
/// strategy), no refresh operation, and a trivial-copy constraint on every
/// generic parameter a field type mentions.
pub open spec fn spec_union_impl(
    d: TypeDeclarationV,
    attr: TypeAttributeV,
    fs: Seq<FieldV>,
) -> GeneratedImplementationV {
    GeneratedImplementationV {
        target_name: d.name,
        where_clause: spec_infer(attr.bound, d.generic_params.len() as int,
            ContractKind::TrivialCopy, fields_cands_upto(fs, fs.len() as int)),
        clone_body: CloneBodyV::Bitwise,
        refresh_body: None,
        copy_marker: attr.fast_path_requested,
    }
}

/// The outcome of one generation request: the first diagnostic, nothing
/// when the contract is disabled for the type, or the full generated
/// implementation.
pub open spec fn spec_generate(d: TypeDeclarationV) -> Result<
    Option<GeneratedImplementationV>,
    DirectiveErrorV,
> {
    match resolve_type_spec(d.attrs, true, true) {
        Err(e) => Err(e),
        Ok(attr) => if !attr.enabled {
            Ok(None)
        } else {
            match d.shape {
                DataShapeV::RawUnion(fs) => match fields_first_error(fs, 0, false) {
                    Some(e) => Err(e),
                    None => Ok(Some(spec_union_impl(d, attr, fs))),
                },
                _ => {
                    let vs = spec_walk(d.shape);
                    match variants_first_error(vs, 0) {
                        Some(e) => Err(e),
                        None => Ok(Some(spec_variants_impl(d, attr, vs))),
                    }
                },
            }
        },
    }
}

/// The view of a generation outcome.
pub open spec fn gen_result_view(r: Result<Option<GeneratedImplementation>, DirectiveError>)
    -> Result<Option<GeneratedImplementationV>, DirectiveErrorV> {
    match r {
        Ok(None) => Ok(None),
        Ok(Some(g)) => Ok(Some(g@)),
        Err(e) => Err(e@),
    }
}

/// An owned copy of an optional discriminant or field name.
fn clone_opt_name(o: &Option<String>) -> (r: Option<String>)
    ensures
        r == *o,
{
    match o {
        Some(s) => Some(s.clone()),
        None => None,
    }
}

/// A field whose directives all resolve with custom methods disallowed has
/// no directives at all, so it also resolves without one under the default
/// policy.
proof fn lemma_plain_field(s: Seq<crate::model::DirectiveV>)
    requires
        resolve_field_spec(s, false) is Ok,
    ensures
        s.len() == 0,
        resolve_field_spec(s, true) == Ok::<FieldAttributeV, DirectiveErrorV>(
            FieldAttributeV { custom_method: None },
        ),
{
    if s.len() > 0 {
        assert(crate::attrs::field_directive_error(s[0], false) is Some);
    }
}

/// Validates the fields of a raw union (no directives are legal there) and
/// collects every field type as a bound candidate.
#[verifier::loop_isolation(false)]
fn scan_union_fields<'a>(fields: &'a Vec<Field>, cands: &mut Vec<&'a TypeExpr>) -> (r: Result<
    (),
    DirectiveError,
>)
    ensures
        match r {
            Ok(_) => fields_first_error(fields_view(fields@), 0, false) is None
                && cand_views(final(cands)@) == cand_views(old(cands)@) + fields_cands_upto(
                fields_view(fields@), fields@.len() as int),
            Err(e) => fields_first_error(fields_view(fields@), 0, false) == Some(e@),
        },
{
    let ghost fsv = fields_view(fields@);
    let mut j: usize = 0;
    while j < fields.len()
        invariant
            j <= fields@.len(),
            fields_first_error(fsv, 0, false) == fields_first_error(fsv, j as int, false),
            cand_views(cands@) == cand_views(old(cands)@) + fields_cands_upto(fsv, j as int),
        decreases fields@.len() - j,
    {
        let f = &fields[j];
        proof {
            assert(fsv[j as int] == f@);
        }
        match resolve_field_attributes(&f.attrs, false) {
            Ok(_) => {},
            Err(e) => {
                return Err(e);
            },
        }
        let ghost c0 = cand_views(cands@);
        cands.push(&f.ty);
        proof {
            lemma_plain_field(f@.attrs);
            assert(cand_views(cands@) =~= c0 + seq![f@.ty]);
            assert(fields_cands_upto(fsv, j as int + 1) == fields_cands_upto(fsv, j as int)
                + seq![fsv[j as int].ty]);
            assert(cand_views(cands@) =~= cand_views(old(cands)@) + fields_cands_upto(fsv,
                j as int + 1));
        }
        j = j + 1;
    }
    Ok(())
}

/// Resolves one variant's directives and builds its two match arms (one
/// for the copy operation, one for the refresh operation), reporting
/// whether any of its fields declares a custom method and appending the
/// default-path field types to the bound candidates.
#[verifier::loop_isolation(false)]
fn build_variant_arms<'a>(v: &'a Variant, cands: &mut Vec<&'a TypeExpr>) -> (r: Result<
    (MatchArm, MatchArm, bool),
    DirectiveError,
>)
    ensures
        match r {
            Ok(out) => resolve_type_spec(v@.attrs, false, false) is Ok && fields_first_error(
                v@.fields, 0, true) is None && out.0@ == spec_arm(v@) && out.1@ == spec_arm(v@)
                && out.2 == variant_has_custom(v@) && cand_views(final(cands)@) == cand_views(
                old(cands)@) + fields_cands_upto(v@.fields, v@.fields.len() as int),
            Err(e) => match resolve_type_spec(v@.attrs, false, false) {
                Err(e2) => e2 == e@,
                Ok(_) => fields_first_error(v@.fields, 0, true) == Some(e@),
            },
        },
{
    match resolve_type_attributes(&v.attrs, false, false) {
        Ok(_) => {},
        Err(e) => {
            return Err(e);
        },
    }
    let ghost fsv = v@.fields;
    let mut fields_c: Vec<FieldDup> = Vec::new();
    let mut fields_r: Vec<FieldDup> = Vec::new();
    let mut hc = false;
    let mut j: usize = 0;
    while j < v.fields.len()
        invariant
            j <= v.fields@.len(),
            fields_first_error(fsv, 0, true) == fields_first_error(fsv, j as int, true),
            fields_c@.len() == j,
            fields_r@.len() == j,
            forall|k: int|
                0 <= k < j ==> #[trigger] fields_c@[k]@ == spec_field_dup(fsv[k], k),
            forall|k: int|
                0 <= k < j ==> #[trigger] fields_r@[k]@ == spec_field_dup(fsv[k], k),
            hc == exists|l: int| 0 <= l < j && field_has_custom(#[trigger] fsv[l]),
            cand_views(cands@) == cand_views(old(cands)@) + fields_cands_upto(fsv, j as int),
        decreases v.fields@.len() - j,
    {
        let f = &v.fields[j];
        proof {
            assert(fsv[j as int] == f@);
        }
        let fa = match resolve_field_attributes(&f.attrs, true) {
            Ok(fa) => fa,
            Err(e) => {
                return Err(e);
            },
        };
        let name1 = resolve_identity(&f.name, j);
        let name2 = name1.clone();
        let ghost c0 = cand_views(cands@);
        match fa.custom_method {
            Some(m) => {
                let m2 = m.clone();
                fields_c.push(FieldDup { name: name1, mode: DupMode::Custom(m) });
                fields_r.push(FieldDup { name: name2, mode: DupMode::Custom(m2) });
                hc = true;
                proof {
                    assert(field_has_custom(fsv[j as int]));
                    assert(fields_cands_upto(fsv, j as int + 1) == fields_cands_upto(fsv,
                        j as int) + Seq::<TypeExpr>::empty());
                    assert(cand_views(cands@) =~= c0 + Seq::<TypeExpr>::empty());
                }
            },
            None => {
                fields_c.push(FieldDup { name: name1, mode: DupMode::Default });
                fields_r.push(FieldDup { name: name2, mode: DupMode::Default });
                cands.push(&f.ty);
                proof {
                    assert(!field_has_custom(fsv[j as int]));
                    assert(fields_cands_upto(fsv, j as int + 1) == fields_cands_upto(fsv,
                        j as int) + seq![fsv[j as int].ty]);
                    assert(cand_views(cands@) =~= c0 + seq![f@.ty]);
                }
            },
        }
        proof {
            assert(fields_c@[j as int]@ == spec_field_dup(fsv[j as int], j as int));
            assert(fields_r@[j as int]@ == spec_field_dup(fsv[j as int], j as int));
            assert(cand_views(cands@) =~= cand_views(old(cands)@) + fields_cands_upto(fsv,
                j as int + 1));
        }
        j = j + 1;
    }
    let ca = MatchArm { selector: clone_opt_name(&v.discriminant), fields: fields_c };
    let ra = MatchArm { selector: clone_opt_name(&v.discriminant), fields: fields_r };
    proof {
        assert(ca@.fields =~= spec_arm(v@).fields);
        assert(ra@.fields =~= spec_arm(v@).fields);
        assert(ca@ == spec_arm(v@));
        assert(ra@ == spec_arm(v@));
    }
    Ok((ca, ra, hc))
}

/// Runs one generation request on a type declaration: resolves every
/// directive (the first rejected one aborts the request with its
/// diagnostic), returns nothing when the contract is disabled for the
/// type, and otherwise emits the full generated implementation, exactly as
/// `spec_generate` describes it.
#[verifier::loop_isolation(false)]
pub fn generate(decl: TypeDeclaration) -> (r: Result<
    Option<GeneratedImplementation>,
    DirectiveError,
>)
    ensures
        gen_result_view(r) == spec_generate(decl@),
{
    let ghost dv = decl@;
    let TypeDeclaration { name, generic_params, shape, attrs } = decl;
    proof {
        assert(dv.attrs == dirs_view(attrs@));
        assert(dv.shape == shape@);
        assert(dv.name == name@);
        assert(dv.generic_params == strings_view(generic_params@));
    }
    let attr = match resolve_type_attributes(&attrs, true, true) {
        Ok(a) => a,
        Err(e) => {
            return Err(e);
        },
    };
    let ghost attrv = attr@;
    proof {
        assert(resolve_type_spec(dv.attrs, true, true) == Ok::<TypeAttributeV, DirectiveErrorV>(
            attrv));
    }
    if !attr.enabled {
        return Ok(None);
    }
    match shape {
        DataShape::RawUnion(fields) => {
            let ghost fsv = fields_view(fields@);
            let mut cand_refs: Vec<&TypeExpr> = Vec::new();
            proof {
                assert(cand_views(cand_refs@) =~= Seq::<TypeExpr>::empty());
            }
            match scan_union_fields(&fields, &mut cand_refs) {
                Ok(_) => {},
                Err(e) => {
                    return Err(e);
                },
            }
            let wc = infer_bound(&attr.bound, generic_params.len(), ContractKind::TrivialCopy,
                &cand_refs);
            proof {
                assert(cand_views(cand_refs@) =~= fields_cands_upto(fsv, fsv.len() as int));
                assert(dv.generic_params.len() == generic_params@.len());
            }
            let g = GeneratedImplementation {
                target_name: name,
                where_clause: wc,
                clone_body: CloneBody::Bitwise,
                refresh_body: None,
                copy_marker: attr.fast_path_requested,
            };
            proof {
                assert(g@ == spec_union_impl(dv, attrv, fsv));
            }
            Ok(Some(g))
        },
        other => {
            let variants = walk(other);
            let ghost vs = variants_view(variants@);
            proof {
                assert(vs == spec_walk(dv.shape));
            }
            let mut arms_c: Vec<MatchArm> = Vec::new();
            let mut arms_r: Vec<MatchArm> = Vec::new();
            let mut cand_refs: Vec<&TypeExpr> = Vec::new();
            let mut any_custom = false;
            proof {
                assert(cand_views(cand_refs@) =~= Seq::<TypeExpr>::empty());
            }
            let mut i: usize = 0;
            while i < variants.len()
                invariant
                    i <= variants@.len(),
                    variants_first_error(vs, 0) == variants_first_error(vs, i as int),
                    arms_c@.len() == i,
                    arms_r@.len() == i,
                    forall|k: int| 0 <= k < i ==> #[trigger] arms_c@[k]@ == spec_arm(vs[k]),
                    forall|k: int| 0 <= k < i ==> #[trigger] arms_r@[k]@ == spec_arm(vs[k]),
                    any_custom == exists|k: int|
                        0 <= k < i && variant_has_custom(#[trigger] vs[k]),
                    cand_views(cand_refs@) == cands_upto(vs, i as int),
                decreases variants@.len() - i,
            {
                let v = &variants[i];
                proof {
                    assert(vs[i as int] == v@);
                }
                let ghost c0 = cand_views(cand_refs@);
                match build_variant_arms(v, &mut cand_refs) {
                    Ok(out) => {
                        let (ca, ra, hc) = out;
                        arms_c.push(ca);
                        arms_r.push(ra);
                        if hc {
                            any_custom = true;
                        }
                        proof {
                            assert(cands_upto(vs, i as int + 1) == cands_upto(vs, i as int)
                                + fields_cands_upto(vs[i as int].fields,
                                vs[i as int].fields.len() as int));
                        }
                    },
                    Err(e) => {
                        proof {
                            assert(variants_first_error(vs, i as int) == Some(e@));
                        }
                        return Err(e);
                    },
                }
                i = i + 1;
            }
            let fast = attr.fast_path_requested && !any_custom;
            proof {
                assert(any_custom == has_custom(vs));
                assert(cand_views(cand_refs@) == spec_candidates(vs));
                assert(variants_first_error(vs, 0) is None);
                assert(dv.generic_params.len() == generic_params@.len());
            }
            let contract = if fast {
                ContractKind::TrivialCopy
            } else {
                ContractKind::Duplicate
            };
            let wc = infer_bound(&attr.bound, generic_params.len(), contract, &cand_refs);
            if fast {
                let g = GeneratedImplementation {
                    target_name: name,
                    where_clause: wc,
                    clone_body: CloneBody::Bitwise,
                    refresh_body: None,
                    copy_marker: true,
                };
                proof {
                    assert(g@ == spec_variants_impl(dv, attrv, vs));
                }
                Ok(Some(g))
            } else if variants.len() == 0 {
                let g = GeneratedImplementation {
                    target_name: name,
                    where_clause: wc,
                    clone_body: CloneBody::Unreachable,
                    refresh_body: Some(RefreshBody::Ignore),
                    copy_marker: false,
                };
                proof {
                    assert(g@ == spec_variants_impl(dv, attrv, vs));
                }
                Ok(Some(g))
            } else {
                let g = GeneratedImplementation {
                    target_name: name,
                    where_clause: wc,
                    clone_body: CloneBody::Arms(arms_c),
                    refresh_body: Some(RefreshBody::Arms(arms_r)),
                    copy_marker: false,
                };
                proof {
                    assert(arms_view(g.clone_body->Arms_0@) =~= spec_arms(vs));
                    assert(g.refresh_body matches Some(b) && arms_view(b->Arms_0@)
                        =~= spec_arms(vs));
                    assert(g@ == spec_variants_impl(dv, attrv, vs));
                }
                Ok(Some(g))
            }
        },
    }
}

} // verus!
