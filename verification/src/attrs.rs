//! Directive resolution.
//!
//! Raw directives are merged left to right into a typed configuration: a
//! later directive for the same key overrides an earlier one. The first
//! unknown key, wrong value shape, or directive that is not allowed at its
//! level stops resolution with a diagnostic naming the offending key and its
//! source location.
//!
//! Recognized type-level keys: `enabled` (a flag; whether the contract
//! applies at all), `bound` (a flag toggling inference off or on, the word
//! `inferred`, or an explicit verbatim constraint list), and `fast_path` (a
//! flag requesting the bitwise-copy optimization). Recognized field-level
//! key: `custom_method` (a callable reference replacing the default
//! duplication of that field). A variant cannot independently disable the
//! contract or override the bound, so variant-level resolution runs with
//! `enable_flag` and `enable_bound` off, rejecting those keys there.

use vstd::prelude::*;

use crate::model::{Directive, DirectiveV, DirectiveValue, DirectiveValueV, dirs_view,
    strings_view};

verus! {

/// How the generic where-clause of the emitted implementation is chosen.
#[derive(Debug, Clone, PartialEq, Eq)]
pub enum BoundSpec {
    /// Infer the minimal constraints from the default-path field types.
    Inferred,
    /// Use this user-supplied constraint list verbatim.
    Explicit(Vec<String>),
    /// Emit no constraints at all.
    Absent,
}

/// Resolved type-level configuration.
#[derive(Debug, Clone, PartialEq, Eq)]
pub struct TypeAttribute {
    pub enabled: bool,
    pub bound: BoundSpec,
    pub fast_path_requested: bool,
}

/// Resolved field-level configuration.
#[derive(Debug, Clone, PartialEq, Eq)]
pub struct FieldAttribute {
    pub custom_method: Option<String>,
}

/// What was wrong with a rejected directive.
#[derive(Debug, Clone, Copy, PartialEq, Eq, Structural)]
pub enum DirectiveErrorKind {
    /// The key is not a recognized directive at this level.
    UnknownKey,
    /// The key is recognized but its value has the wrong shape.
    ValueShape,
    /// The directive is recognized but not permitted at this level.
    NotAllowedHere,
}

/// A rejected directive, bound to the source location it came from.
#[derive(Debug, Clone, PartialEq, Eq)]
pub struct DirectiveError {
    pub kind: DirectiveErrorKind,
    pub key: String,
    pub location: u64,
}

/// The mathematical view of `BoundSpec`.
pub enum BoundSpecV {
    Inferred,
    Explicit(Seq<Seq<char>>),
    Absent,
}

/// The mathematical view of `TypeAttribute`.
pub struct TypeAttributeV {
    pub enabled: bool,
    pub bound: BoundSpecV,
    pub fast_path_requested: bool,
}

/// The mathematical view of `FieldAttribute`.
pub struct FieldAttributeV {
    pub custom_method: Option<Seq<char>>,
}

/// The mathematical view of `DirectiveError`.
pub struct DirectiveErrorV {
    pub kind: DirectiveErrorKind,
    pub key: Seq<char>,
    pub location: u64,
}

impl View for BoundSpec {
    type V = BoundSpecV;

    open spec fn view(&self) -> BoundSpecV {
        match self {
            BoundSpec::Inferred => BoundSpecV::Inferred,
            BoundSpec::Explicit(items) => BoundSpecV::Explicit(strings_view(items@)),
            BoundSpec::Absent => BoundSpecV::Absent,
        }
    }
}

impl View for TypeAttribute {
    type V = TypeAttributeV;

    open spec fn view(&self) -> TypeAttributeV {
        TypeAttributeV {
            enabled: self.enabled,
            bound: self.bound@,
            fast_path_requested: self.fast_path_requested,
        }
    }
}

impl View for FieldAttribute {
    type V = FieldAttributeV;

    open spec fn view(&self) -> FieldAttributeV {
        FieldAttributeV { custom_method: crate::ident::opt_name_view(self.custom_method) }
    }
}

impl View for DirectiveError {
    type V = DirectiveErrorV;

    open spec fn view(&self) -> DirectiveErrorV {
        DirectiveErrorV { kind: self.kind, key: self.key@, location: self.location }
    }
}

/// The view of a resolution outcome at type level.
pub open spec fn type_result_view(r: Result<TypeAttribute, DirectiveError>) -> Result<
    TypeAttributeV,
    DirectiveErrorV,
> {
    match r {
        Ok(a) => Ok(a@),
        Err(e) => Err(e@),
    }
}

/// The view of a resolution outcome at field level.
pub open spec fn field_result_view(r: Result<FieldAttribute, DirectiveError>) -> Result<
    FieldAttributeV,
    DirectiveErrorV,
> {
    match r {
        Ok(a) => Ok(a@),
        Err(e) => Err(e@),
    }
}

/// The configuration a type has before any directive is applied: the
/// contract enabled, the bound inferred, no fast path.
pub open spec fn default_type_attribute() -> TypeAttributeV {
    TypeAttributeV { enabled: true, bound: BoundSpecV::Inferred, fast_path_requested: false }
}

/// Why a single type-level directive is rejected, or `None` if it is
/// accepted at a level with the given toggles.
pub open spec fn type_directive_error(d: DirectiveV, enable_flag: bool, enable_bound: bool)
    -> Option<DirectiveErrorKind> {
    if d.key == "enabled"@ {
        if !enable_flag {
            Some(DirectiveErrorKind::NotAllowedHere)
        } else if !(d.value is Flag) {
            Some(DirectiveErrorKind::ValueShape)
        } else {
            None
        }
    } else if d.key == "bound"@ {
        if !enable_bound {
            Some(DirectiveErrorKind::NotAllowedHere)
        } else {
            match d.value {
                DirectiveValueV::Flag(_) => None,
                DirectiveValueV::Word(w) => if w == "inferred"@ {
                    None
                } else {
                    Some(DirectiveErrorKind::ValueShape)
                },
                DirectiveValueV::Items(_) => None,
            }
        }
    } else if d.key == "fast_path"@ {
        if !(d.value is Flag) {
            Some(DirectiveErrorKind::ValueShape)
        } else {
            None
        }
    } else {
        Some(DirectiveErrorKind::UnknownKey)
    }
}

/// The effect of one accepted type-level directive on the configuration.
pub open spec fn apply_type_directive(acc: TypeAttributeV, d: DirectiveV) -> TypeAttributeV {
    if d.key == "enabled"@ {
        match d.value {
            DirectiveValueV::Flag(b) => TypeAttributeV {
                enabled: b,
                bound: acc.bound,
                fast_path_requested: acc.fast_path_requested,
            },
            _ => acc,
        }
    } else if d.key == "bound"@ {
        let bound = match d.value {
            DirectiveValueV::Flag(b) => if b {
                BoundSpecV::Inferred
            } else {
                BoundSpecV::Absent
            },
            DirectiveValueV::Word(_) => BoundSpecV::Inferred,
            DirectiveValueV::Items(items) => BoundSpecV::Explicit(items),
        };
        TypeAttributeV {
            enabled: acc.enabled,
            bound,
            fast_path_requested: acc.fast_path_requested,
        }
    } else {
        match d.value {
            DirectiveValueV::Flag(b) => TypeAttributeV {
                enabled: acc.enabled,
                bound: acc.bound,
                fast_path_requested: b,
            },
            _ => acc,
        }
    }
}

/// Resolution of the type-level directives from position `i` on, starting
/// from the accumulated configuration `acc`: the first rejected directive
/// wins, later accepted directives override earlier ones.
pub open spec fn resolve_type_from(
    s: Seq<DirectiveV>,
    i: int,
    acc: TypeAttributeV,
    enable_flag: bool,
    enable_bound: bool,
) -> Result<TypeAttributeV, DirectiveErrorV>
    decreases s.len() - i,
{
    if i < 0 || i >= s.len() {
        Ok(acc)
    } else {
        match type_directive_error(s[i], enable_flag, enable_bound) {
            Some(kind) => Err(DirectiveErrorV { kind, key: s[i].key, location: s[i].location }),
            None => resolve_type_from(s, i + 1, apply_type_directive(acc, s[i]), enable_flag,
                enable_bound),
        }
    }
}

/// Full resolution of a type-level directive list.
pub open spec fn resolve_type_spec(s: Seq<DirectiveV>, enable_flag: bool, enable_bound: bool)
    -> Result<TypeAttributeV, DirectiveErrorV> {
    resolve_type_from(s, 0, default_type_attribute(), enable_flag, enable_bound)
}

/// Why a single field-level directive is rejected, or `None` if it is
/// accepted. `enable_method` is off for fields of a raw union, which cannot
/// carry a custom duplication method.
pub open spec fn field_directive_error(d: DirectiveV, enable_method: bool)
    -> Option<DirectiveErrorKind> {
    if d.key == "custom_method"@ {
        if !enable_method {
            Some(DirectiveErrorKind::NotAllowedHere)
        } else if !(d.value is Word) {
            Some(DirectiveErrorKind::ValueShape)
        } else {
            None
        }
    } else {
        Some(DirectiveErrorKind::UnknownKey)
    }
}

/// The effect of one accepted field-level directive on the configuration.
pub open spec fn apply_field_directive(acc: FieldAttributeV, d: DirectiveV) -> FieldAttributeV {
    match d.value {
        DirectiveValueV::Word(w) => FieldAttributeV { custom_method: Some(w) },
        _ => acc,
    }
}

/// Resolution of the field-level directives from position `i` on.
pub open spec fn resolve_field_from(
    s: Seq<DirectiveV>,
    i: int,
    acc: FieldAttributeV,
    enable_method: bool,
) -> Result<FieldAttributeV, DirectiveErrorV>
    decreases s.len() - i,
{
    if i < 0 || i >= s.len() {
        Ok(acc)
    } else {
        match field_directive_error(s[i], enable_method) {
            Some(kind) => Err(DirectiveErrorV { kind, key: s[i].key, location: s[i].location }),
            None => resolve_field_from(s, i + 1, apply_field_directive(acc, s[i]), enable_method),
        }
    }
}

/// Full resolution of a field-level directive list: by default a field has
/// no custom method.
pub open spec fn resolve_field_spec(s: Seq<DirectiveV>, enable_method: bool) -> Result<
    FieldAttributeV,
    DirectiveErrorV,
> {
    resolve_field_from(s, 0, FieldAttributeV { custom_method: None }, enable_method)
}

/// Whether the owned key equals the literal.
fn is_key(k: &String, lit: &str) -> (b: bool)
    ensures
        b == (k@ == lit@),
{
    let s: String = lit.to_owned();
    *k == s
}

/// An owned copy of a list of verbatim constraint items.
fn clone_strings(v: &Vec<String>) -> (r: Vec<String>)
    ensures
        r@ == v@,
{
    let mut r: Vec<String> = Vec::new();
    let mut i: usize = 0;
    while i < v.len()
        invariant
            i <= v.len(),
            r@ =~= v@.take(i as int),
        decreases v.len() - i,
    {
        r.push(v[i].clone());
        i = i + 1;
    }
    proof {
        assert(r@ =~= v@);
    }
    r
}

/// Resolves the type-level (or, with both toggles off, variant-level)
/// directives into a type configuration. Later directives override earlier
/// ones; the first unknown key, wrong value shape, or directive not allowed
/// at this level is rejected with a diagnostic naming the key and its
/// source location.
pub fn resolve_type_attributes(
    directives: &Vec<Directive>,
    enable_flag: bool,
    enable_bound: bool,
) -> (r: Result<TypeAttribute, DirectiveError>)
    ensures
        type_result_view(r) == resolve_type_spec(dirs_view(directives@), enable_flag,
            enable_bound),
{
    let ghost s = dirs_view(directives@);
    let mut acc = TypeAttribute {
        enabled: true,
        bound: BoundSpec::Inferred,
        fast_path_requested: false,
    };
    let mut i: usize = 0;
    while i < directives.len()
        invariant
            i <= directives.len(),
            s == dirs_view(directives@),
            s.len() == directives@.len(),
            resolve_type_from(s, 0, default_type_attribute(), enable_flag, enable_bound)
                == resolve_type_from(s, i as int, acc@, enable_flag, enable_bound),
        decreases directives.len() - i,
    {
        let d = &directives[i];
        proof {
            assert(s[i as int] == d@);
        }
        if is_key(&d.key, "enabled") {
            if !enable_flag {
                return Err(DirectiveError {
                    kind: DirectiveErrorKind::NotAllowedHere,
                    key: d.key.clone(),
                    location: d.location,
                });
            }
            match &d.value {
                DirectiveValue::Flag(b) => {
                    acc.enabled = *b;
                },
                _ => {
                    return Err(DirectiveError {
                        kind: DirectiveErrorKind::ValueShape,
                        key: d.key.clone(),
                        location: d.location,
                    });
                },
            }
        } else if is_key(&d.key, "bound") {
            if !enable_bound {
                return Err(DirectiveError {
                    kind: DirectiveErrorKind::NotAllowedHere,
                    key: d.key.clone(),
                    location: d.location,
                });
            }
            match &d.value {
                DirectiveValue::Flag(b) => {
                    acc.bound = if *b {
                        BoundSpec::Inferred
                    } else {
                        BoundSpec::Absent
                    };
                },
                DirectiveValue::Word(w) => {
                    if is_key(w, "inferred") {
                        acc.bound = BoundSpec::Inferred;
                    } else {
                        return Err(DirectiveError {
                            kind: DirectiveErrorKind::ValueShape,
                            key: d.key.clone(),
                            location: d.location,
                        });
                    }
                },
                DirectiveValue::Items(items) => {
                    acc.bound = BoundSpec::Explicit(clone_strings(items));
                },
            }
        } else if is_key(&d.key, "fast_path") {
            match &d.value {
                DirectiveValue::Flag(b) => {
                    acc.fast_path_requested = *b;
                },
                _ => {
                    return Err(DirectiveError {
                        kind: DirectiveErrorKind::ValueShape,
                        key: d.key.clone(),
                        location: d.location,
                    });
                },
            }
        } else {
            return Err(DirectiveError {
                kind: DirectiveErrorKind::UnknownKey,
                key: d.key.clone(),
                location: d.location,
            });
        }
        i = i + 1;
    }
    Ok(acc)
}

/// Resolves the field-level directives into a field configuration. With
/// `enable_method` off (fields of a raw union) a `custom_method` directive
/// is rejected rather than recorded.
pub fn resolve_field_attributes(directives: &Vec<Directive>, enable_method: bool) -> (r: Result<
    FieldAttribute,
    DirectiveError,
>)
    ensures
        field_result_view(r) == resolve_field_spec(dirs_view(directives@), enable_method),
{
    let ghost s = dirs_view(directives@);
    let mut acc = FieldAttribute { custom_method: None };
    let mut i: usize = 0;
    while i < directives.len()
        invariant
            i <= directives.len(),
            s == dirs_view(directives@),
            s.len() == directives@.len(),
            resolve_field_from(s, 0, FieldAttributeV { custom_method: None }, enable_method)
                == resolve_field_from(s, i as int, acc@, enable_method),
        decreases directives.len() - i,
    {
        let d = &directives[i];
        proof {
            assert(s[i as int] == d@);
        }
        if is_key(&d.key, "custom_method") {
            if !enable_method {
                return Err(DirectiveError {
                    kind: DirectiveErrorKind::NotAllowedHere,
                    key: d.key.clone(),
                    location: d.location,
                });
            }
            match &d.value {
                DirectiveValue::Word(w) => {
                    acc.custom_method = Some(w.clone());
                },
                _ => {
                    return Err(DirectiveError {
                        kind: DirectiveErrorKind::ValueShape,
                        key: d.key.clone(),
                        location: d.location,
                    });
                },
            }
        } else {
            return Err(DirectiveError {
                kind: DirectiveErrorKind::UnknownKey,
                key: d.key.clone(),
                location: d.location,
            });
        }
        i = i + 1;
    }
    Ok(acc)
}

} // verus!
