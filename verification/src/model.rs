//! The input model: a type declaration normalized into plain values.
//!
//! A declaration carries a name, an ordered list of generic parameters, a
//! data shape (record, tagged union, or raw union) and raw directives. Raw
//! directives are the generic key/value tree handed over by the host's
//! attribute parser; resolving them into typed configuration is the job of
//! `attrs`. A type expression is a tree over named constructors whose leaves
//! may be generic parameters of the declaring type, referred to by their
//! position in the parameter list.

use vstd::prelude::*;

verus! {

/// A type expression as it appears in a field declaration. Generic
/// parameters of the declaring type are referred to by their index in its
/// parameter list; everything else is a named constructor applied to
/// argument expressions.
#[derive(Debug, PartialEq, Eq)]
pub enum TypeExpr {
    /// The generic parameter with this index in the declaring type's list.
    Param(usize),
    /// A named type constructor applied to zero or more arguments.
    Apply(String, Vec<TypeExpr>),
}

/// Whether the generic parameter with index `p` appears, however deeply
/// nested, inside the type expression `t`.
pub open spec fn expr_mentions(t: TypeExpr, p: int) -> bool
    decreases t,
{
    match t {
        TypeExpr::Param(i) => i == p,
        TypeExpr::Apply(_, args) => exists|i: int|
            0 <= i < args@.len() && expr_mentions(#[trigger] args@[i], p),
    }
}

/// The value carried by one raw directive.
#[derive(Debug, PartialEq, Eq)]
pub enum DirectiveValue {
    /// A boolean switch, as in `enabled = false`.
    Flag(bool),
    /// A single word: a mode name or a callable reference.
    Word(String),
    /// A list of verbatim constraint items.
    Items(Vec<String>),
}

/// One raw directive: a key, a value, and the source location it came from,
/// carried through so that a diagnostic can point at the offending
/// declaration site.
#[derive(Debug, PartialEq, Eq)]
pub struct Directive {
    pub key: String,
    pub value: DirectiveValue,
    pub location: u64,
}

/// One datum within a variant: an optional declared name (absent for
/// positional fields), the declared type, and the field's raw directives.
#[derive(Debug, PartialEq, Eq)]
pub struct Field {
    pub name: Option<String>,
    pub ty: TypeExpr,
    pub attrs: Vec<Directive>,
}

/// One alternative of a tagged union, or the single implicit alternative of
/// a record, which has no discriminant.
#[derive(Debug, PartialEq, Eq)]
pub struct Variant {
    pub discriminant: Option<String>,
    pub fields: Vec<Field>,
    pub attrs: Vec<Directive>,
}

/// The data shape of a declaration.
#[derive(Debug, PartialEq, Eq)]
pub enum DataShape {
    /// A single-variant record; its fields form one implicit variant.
    Record(Vec<Field>),
    /// A multi-variant tagged union, variants in declaration order.
    TaggedUnion(Vec<Variant>),
    /// A raw union: no variant concept, only whole-value duplication.
    RawUnion(Vec<Field>),
}

/// The subject of one generation request. Never mutated by the pipeline.
#[derive(Debug, PartialEq, Eq)]
pub struct TypeDeclaration {
    pub name: String,
    pub generic_params: Vec<String>,
    pub shape: DataShape,
    pub attrs: Vec<Directive>,
}

/// The mathematical view of a directive value.
pub enum DirectiveValueV {
    Flag(bool),
    Word(Seq<char>),
    Items(Seq<Seq<char>>),
}

/// The mathematical view of a raw directive.
pub struct DirectiveV {
    pub key: Seq<char>,
    pub value: DirectiveValueV,
    pub location: u64,
}

/// The mathematical view of a field. The type expression is carried as the
/// value itself: contracts only ever ask which parameters it mentions.
pub struct FieldV {
    pub name: Option<Seq<char>>,
    pub ty: TypeExpr,
    pub attrs: Seq<DirectiveV>,
}

/// The mathematical view of a variant.
pub struct VariantV {
    pub discriminant: Option<Seq<char>>,
    pub fields: Seq<FieldV>,
    pub attrs: Seq<DirectiveV>,
}

/// The mathematical view of a data shape.
pub enum DataShapeV {
    Record(Seq<FieldV>),
    TaggedUnion(Seq<VariantV>),
    RawUnion(Seq<FieldV>),
}

/// The mathematical view of a type declaration.
pub struct TypeDeclarationV {
    pub name: Seq<char>,
    pub generic_params: Seq<Seq<char>>,
    pub shape: DataShapeV,
    pub attrs: Seq<DirectiveV>,
}

/// The views of a sequence of raw directives.
pub open spec fn dirs_view(s: Seq<Directive>) -> Seq<DirectiveV> {
    s.map_values(|d: Directive| d@)
}

/// The views of a sequence of fields.
pub open spec fn fields_view(s: Seq<Field>) -> Seq<FieldV> {
    s.map_values(|f: Field| f@)
}

/// The views of a sequence of variants.
pub open spec fn variants_view(s: Seq<Variant>) -> Seq<VariantV> {
    s.map_values(|v: Variant| v@)
}

/// The views of a sequence of owned strings.
pub open spec fn strings_view(s: Seq<String>) -> Seq<Seq<char>> {
    s.map_values(|x: String| x@)
}

impl View for DirectiveValue {
    type V = DirectiveValueV;

    open spec fn view(&self) -> DirectiveValueV {
        match self {
            DirectiveValue::Flag(b) => DirectiveValueV::Flag(*b),
            DirectiveValue::Word(w) => DirectiveValueV::Word(w@),
            DirectiveValue::Items(items) => DirectiveValueV::Items(strings_view(items@)),
        }
    }
}

impl View for Directive {
    type V = DirectiveV;

    open spec fn view(&self) -> DirectiveV {
        DirectiveV { key: self.key@, value: self.value@, location: self.location }
    }
}

impl View for Field {
    type V = FieldV;

    open spec fn view(&self) -> FieldV {
        FieldV {
            name: crate::ident::opt_name_view(self.name),
            ty: self.ty,
            attrs: dirs_view(self.attrs@),
        }
    }
}

impl View for Variant {
    type V = VariantV;

    open spec fn view(&self) -> VariantV {
        VariantV {
            discriminant: crate::ident::opt_name_view(self.discriminant),
            fields: fields_view(self.fields@),
            attrs: dirs_view(self.attrs@),
        }
    }
}

impl View for DataShape {
    type V = DataShapeV;

    open spec fn view(&self) -> DataShapeV {
        match self {
            DataShape::Record(fields) => DataShapeV::Record(fields_view(fields@)),
            DataShape::TaggedUnion(variants) => DataShapeV::TaggedUnion(variants_view(variants@)),
            DataShape::RawUnion(fields) => DataShapeV::RawUnion(fields_view(fields@)),
        }
    }
}

impl View for TypeDeclaration {
    type V = TypeDeclarationV;

    open spec fn view(&self) -> TypeDeclarationV {
        TypeDeclarationV {
            name: self.name@,
            generic_params: strings_view(self.generic_params@),
            shape: self.shape@,
            attrs: dirs_view(self.attrs@),
        }
    }
}

} // verus!
