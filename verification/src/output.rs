//! The generated-code representation.
//!
//! The synthesizer emits a structured implementation of the duplication
//! contract rather than source text; serializing it into the host's
//! implementation-block syntax is a mechanical pretty-printing step left to
//! the caller. The representation fixes the semantics of the two
//! operations:
//!
//! - the copy operation produces an independent, equal-valued copy of the
//!   source instance;
//! - the refresh operation, when present, updates a destination instance in
//!   place from a source instance. When destination and source hold the
//!   same variant, each field is updated in its existing storage (by the
//!   field's custom method or a default in-place refresh); when they hold
//!   different variants, the destination is discarded and replaced
//!   wholesale by a freshly produced copy, since no field storage can be
//!   reused across variants.

use vstd::prelude::*;

use crate::ident::opt_name_view;

verus! {

/// The contract a generic parameter is constrained to satisfy.
#[derive(Debug, Clone, Copy, PartialEq, Eq, Structural)]
pub enum ContractKind {
    /// The duplication contract itself.
    Duplicate,
    /// The trivial bitwise-copy contract, required by the fast path.
    TrivialCopy,
}

/// How one field's value is obtained when duplicating or refreshing.
#[derive(Debug, Clone, PartialEq, Eq)]
pub enum DupMode {
    /// Apply this user-supplied callable to the source field.
    Custom(String),
    /// Default recursive duplication (or in-place refresh) of the field.
    Default,
}

/// One field of a match arm: its canonical identifier and how it is copied.
#[derive(Debug, Clone, PartialEq, Eq)]
pub struct FieldDup {
    pub name: String,
    pub mode: DupMode,
}

/// One match arm: the variant's discriminant (absent for the implicit
/// variant of a record) and its fields in declaration order.
#[derive(Debug, Clone, PartialEq, Eq)]
pub struct MatchArm {
    pub selector: Option<String>,
    pub fields: Vec<FieldDup>,
}

/// The body of the copy operation.
#[derive(Debug, Clone, PartialEq, Eq)]
pub enum CloneBody {
    /// Whole-value bitwise copy: the fast path, and the only legal strategy
    /// for a raw union.
    Bitwise,
    /// No valid instance can exist (a tagged union with zero variants), so
    /// the body is unreachable at runtime.
    Unreachable,
    /// One destructuring-and-constructing arm per variant, in walker order.
    Arms(Vec<MatchArm>),
}

/// The body of the refresh-in-place operation.
#[derive(Debug, Clone, PartialEq, Eq)]
pub enum RefreshBody {
    /// Nothing to do: no valid source instance can exist.
    Ignore,
    /// One arm per variant, in walker order: same-variant refresh updates
    /// the listed fields in place; a cross-variant refresh replaces the
    /// destination wholesale with a fresh copy of the source.
    Arms(Vec<MatchArm>),
}

/// One element of the emitted where-clause.
#[derive(Debug, Clone, PartialEq, Eq)]
pub enum Predicate {
    /// An inferred constraint: this generic parameter must satisfy the
    /// contract.
    Constraint { param: usize, contract: ContractKind },
    /// A user-supplied constraint item, reproduced verbatim.
    Verbatim(String),
}

/// The output of one generation request: an implementation block for the
/// duplication contract. The refresh operation is omitted (`None`) when
/// refreshing is unnecessary: on the fast path and for raw unions. The
/// companion trivial-copy marker is emitted alongside exactly when the fast
/// path is active.
#[derive(Debug, Clone, PartialEq, Eq)]
pub struct GeneratedImplementation {
    pub target_name: String,
    pub where_clause: Vec<Predicate>,
    pub clone_body: CloneBody,
    pub refresh_body: Option<RefreshBody>,
    pub copy_marker: bool,
}

/// The mathematical view of `DupMode`.
pub enum DupModeV {
    Custom(Seq<char>),
    Default,
}

/// The mathematical view of `FieldDup`.
pub struct FieldDupV {
    pub name: Seq<char>,
    pub mode: DupModeV,
}

/// The mathematical view of `MatchArm`.
pub struct MatchArmV {
    pub selector: Option<Seq<char>>,
    pub fields: Seq<FieldDupV>,
}

/// The mathematical view of `CloneBody`.
pub enum CloneBodyV {
    Bitwise,
    Unreachable,
    Arms(Seq<MatchArmV>),
}

/// The mathematical view of `RefreshBody`.
pub enum RefreshBodyV {
    Ignore,
    Arms(Seq<MatchArmV>),
}

/// The mathematical view of `Predicate`.
pub enum PredicateV {
    Constraint { param: int, contract: ContractKind },
    Verbatim(Seq<char>),
}

/// The mathematical view of `GeneratedImplementation`.
pub struct GeneratedImplementationV {
    pub target_name: Seq<char>,
    pub where_clause: Seq<PredicateV>,
    pub clone_body: CloneBodyV,
    pub refresh_body: Option<RefreshBodyV>,
    pub copy_marker: bool,
}

impl View for DupMode {
    type V = DupModeV;

    open spec fn view(&self) -> DupModeV {
        match self {
            DupMode::Custom(m) => DupModeV::Custom(m@),
            DupMode::Default => DupModeV::Default,
        }
    }
}

impl View for FieldDup {
    type V = FieldDupV;

    open spec fn view(&self) -> FieldDupV {
        FieldDupV { name: self.name@, mode: self.mode@ }
    }
}

/// The views of a sequence of field copies.
pub open spec fn field_dups_view(s: Seq<FieldDup>) -> Seq<FieldDupV> {
    s.map_values(|f: FieldDup| f@)
}

impl View for MatchArm {
    type V = MatchArmV;

    open spec fn view(&self) -> MatchArmV {
        MatchArmV { selector: opt_name_view(self.selector), fields: field_dups_view(self.fields@) }
    }
}

/// The views of a sequence of match arms.
pub open spec fn arms_view(s: Seq<MatchArm>) -> Seq<MatchArmV> {
    s.map_values(|a: MatchArm| a@)
}

impl View for CloneBody {
    type V = CloneBodyV;

    open spec fn view(&self) -> CloneBodyV {
        match self {
            CloneBody::Bitwise => CloneBodyV::Bitwise,
            CloneBody::Unreachable => CloneBodyV::Unreachable,
            CloneBody::Arms(arms) => CloneBodyV::Arms(arms_view(arms@)),
        }
    }
}

impl View for RefreshBody {
    type V = RefreshBodyV;

    open spec fn view(&self) -> RefreshBodyV {
        match self {
            RefreshBody::Ignore => RefreshBodyV::Ignore,
            RefreshBody::Arms(arms) => RefreshBodyV::Arms(arms_view(arms@)),
        }
    }
}

impl View for Predicate {
    type V = PredicateV;

    open spec fn view(&self) -> PredicateV {
        match self {
            Predicate::Constraint { param, contract } => PredicateV::Constraint {
                param: *param as int,
                contract: *contract,
            },
            Predicate::Verbatim(item) => PredicateV::Verbatim(item@),
        }
    }
}

/// The views of a where-clause.
pub open spec fn preds_view(s: Seq<Predicate>) -> Seq<PredicateV> {
    s.map_values(|p: Predicate| p@)
}

impl View for GeneratedImplementation {
    type V = GeneratedImplementationV;

    open spec fn view(&self) -> GeneratedImplementationV {
        GeneratedImplementationV {
            target_name: self.target_name@,
            where_clause: preds_view(self.where_clause@),
            clone_body: self.clone_body@,
            refresh_body: match self.refresh_body {
                Some(ref b) => Some(b@),
                None => None,
            },
            copy_marker: self.copy_marker,
        }
    }
}

} // verus!
