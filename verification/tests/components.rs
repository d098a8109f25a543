use dupgen::attrs::{
    resolve_field_attributes, resolve_type_attributes, BoundSpec, DirectiveErrorKind,
};
use dupgen::bounds::{infer_bound, type_expr_mentions};
use dupgen::ident::{decimal_string, resolve_identity};
use dupgen::model::{DataShape, Directive, DirectiveValue, Field, TypeExpr, Variant};
use dupgen::output::{ContractKind, Predicate};
use dupgen::walker::walk;

fn dir(key: &str, value: DirectiveValue, location: u64) -> Directive {
    Directive { key: key.to_string(), value, location }
}

fn plain_field(name: Option<&str>, ty: TypeExpr) -> Field {
    Field { name: name.map(|n| n.to_string()), ty, attrs: vec![] }
}

#[test]
fn identity_keeps_declared_name() {
    assert_eq!(resolve_identity(&Some("count".to_string()), 7), "count");
}

#[test]
fn identity_synthesizes_positional_name() {
    assert_eq!(resolve_identity(&None, 0), "0");
    assert_eq!(resolve_identity(&None, 12), "12");
}

#[test]
fn decimal_rendering_is_exact() {
    assert_eq!(decimal_string(0), "0");
    assert_eq!(decimal_string(10), "10");
    assert_eq!(decimal_string(907), "907");
    assert_eq!(decimal_string(usize::MAX), usize::MAX.to_string());
}

#[test]
fn walker_models_record_as_one_implicit_variant() {
    let shape = DataShape::Record(vec![
        plain_field(Some("a"), TypeExpr::Param(0)),
        plain_field(None, TypeExpr::Param(0)),
    ]);
    let variants = walk(shape);
    assert_eq!(variants.len(), 1);
    assert!(variants[0].discriminant.is_none());
    assert_eq!(variants[0].fields.len(), 2);
    assert!(variants[0].attrs.is_empty());
}

#[test]
fn walker_preserves_declaration_order() {
    let mk = |n: &str| Variant { discriminant: Some(n.to_string()), fields: vec![], attrs: vec![] };
    let shape = DataShape::TaggedUnion(vec![mk("North"), mk("East"), mk("South")]);
    let variants = walk(shape);
    let names: Vec<&str> =
        variants.iter().map(|v| v.discriminant.as_deref().unwrap()).collect();
    assert_eq!(names, vec!["North", "East", "South"]);
}

#[test]
fn unknown_type_directive_is_rejected() {
    let ds = vec![dir("colour", DirectiveValue::Flag(true), 41)];
    let e = resolve_type_attributes(&ds, true, true).unwrap_err();
    assert_eq!(e.kind, DirectiveErrorKind::UnknownKey);
    assert_eq!(e.key, "colour");
    assert_eq!(e.location, 41);
}

#[test]
fn enabled_needs_a_flag_value() {
    let ds = vec![dir("enabled", DirectiveValue::Word("yes".to_string()), 5)];
    let e = resolve_type_attributes(&ds, true, true).unwrap_err();
    assert_eq!(e.kind, DirectiveErrorKind::ValueShape);
    assert_eq!(e.key, "enabled");
}

#[test]
fn enabled_flag_is_recorded() {
    let ds = vec![dir("enabled", DirectiveValue::Flag(false), 1)];
    let a = resolve_type_attributes(&ds, true, true).unwrap();
    assert!(!a.enabled);
    assert_eq!(a.bound, BoundSpec::Inferred);
    assert!(!a.fast_path_requested);
}

#[test]
fn bound_directive_shapes() {
    let off = vec![dir("bound", DirectiveValue::Flag(false), 1)];
    assert_eq!(resolve_type_attributes(&off, true, true).unwrap().bound, BoundSpec::Absent);

    let word = vec![dir("bound", DirectiveValue::Word("inferred".to_string()), 2)];
    assert_eq!(resolve_type_attributes(&word, true, true).unwrap().bound, BoundSpec::Inferred);

    let items = vec![dir(
        "bound",
        DirectiveValue::Items(vec!["T: MyDup".to_string(), "U: MyDup".to_string()]),
        3,
    )];
    assert_eq!(
        resolve_type_attributes(&items, true, true).unwrap().bound,
        BoundSpec::Explicit(vec!["T: MyDup".to_string(), "U: MyDup".to_string()])
    );
}

#[test]
fn bound_rejects_other_words() {
    let ds = vec![dir("bound", DirectiveValue::Word("guessed".to_string()), 9)];
    let e = resolve_type_attributes(&ds, true, true).unwrap_err();
    assert_eq!(e.kind, DirectiveErrorKind::ValueShape);
    assert_eq!(e.key, "bound");
}

#[test]
fn fast_path_flag_is_recorded() {
    let ds = vec![dir("fast_path", DirectiveValue::Flag(true), 1)];
    let a = resolve_type_attributes(&ds, true, true).unwrap();
    assert!(a.fast_path_requested);
    assert!(a.enabled);
}

#[test]
fn later_directive_overrides_earlier() {
    let ds = vec![
        dir("enabled", DirectiveValue::Flag(false), 1),
        dir("enabled", DirectiveValue::Flag(true), 2),
    ];
    let a = resolve_type_attributes(&ds, true, true).unwrap();
    assert!(a.enabled);
}

#[test]
fn variant_level_cannot_disable_or_rebind() {
    let en = vec![dir("enabled", DirectiveValue::Flag(false), 7)];
    let e = resolve_type_attributes(&en, false, false).unwrap_err();
    assert_eq!(e.kind, DirectiveErrorKind::NotAllowedHere);

    let bd = vec![dir("bound", DirectiveValue::Flag(false), 8)];
    let e = resolve_type_attributes(&bd, false, false).unwrap_err();
    assert_eq!(e.kind, DirectiveErrorKind::NotAllowedHere);

    let fp = vec![dir("fast_path", DirectiveValue::Flag(true), 9)];
    assert!(resolve_type_attributes(&fp, false, false).is_ok());
}

#[test]
fn field_custom_method_is_recorded() {
    let ds = vec![dir("custom_method", DirectiveValue::Word("halve_copy".to_string()), 3)];
    let a = resolve_field_attributes(&ds, true).unwrap();
    assert_eq!(a.custom_method.as_deref(), Some("halve_copy"));
}

#[test]
fn field_directive_rejections() {
    let shape = vec![dir("custom_method", DirectiveValue::Flag(true), 4)];
    let e = resolve_field_attributes(&shape, true).unwrap_err();
    assert_eq!(e.kind, DirectiveErrorKind::ValueShape);

    let unknown = vec![dir("method", DirectiveValue::Word("f".to_string()), 5)];
    let e = resolve_field_attributes(&unknown, true).unwrap_err();
    assert_eq!(e.kind, DirectiveErrorKind::UnknownKey);

    let disallowed = vec![dir("custom_method", DirectiveValue::Word("f".to_string()), 6)];
    let e = resolve_field_attributes(&disallowed, false).unwrap_err();
    assert_eq!(e.kind, DirectiveErrorKind::NotAllowedHere);
}

#[test]
fn mention_check_sees_nested_parameters() {
    let ty = TypeExpr::Apply(
        "Map".to_string(),
        vec![
            TypeExpr::Apply("Box".to_string(), vec![TypeExpr::Param(0)]),
            TypeExpr::Param(1),
        ],
    );
    assert!(type_expr_mentions(&ty, 0));
    assert!(type_expr_mentions(&ty, 1));
    assert!(!type_expr_mentions(&ty, 2));
}

#[test]
fn inference_emits_constraints_in_declaration_order() {
    let t0 = TypeExpr::Param(2);
    let t1 = TypeExpr::Apply("Vec".to_string(), vec![TypeExpr::Param(0)]);
    let cands = vec![&t0, &t1];
    let w = infer_bound(&BoundSpec::Inferred, 3, ContractKind::Duplicate, &cands);
    assert_eq!(
        w,
        vec![
            Predicate::Constraint { param: 0, contract: ContractKind::Duplicate },
            Predicate::Constraint { param: 2, contract: ContractKind::Duplicate },
        ]
    );
}

#[test]
fn explicit_override_is_verbatim_and_absent_is_empty() {
    let t0 = TypeExpr::Param(0);
    let cands = vec![&t0];
    let w = infer_bound(
        &BoundSpec::Explicit(vec!["T: Special".to_string()]),
        1,
        ContractKind::Duplicate,
        &cands,
    );
    assert_eq!(w, vec![Predicate::Verbatim("T: Special".to_string())]);

    let w = infer_bound(&BoundSpec::Absent, 1, ContractKind::Duplicate, &cands);
    assert!(w.is_empty());
}
