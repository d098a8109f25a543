use dupgen::attrs::DirectiveErrorKind;
use dupgen::model::{DataShape, Directive, DirectiveValue, Field, TypeDeclaration, TypeExpr,
    Variant};
use dupgen::output::{CloneBody, ContractKind, DupMode, Predicate, RefreshBody};
use dupgen::synth::generate;

fn dir(key: &str, value: DirectiveValue, location: u64) -> Directive {
    Directive { key: key.to_string(), value, location }
}

fn field(name: Option<&str>, ty: TypeExpr, attrs: Vec<Directive>) -> Field {
    Field { name: name.map(|n| n.to_string()), ty, attrs }
}

fn variant(name: &str, fields: Vec<Field>) -> Variant {
    Variant { discriminant: Some(name.to_string()), fields, attrs: vec![] }
}

fn decl(name: &str, params: &[&str], shape: DataShape, attrs: Vec<Directive>) -> TypeDeclaration {
    TypeDeclaration {
        name: name.to_string(),
        generic_params: params.iter().map(|p| p.to_string()).collect(),
        shape,
        attrs,
    }
}

fn custom(method: &str) -> Vec<Directive> {
    vec![dir("custom_method", DirectiveValue::Word(method.to_string()), 0)]
}

#[test]
fn two_variant_union_default_duplication() {
    let shape = DataShape::TaggedUnion(vec![
        variant("A", vec![field(Some("x"), TypeExpr::Param(0), vec![])]),
        variant(
            "B",
            vec![
                field(None, TypeExpr::Param(0), vec![]),
                field(None, TypeExpr::Param(0), vec![]),
            ],
        ),
    ]);
    let g = generate(decl("E", &["T"], shape, vec![])).unwrap().unwrap();
    assert_eq!(g.target_name, "E");
    match &g.clone_body {
        CloneBody::Arms(arms) => {
            assert_eq!(arms.len(), 2);
            assert_eq!(arms[0].selector.as_deref(), Some("A"));
            assert_eq!(arms[0].fields.len(), 1);
            assert_eq!(arms[0].fields[0].name, "x");
            assert!(matches!(arms[0].fields[0].mode, DupMode::Default));
            assert_eq!(arms[1].selector.as_deref(), Some("B"));
            assert_eq!(arms[1].fields.len(), 2);
            assert_eq!(arms[1].fields[0].name, "0");
            assert_eq!(arms[1].fields[1].name, "1");
            assert!(matches!(arms[1].fields[0].mode, DupMode::Default));
            assert!(matches!(arms[1].fields[1].mode, DupMode::Default));
        },
        other => panic!("expected per-variant arms, got {:?}", other),
    }
    assert_eq!(
        g.where_clause,
        vec![Predicate::Constraint { param: 0, contract: ContractKind::Duplicate }]
    );
    assert!(!g.copy_marker);
}

#[test]
fn refresh_arms_mirror_copy_arms() {
    let shape = DataShape::TaggedUnion(vec![
        variant("A", vec![field(Some("x"), TypeExpr::Param(0), vec![])]),
        variant("B", vec![field(None, TypeExpr::Param(0), custom("renew"))]),
    ]);
    let g = generate(decl("E", &["T"], shape, vec![])).unwrap().unwrap();
    let clone_arms = match g.clone_body {
        CloneBody::Arms(arms) => arms,
        other => panic!("expected per-variant arms, got {:?}", other),
    };
    let refresh_arms = match g.refresh_body {
        Some(RefreshBody::Arms(arms)) => arms,
        other => panic!("expected per-variant refresh arms, got {:?}", other),
    };
    assert_eq!(clone_arms, refresh_arms);
}

#[test]
fn record_with_custom_method_excludes_its_type_from_bound() {
    let shape = DataShape::Record(vec![field(
        Some("half"),
        TypeExpr::Param(0),
        custom("halve_copy"),
    )]);
    let g = generate(decl("R", &["T"], shape, vec![])).unwrap().unwrap();
    match &g.clone_body {
        CloneBody::Arms(arms) => {
            assert_eq!(arms.len(), 1);
            assert!(arms[0].selector.is_none());
            assert_eq!(arms[0].fields.len(), 1);
            assert_eq!(arms[0].fields[0].name, "half");
            match &arms[0].fields[0].mode {
                DupMode::Custom(m) => assert_eq!(m, "halve_copy"),
                DupMode::Default => panic!("expected the custom method to be used"),
            }
        },
        other => panic!("expected a single implicit arm, got {:?}", other),
    }
    assert!(g.where_clause.is_empty());
}

#[test]
fn mixed_fields_constrain_only_default_path_parameters() {
    let shape = DataShape::Record(vec![
        field(Some("skipped"), TypeExpr::Param(0), custom("halve_copy")),
        field(
            Some("kept"),
            TypeExpr::Apply("Vec".to_string(), vec![TypeExpr::Param(1)]),
            vec![],
        ),
    ]);
    let g = generate(decl("R", &["T", "U"], shape, vec![])).unwrap().unwrap();
    assert_eq!(
        g.where_clause,
        vec![Predicate::Constraint { param: 1, contract: ContractKind::Duplicate }]
    );
}

#[test]
fn fast_path_record_is_a_bitwise_copy() {
    let shape = DataShape::Record(vec![field(Some("n"), TypeExpr::Param(0), vec![])]);
    let attrs = vec![dir("fast_path", DirectiveValue::Flag(true), 0)];
    let g = generate(decl("R", &["T"], shape, attrs)).unwrap().unwrap();
    assert!(matches!(g.clone_body, CloneBody::Bitwise));
    assert!(g.refresh_body.is_none());
    assert!(g.copy_marker);
    assert_eq!(
        g.where_clause,
        vec![Predicate::Constraint { param: 0, contract: ContractKind::TrivialCopy }]
    );
}

#[test]
fn custom_method_disables_the_fast_path() {
    let shape = DataShape::Record(vec![field(Some("n"), TypeExpr::Param(0), custom("renew"))]);
    let attrs = vec![dir("fast_path", DirectiveValue::Flag(true), 0)];
    let g = generate(decl("R", &["T"], shape, attrs)).unwrap().unwrap();
    assert!(matches!(g.clone_body, CloneBody::Arms(_)));
    assert!(matches!(g.refresh_body, Some(RefreshBody::Arms(_))));
    assert!(!g.copy_marker);
}

#[test]
fn empty_tagged_union_is_unreachable_with_noop_refresh() {
    let g = generate(decl("Never", &[], DataShape::TaggedUnion(vec![]), vec![]))
        .unwrap()
        .unwrap();
    assert!(matches!(g.clone_body, CloneBody::Unreachable));
    assert!(matches!(g.refresh_body, Some(RefreshBody::Ignore)));
    assert!(g.where_clause.is_empty());
    assert!(!g.copy_marker);
}

#[test]
fn empty_tagged_union_with_fast_path_is_bitwise() {
    let attrs = vec![dir("fast_path", DirectiveValue::Flag(true), 0)];
    let g = generate(decl("Never", &[], DataShape::TaggedUnion(vec![]), attrs))
        .unwrap()
        .unwrap();
    assert!(matches!(g.clone_body, CloneBody::Bitwise));
    assert!(g.refresh_body.is_none());
    assert!(g.copy_marker);
}

#[test]
fn raw_union_gets_whole_value_copy_only() {
    let shape = DataShape::RawUnion(vec![
        field(Some("a"), TypeExpr::Param(0), vec![]),
        field(Some("b"), TypeExpr::Apply("u64".to_string(), vec![]), vec![]),
    ]);
    let g = generate(decl("U", &["T"], shape, vec![])).unwrap().unwrap();
    assert!(matches!(g.clone_body, CloneBody::Bitwise));
    assert!(g.refresh_body.is_none());
    assert_eq!(
        g.where_clause,
        vec![Predicate::Constraint { param: 0, contract: ContractKind::TrivialCopy }]
    );
}

#[test]
fn raw_union_field_directives_are_rejected() {
    let shape = DataShape::RawUnion(vec![field(Some("a"), TypeExpr::Param(0), custom("renew"))]);
    let e = generate(decl("U", &["T"], shape, vec![])).unwrap_err();
    assert_eq!(e.kind, DirectiveErrorKind::NotAllowedHere);
    assert_eq!(e.key, "custom_method");
}

#[test]
fn disabled_type_generates_nothing() {
    let shape = DataShape::Record(vec![field(Some("n"), TypeExpr::Param(0), vec![])]);
    let attrs = vec![dir("enabled", DirectiveValue::Flag(false), 0)];
    assert_eq!(generate(decl("R", &["T"], shape, attrs)).unwrap(), None);
}

#[test]
fn explicit_bound_survives_verbatim_through_generation() {
    let shape = DataShape::Record(vec![field(Some("n"), TypeExpr::Param(0), vec![])]);
    let attrs = vec![dir(
        "bound",
        DirectiveValue::Items(vec!["T: Special".to_string()]),
        0,
    )];
    let g = generate(decl("R", &["T"], shape, attrs)).unwrap().unwrap();
    assert_eq!(g.where_clause, vec![Predicate::Verbatim("T: Special".to_string())]);
}

#[test]
fn type_level_error_comes_before_field_errors() {
    let shape = DataShape::Record(vec![field(
        Some("n"),
        TypeExpr::Param(0),
        vec![dir("mystery", DirectiveValue::Flag(true), 50)],
    )]);
    let attrs = vec![dir("mystery", DirectiveValue::Flag(true), 10)];
    let e = generate(decl("R", &["T"], shape, attrs)).unwrap_err();
    assert_eq!(e.kind, DirectiveErrorKind::UnknownKey);
    assert_eq!(e.location, 10);
}

#[test]
fn variant_error_names_its_own_location() {
    let bad_variant = Variant {
        discriminant: Some("A".to_string()),
        fields: vec![],
        attrs: vec![dir("enabled", DirectiveValue::Flag(false), 77)],
    };
    let shape = DataShape::TaggedUnion(vec![bad_variant]);
    let e = generate(decl("E", &[], shape, vec![])).unwrap_err();
    assert_eq!(e.kind, DirectiveErrorKind::NotAllowedHere);
    assert_eq!(e.key, "enabled");
    assert_eq!(e.location, 77);
}

#[test]
fn default_only_arms_have_no_custom_steps() {
    let shape = DataShape::TaggedUnion(vec![
        variant("A", vec![field(Some("x"), TypeExpr::Param(0), vec![])]),
        variant("B", vec![field(None, TypeExpr::Param(0), vec![])]),
    ]);
    let g = generate(decl("E", &["T"], shape, vec![])).unwrap().unwrap();
    match &g.clone_body {
        CloneBody::Arms(arms) => {
            for arm in arms {
                for f in &arm.fields {
                    assert!(matches!(f.mode, DupMode::Default));
                }
            }
        },
        other => panic!("expected per-variant arms, got {:?}", other),
    }
}

#[test]
fn fieldless_variants_produce_trivial_arms() {
    let shape = DataShape::TaggedUnion(vec![
        variant("On", vec![]),
        variant("Off", vec![]),
    ]);
    let g = generate(decl("Switch", &[], shape, vec![])).unwrap().unwrap();
    match &g.clone_body {
        CloneBody::Arms(arms) => {
            assert_eq!(arms.len(), 2);
            assert!(arms[0].fields.is_empty());
            assert!(arms[1].fields.is_empty());
        },
        other => panic!("expected trivial arms, got {:?}", other),
    }
    assert!(g.where_clause.is_empty());
}
