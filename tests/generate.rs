use auto_new::{
    classify, derive_new, extract_config, indexed_name, visibility_from_annotation,
    visibility_or_default, within_bracket_bound, Annotation, MAX_OPEN_BRACKETS, DataKind, FieldLocator, Fields, GeneratedImpl, NamedField,
    RecordDescription, Shape, SharedConstructor, Visibility,
};

fn annotation(path: &str, args: Option<&str>) -> Annotation {
    Annotation { path: path.to_string(), args: args.map(|a| a.to_string()) }
}

fn named(fields: &[(&str, &str)]) -> Fields {
    Fields::Named(
        fields
            .iter()
            .map(|(n, t)| NamedField { name: n.to_string(), ty: t.to_string() })
            .collect(),
    )
}

fn positional(types: &[&str]) -> Fields {
    Fields::Positional(types.iter().map(|t| t.to_string()).collect())
}

fn record(name: &str, generics: (&str, &str, &str), annotations: Vec<Annotation>, data: DataKind) -> RecordDescription {
    RecordDescription {
        name: name.to_string(),
        impl_generics: generics.0.to_string(),
        ty_generics: generics.1.to_string(),
        where_clause: generics.2.to_string(),
        annotations,
        data,
    }
}

// struct Dumby<T> where T: Copy { a: u8, b: T }
fn dumby() -> RecordDescription {
    record("Dumby", ("<T>", "<T>", "where T: Copy"), vec![], DataKind::Struct(named(&[("a", "u8"), ("b", "T")])))
}

// #[new_visibility(pub(crate))] struct MyUnit;
fn my_unit() -> RecordDescription {
    record("MyUnit", ("", "", ""), vec![annotation("new_visibility", Some("pub(crate)"))], DataKind::Struct(Fields::Unit))
}

// struct Dumby2<'a, T: Clone>(&'a T);
fn dumby2() -> RecordDescription {
    record("Dumby2", ("<'a, T: Clone>", "<'a, T>", ""), vec![], DataKind::Struct(positional(&["&'a T"])))
}

// struct ComplexStruct<'a, T: 'a + Send + Sync> { a: &'a T, b: Arc<T>, c: Option<Box<Vec<T>>> }
fn complex_struct() -> RecordDescription {
    record(
        "ComplexStruct",
        ("<'a, T: 'a + Send + Sync>", "<'a, T>", ""),
        vec![],
        DataKind::Struct(named(&[("a", "&'a T"), ("b", "Arc<T>"), ("c", "Option<Box<Vec<T>>>")])),
    )
}

fn generate(rec: &RecordDescription) -> GeneratedImpl {
    match derive_new(rec) {
        Ok(g) => g,
        Err(e) => panic!("{} rejected: {}", e.location, e.message),
    }
}

fn param_list(g: &GeneratedImpl) -> Vec<(String, String)> {
    g.plan.params.iter().map(|p| (p.name.clone(), p.ty.clone())).collect()
}

fn pairs(list: &[(&str, &str)]) -> Vec<(String, String)> {
    list.iter().map(|(a, b)| (a.to_string(), b.to_string())).collect()
}

fn writes(g: &GeneratedImpl) -> Vec<(String, String, String)> {
    match &g.shared {
        Some(SharedConstructor::InPlace(ws)) => ws
            .iter()
            .map(|w| {
                let field = match &w.field {
                    FieldLocator::Name(n) => n.clone(),
                    FieldLocator::Index(i) => i.to_string(),
                };
                (w.slot.clone(), field, w.source.clone())
            })
            .collect(),
        other => panic!("expected in-place writes, got {:?}", other),
    }
}

fn triples(list: &[(&str, &str, &str)]) -> Vec<(String, String, String)> {
    list.iter().map(|(a, b, c)| (a.to_string(), b.to_string(), c.to_string())).collect()
}

#[test]
fn basic_calls() {
    let a = generate(&dumby());
    assert_eq!(a.plan.shape, Shape::Named);
    assert_eq!(param_list(&a), pairs(&[("a", "u8"), ("b", "T")]));
    assert_eq!(a.record_name, "Dumby");
    assert_eq!(a.impl_generics, "<T>");
    assert_eq!(a.ty_generics, "<T>");
    assert_eq!(a.where_clause, "where T: Copy");
    assert!(matches!(a.visibility, Visibility::Public));

    let b = generate(&my_unit());
    assert_eq!(b.plan.shape, Shape::Unit);
    assert!(b.plan.params.is_empty());
    assert!(b.plan.inits.is_empty());

    let c = generate(&dumby2());
    assert_eq!(c.plan.shape, Shape::Positional);
    assert_eq!(param_list(&c), pairs(&[("arg0", "&'a T")]));
    assert!(matches!(c.plan.inits[0].field, FieldLocator::Index(0)));
    assert_eq!(c.plan.inits[0].source, "arg0");
}

#[test]
fn test_arc() {
    let a = generate(&dumby());
    assert_eq!(writes(&a), triples(&[("ptr0", "a", "a"), ("ptr1", "b", "b")]));
    let b = generate(&my_unit());
    assert!(matches!(b.shared, Some(SharedConstructor::Direct)));
    let c = generate(&dumby2());
    assert_eq!(writes(&c), triples(&[("ptr0", "0", "arg0")]));
}

#[test]
fn safety_test() {
    let g = generate(&complex_struct());
    assert_eq!(
        param_list(&g),
        pairs(&[("a", "&'a T"), ("b", "Arc<T>"), ("c", "Option<Box<Vec<T>>>")])
    );
    assert_eq!(writes(&g), triples(&[("ptr0", "a", "a"), ("ptr1", "b", "b"), ("ptr2", "c", "c")]));
    assert_eq!(g.impl_generics, "<'a, T: 'a + Send + Sync>");
}

#[test]
fn suppressed_shared_constructor() {
    let rec = record("Dumby", ("<'a, T>", "<'a, T>", ""), vec![annotation("no_new_arc", None)], DataKind::Struct(positional(&["&'a T"])));
    let g = generate(&rec);
    assert!(g.shared.is_none());
    assert_eq!(param_list(&g), pairs(&[("arg0", "&'a T")]));
}

#[test]
fn private_visibility_and_suppressed() {
    let rec = record(
        "Dumby",
        ("<'a, T>", "<'a, T>", ""),
        vec![annotation("new_visibility", Some("")), annotation("no_new_arc", None)],
        DataKind::Struct(positional(&["&'a T"])),
    );
    let g = generate(&rec);
    assert!(matches!(g.visibility, Visibility::Inherited));
    assert!(g.shared.is_none());
}

#[test]
fn crate_visibility_is_kept() {
    let g = generate(&my_unit());
    match &g.visibility {
        Visibility::Restricted { in_path, leading_colon, segments } => {
            assert!(!in_path);
            assert!(!leading_colon);
            assert_eq!(segments, &vec!["crate".to_string()]);
        }
        other => panic!("expected a restricted visibility, got {:?}", other),
    }
}

#[test]
fn malformed_visibility_falls_back_to_public() {
    let rec = record("S", ("", "", ""), vec![annotation("new_visibility", Some("not a visibility"))], DataKind::Struct(Fields::Unit));
    assert!(matches!(generate(&rec).visibility, Visibility::Public));
    let rec = record("S", ("", "", ""), vec![annotation("new_visibility", None)], DataKind::Struct(Fields::Unit));
    assert!(matches!(generate(&rec).visibility, Visibility::Public));
}

#[test]
fn first_visibility_override_decides() {
    let attrs = vec![
        annotation("derive", Some("Debug")),
        annotation("new_visibility", Some("pub(super)")),
        annotation("new_visibility", Some("pub")),
    ];
    let config = extract_config(&attrs);
    match &config.visibility {
        Visibility::Restricted { in_path, leading_colon, segments } => {
            assert!(!in_path);
            assert!(!leading_colon);
            assert_eq!(segments, &vec!["super".to_string()]);
        }
        other => panic!("expected a restricted visibility, got {:?}", other),
    }
    assert!(config.emit_shared_constructor);
}

#[test]
fn unrelated_annotations_are_ignored() {
    let attrs = vec![annotation("doc", None), annotation("no_new_arc_please", None), annotation("visibility", Some("pub(crate)"))];
    let config = extract_config(&attrs);
    assert!(matches!(config.visibility, Visibility::Public));
    assert!(config.emit_shared_constructor);
}

#[test]
fn visibility_in_path() {
    match visibility_from_annotation(&Some("pub(in crate::m)".to_string())) {
        Visibility::Restricted { in_path, leading_colon, segments } => {
            assert!(in_path);
            assert!(!leading_colon);
            assert_eq!(segments, vec!["crate".to_string(), "m".to_string()]);
        }
        other => panic!("expected a restricted visibility, got {:?}", other),
    }
    match visibility_from_annotation(&Some("pub(in ::a::b)".to_string())) {
        Visibility::Restricted { in_path, leading_colon, segments } => {
            assert!(in_path);
            assert!(leading_colon);
            assert_eq!(segments, vec!["a".to_string(), "b".to_string()]);
        }
        other => panic!("expected a restricted visibility, got {:?}", other),
    }
    assert!(matches!(visibility_from_annotation(&Some(String::new())), Visibility::Inherited));
    assert!(matches!(visibility_from_annotation(&Some("pub".to_string())), Visibility::Public));
    assert!(matches!(visibility_from_annotation(&Some("pub pub".to_string())), Visibility::Public));
    assert!(matches!(visibility_from_annotation(&Some("crate".to_string())), Visibility::Public));
}

#[test]
fn default_visibility_for_no_parse() {
    assert!(matches!(visibility_or_default(None), Visibility::Public));
    assert!(matches!(visibility_or_default(Some(Visibility::Inherited)), Visibility::Inherited));
}

#[test]
fn enums_are_rejected() {
    let rec = record("Choice", ("", "", ""), vec![], DataKind::Enum);
    match derive_new(&rec) {
        Err(e) => {
            assert_eq!(e.location, "Choice");
            assert_eq!(e.message, "only structs are allowed with #[derive(new)]");
        }
        Ok(_) => panic!("an enum must be rejected"),
    }
}

#[test]
fn unions_are_rejected() {
    let rec = record("Bits", ("", "", ""), vec![annotation("no_new_arc", None)], DataKind::Union);
    assert!(derive_new(&rec).is_err());
}

#[test]
fn empty_field_lists_write_nothing() {
    let g = generate(&record("E", ("", "", ""), vec![], DataKind::Struct(named(&[]))));
    assert_eq!(g.plan.shape, Shape::Named);
    assert!(writes(&g).is_empty());
    let g = generate(&record("P", ("", "", ""), vec![], DataKind::Struct(positional(&[]))));
    assert_eq!(g.plan.shape, Shape::Positional);
    assert!(writes(&g).is_empty());
}

#[test]
fn many_positional_fields_are_numbered() {
    let types: Vec<&str> = vec!["u8"; 12];
    let g = generate(&record("Wide", ("", "", ""), vec![], DataKind::Struct(positional(&types))));
    assert_eq!(g.plan.params.len(), 12);
    assert_eq!(g.plan.params[10].name, "arg10");
    assert_eq!(g.plan.params[11].name, "arg11");
    let w = writes(&g);
    assert_eq!(w[11], ("ptr11".to_string(), "11".to_string(), "arg11".to_string()));
}

#[test]
fn shared_and_plain_agree_field_by_field() {
    let g = generate(&complex_struct());
    let w = writes(&g);
    for (i, init) in g.plan.inits.iter().enumerate() {
        let field = match &init.field {
            FieldLocator::Name(n) => n.clone(),
            FieldLocator::Index(k) => k.to_string(),
        };
        assert_eq!(w[i].1, field);
        assert_eq!(w[i].2, init.source);
    }
}

#[test]
fn names_with_indices() {
    assert_eq!(indexed_name("arg", 0), "arg0");
    assert_eq!(indexed_name("ptr", 7), "ptr7");
    assert_eq!(indexed_name("x", 1234567), "x1234567");
    assert_eq!(indexed_name("", usize::MAX), usize::MAX.to_string());
}

#[test]
fn shapes_are_told_apart() {
    assert_eq!(classify(&named(&[("a", "u8")])), Shape::Named);
    assert_eq!(classify(&positional(&["u8"])), Shape::Positional);
    assert_eq!(classify(&Fields::Unit), Shape::Unit);
}

#[test]
fn bracket_bound_is_counted() {
    assert!(within_bracket_bound(""));
    assert!(within_bracket_bound("pub(in crate::m)"));
    assert!(within_bracket_bound(&"([{".repeat(MAX_OPEN_BRACKETS / 3)));
    assert!(within_bracket_bound(&"(".repeat(MAX_OPEN_BRACKETS)));
    assert!(!within_bracket_bound(&"(".repeat(MAX_OPEN_BRACKETS + 1)));
    assert!(!within_bracket_bound(&format!("pub(crate){}", "{".repeat(MAX_OPEN_BRACKETS))));
    assert!(within_bracket_bound(&")".repeat(10 * MAX_OPEN_BRACKETS)));
}

#[test]
fn deeply_nested_visibility_falls_back_to_public() {
    let deep = format!("{}{}", "(".repeat(1_000_000), ")".repeat(1_000_000));
    assert!(matches!(visibility_from_annotation(&Some(deep)), Visibility::Public));
    let at_bound = format!("{}{}", "(".repeat(MAX_OPEN_BRACKETS), ")".repeat(MAX_OPEN_BRACKETS));
    assert!(matches!(visibility_from_annotation(&Some(at_bound)), Visibility::Public));
    let rec = record(
        "S",
        ("", "", ""),
        vec![annotation("new_visibility", Some(&"[".repeat(MAX_OPEN_BRACKETS + 1)))],
        DataKind::Struct(Fields::Unit),
    );
    assert!(matches!(generate(&rec).visibility, Visibility::Public));
}
