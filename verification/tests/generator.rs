use small_read_only::Accessor;
use small_read_only::Definition;
use small_read_only::DefinitionBody;
use small_read_only::FieldDecl;
use small_read_only::FieldsKind;
use small_read_only::GenError;
use small_read_only::classify;
use small_read_only::derive_read_only;
use small_read_only::emit_accessors;
use small_read_only::field_is_excluded;
use small_read_only::filter_eligible;
use small_read_only::render_accessor;

fn field(name: &str, ty: &str, markers: &[&str]) -> FieldDecl {
    FieldDecl {
        name: name.to_string(),
        ty: ty.to_string(),
        markers: markers.iter().map(|m| m.to_string()).collect(),
    }
}

fn named_struct(name: &str, generics: &str, fields: Vec<FieldDecl>) -> Definition {
    Definition {
        name: name.to_string(),
        generics: generics.to_string(),
        body: DefinitionBody::Structure(FieldsKind::Named(fields)),
    }
}

fn accessor_text(generics: &str, name: &str, field_name: &str, ty: &str) -> String {
    format!(
        "impl{g} {n}{g} {{\n    /// Derived from ReadOnly\n    pub fn {f}(&self) -> &{t} {{\n        &self.{f}\n    }}\n}}",
        g = generics,
        n = name,
        f = field_name,
        t = ty,
    )
}

#[test]
fn plain_fields_get_one_accessor_each() {
    let def = named_struct(
        "A",
        "",
        vec![field("b", "usize", &[]), field("c", "String", &[]), field("d", "&str", &[])],
    );
    let out = derive_read_only(&def).unwrap();
    assert_eq!(
        out,
        vec![
            accessor_text("", "A", "b", "usize"),
            accessor_text("", "A", "c", "String"),
            accessor_text("", "A", "d", "&str"),
        ],
    );
}

#[test]
fn excluded_field_gets_no_accessor() {
    let def = named_struct(
        "B",
        "",
        vec![field("b", "usize", &["NoRead"]), field("c", "String", &[])],
    );
    let out = derive_read_only(&def).unwrap();
    assert_eq!(out, vec![accessor_text("", "B", "c", "String")]);
    assert!(!out.iter().any(|s| s.contains("fn b")));
}

#[test]
fn one_accessor_per_eligible_field() {
    let def = named_struct(
        "S",
        "",
        vec![
            field("a", "u8", &[]),
            field("b", "u16", &["NoRead"]),
            field("c", "u32", &[]),
            field("d", "u64", &["NoRead"]),
        ],
    );
    let out = derive_read_only(&def).unwrap();
    assert_eq!(out.len(), 2);
    assert!(out.iter().all(|s| !s.contains("fn b") && !s.contains("fn d")));
}

#[test]
fn order_of_accessors_follows_declaration_order() {
    let def = named_struct(
        "S",
        "",
        vec![
            field("first", "u8", &[]),
            field("hidden", "u16", &["NoRead"]),
            field("second", "u32", &[]),
            field("third", "u64", &[]),
        ],
    );
    let out = derive_read_only(&def).unwrap();
    assert_eq!(
        out,
        vec![
            accessor_text("", "S", "first", "u8"),
            accessor_text("", "S", "second", "u32"),
            accessor_text("", "S", "third", "u64"),
        ],
    );
}

#[test]
fn rerun_yields_identical_output() {
    let def = named_struct(
        "A",
        "<'a>",
        vec![field("b", "usize", &[]), field("c", "String", &["NoRead"]), field("d", "&'a str", &[])],
    );
    let first = derive_read_only(&def).unwrap();
    let second = derive_read_only(&def).unwrap();
    assert_eq!(first, second);
}

#[test]
fn generics_are_restated_unchanged() {
    let def = named_struct(
        "A",
        "<'a, T: Clone>",
        vec![field("x", "T", &[]), field("y", "&'a str", &[])],
    );
    let out = derive_read_only(&def).unwrap();
    assert_eq!(
        out,
        vec![
            accessor_text("<'a, T: Clone>", "A", "x", "T"),
            accessor_text("<'a, T: Clone>", "A", "y", "&'a str"),
        ],
    );
}

#[test]
fn unit_struct_is_rejected() {
    let def = Definition {
        name: "A".to_string(),
        generics: String::new(),
        body: DefinitionBody::Structure(FieldsKind::Unit),
    };
    assert_eq!(derive_read_only(&def), Err(GenError::UnsupportedShape));
}

#[test]
fn tuple_struct_is_rejected() {
    let def = Definition {
        name: "A".to_string(),
        generics: String::new(),
        body: DefinitionBody::Structure(FieldsKind::Unnamed),
    };
    assert_eq!(derive_read_only(&def), Err(GenError::UnsupportedShape));
}

#[test]
fn enumeration_is_rejected() {
    let def = Definition {
        name: "A".to_string(),
        generics: String::new(),
        body: DefinitionBody::Enumeration,
    };
    assert_eq!(derive_read_only(&def), Err(GenError::UnsupportedDefinitionKind));
}

#[test]
fn union_is_rejected() {
    let def = Definition {
        name: "A".to_string(),
        generics: String::new(),
        body: DefinitionBody::Union,
    };
    assert_eq!(derive_read_only(&def), Err(GenError::UnsupportedDefinitionKind));
}

#[test]
fn error_messages_are_fixed() {
    assert_eq!(
        GenError::UnsupportedShape.message(),
        "unsupported structure shape: unit/tuple structures are not supported",
    );
    assert_eq!(
        GenError::UnsupportedDefinitionKind.message(),
        "unsupported definition kind: only structures are supported",
    );
}

#[test]
fn zero_field_struct_is_rejected() {
    let def = named_struct("A", "", vec![]);
    assert_eq!(derive_read_only(&def), Err(GenError::UnsupportedShape));
}

#[test]
fn all_fields_excluded_yields_no_accessors() {
    let def = named_struct(
        "A",
        "",
        vec![field("b", "usize", &["NoRead"]), field("c", "String", &["NoRead"])],
    );
    assert_eq!(derive_read_only(&def), Ok(vec![]));
}

#[test]
fn unrelated_markers_leave_a_field_eligible() {
    let def = named_struct(
        "A",
        "",
        vec![
            field("b", "usize", &["serde", "doc"]),
            field("c", "String", &["noread"]),
            field("d", "u8", &["NoReadX"]),
        ],
    );
    let out = derive_read_only(&def).unwrap();
    assert_eq!(out.len(), 3);
}

#[test]
fn exclusion_marker_counts_in_any_position() {
    let def = named_struct(
        "A",
        "",
        vec![field("b", "usize", &["other", "NoRead"]), field("c", "String", &[])],
    );
    let out = derive_read_only(&def).unwrap();
    assert_eq!(out, vec![accessor_text("", "A", "c", "String")]);
}

#[test]
fn field_is_excluded_matches_exactly() {
    assert!(field_is_excluded(&field("b", "usize", &["NoRead"])));
    assert!(field_is_excluded(&field("b", "usize", &["x", "NoRead", "y"])));
    assert!(!field_is_excluded(&field("b", "usize", &[])));
    assert!(!field_is_excluded(&field("b", "usize", &["noread"])));
    assert!(!field_is_excluded(&field("b", "usize", &["NoRead "])));
}

#[test]
fn filter_keeps_declaration_order() {
    let fields = vec![
        field("a", "u8", &["NoRead"]),
        field("b", "u16", &[]),
        field("c", "u32", &["NoRead"]),
        field("d", "u64", &[]),
    ];
    let eligible = filter_eligible(&fields);
    let names: Vec<&str> = eligible.iter().map(|f| f.name.as_str()).collect();
    assert_eq!(names, vec!["b", "d"]);
    // the original list is untouched
    assert_eq!(fields.len(), 4);
}

#[test]
fn classify_accepts_only_named_field_structures() {
    let named = named_struct("A", "", vec![field("b", "usize", &[])]);
    assert_eq!(classify(&named).unwrap().len(), 1);
    let empty = named_struct("A", "", vec![]);
    assert_eq!(classify(&empty).unwrap_err(), GenError::UnsupportedShape);
    let unit = Definition {
        name: "A".to_string(),
        generics: String::new(),
        body: DefinitionBody::Structure(FieldsKind::Unit),
    };
    assert_eq!(classify(&unit).unwrap_err(), GenError::UnsupportedShape);
    let en = Definition {
        name: "A".to_string(),
        generics: String::new(),
        body: DefinitionBody::Enumeration,
    };
    assert_eq!(classify(&en).unwrap_err(), GenError::UnsupportedDefinitionKind);
}

#[test]
fn emitted_accessors_are_scoped_under_the_given_generics() {
    let fields = vec![field("x", "T", &[]), field("y", "u8", &[])];
    let accessors = emit_accessors(&"W".to_string(), &"<T>".to_string(), &fields);
    assert_eq!(accessors.len(), 2);
    for a in &accessors {
        assert_eq!(a.struct_name, "W");
        assert_eq!(a.generics, "<T>");
    }
    assert_eq!(accessors[0].field_name, "x");
    assert_eq!(accessors[0].field_type, "T");
    assert_eq!(accessors[1].field_name, "y");
    assert_eq!(accessors[1].field_type, "u8");
}

#[test]
fn rendered_accessor_text_is_exact() {
    let a = Accessor {
        struct_name: "A".to_string(),
        generics: "<'a>".to_string(),
        field_name: "d".to_string(),
        field_type: "&'a str".to_string(),
    };
    assert_eq!(
        render_accessor(&a),
        "impl<'a> A<'a> {\n    /// Derived from ReadOnly\n    pub fn d(&self) -> &&'a str {\n        &self.d\n    }\n}",
    );
}
