use accessor_maker::basic_setters::make_basic_setters;
use accessor_maker::config::{AccessorKind, SetterVisibility};
use accessor_maker::error::ConfigError;
use accessor_maker::ident::check_identifier;
use accessor_maker::naming::{concat_name, default_name, make_name};
use accessor_maker::schema::{Annotation, AnnotationForm, AnnotationParam, FieldSchema, LitValue,
    RecordFields, RecordSchema, TypeDesc};
use accessor_maker::semantics::{FieldBinding, FieldVal, RecordVal, Slot, apply_builder_setter,
    apply_mutating_setter};
use accessor_maker::setter_maker::make_builder_setters;
use accessor_maker::signature::WrapMode;

fn ty(head: &str) -> TypeDesc {
    TypeDesc { head: head.to_string(), args: Vec::new() }
}

fn option_of(inner: &str) -> TypeDesc {
    TypeDesc { head: "Option".to_string(), args: vec![ty(inner)] }
}

fn field(name: &str, t: TypeDesc) -> FieldSchema {
    FieldSchema { name: name.to_string(), ty: t, annotations: Vec::new() }
}

fn field_with(name: &str, t: TypeDesc, annotations: Vec<Annotation>) -> FieldSchema {
    FieldSchema { name: name.to_string(), ty: t, annotations }
}

fn umbrella(tag: &str, params: Vec<(&str, LitValue)>) -> Annotation {
    Annotation {
        tag: tag.to_string(),
        form: AnnotationForm::ParamList(
            params
                .into_iter()
                .map(|(k, v)| AnnotationParam { key: k.to_string(), value: v })
                .collect(),
        ),
    }
}

fn bare(tag: &str) -> Annotation {
    Annotation { tag: tag.to_string(), form: AnnotationForm::Bare }
}

fn record(name: &str, fields: Vec<FieldSchema>) -> RecordSchema {
    RecordSchema {
        name: name.to_string(),
        generics: String::new(),
        fields: RecordFields::Named(fields),
    }
}

#[test]
fn end_to_end_three_methods() {
    let input = record(
        "Foo",
        vec![
            field("bar", ty("u16")),
            field("baz", ty("String")),
            field_with("foobar", ty("bool"), vec![bare("disable_builder_setters")]),
            field_with(
                "foobaz",
                ty("bool"),
                vec![umbrella(
                    "builder_setter",
                    vec![("suffix", LitValue::Str("fb".to_string()))],
                )],
            ),
        ],
    );
    let expansion = make_builder_setters(input).unwrap();
    let names: Vec<&str> =
        expansion.impl_block.methods.iter().map(|m| m.name.as_str()).collect();
    assert_eq!(names, vec!["with_bar", "with_baz", "with_fb"]);
    assert!(expansion.impl_block.methods.iter().all(|m| m.field_name != "foobar"));
}

#[test]
fn end_to_end_invalid_visibility_aborts() {
    let input = record(
        "Foo",
        vec![field_with(
            "bar",
            ty("u16"),
            vec![umbrella(
                "builder_setter",
                vec![("visibility", LitValue::Str("zzz".to_string()))],
            )],
        )],
    );
    let err = make_builder_setters(input).unwrap_err();
    match &err {
        ConfigError::InvalidVisibility { value } => assert_eq!(value.as_str(), "zzz"),
        other => panic!("unexpected error: {:?}", other),
    }
    assert_eq!(err.message(), "Invalid visibility: 'zzz'. Allowed: pub, pub(crate), private.");
}

#[test]
fn rerunning_on_emitted_record_is_a_no_op() {
    let input = record(
        "Foo",
        vec![
            field_with(
                "bar",
                ty("u16"),
                vec![umbrella(
                    "builder_setter",
                    vec![("prefix", LitValue::Str("set".to_string()))],
                )],
            ),
            field_with("baz", ty("bool"), vec![bare("disable_builder_setters")]),
        ],
    );
    let first = make_builder_setters(input).unwrap();
    let second = make_builder_setters(first.record.clone()).unwrap();
    assert_eq!(second.record, first.record);
}

#[test]
fn optional_wrapper_with_into_setter_stores_wrapped() {
    let input = record("Foo", vec![field("bazbaz", option_of("String"))]);
    let expansion = make_builder_setters(input).unwrap();
    let m = &expansion.impl_block.methods[0];
    assert_eq!(m.name, "with_bazbaz");
    assert_eq!(m.params[0].ty, ty("String"));
    assert!(m.params[0].by_into);
    assert!(matches!(m.wrap, WrapMode::WrapInOptional));

    let foo = RecordVal {
        bindings: vec![FieldBinding {
            name: "bazbaz".to_string(),
            value: Slot::OptionalCell(None),
        }],
    };
    let (foo, ok) = apply_builder_setter(foo, m, FieldVal::Text("some_text".to_string()));
    assert!(ok);
    assert_eq!(
        foo.bindings[0].value,
        Slot::OptionalCell(Some(FieldVal::Text("some_text".to_string())))
    );
}

#[test]
fn optional_wrapper_without_into_setter_stores_wrapped() {
    let input = record(
        "Foo",
        vec![field_with(
            "bazbaz",
            option_of("String"),
            vec![umbrella("builder_setter", vec![("with_into", LitValue::Bool(false))])],
        )],
    );
    let expansion = make_builder_setters(input).unwrap();
    let m = &expansion.impl_block.methods[0];
    assert_eq!(m.params[0].ty, ty("String"));
    assert!(!m.params[0].by_into);
    assert!(matches!(m.wrap, WrapMode::WrapInOptional));

    let foo = RecordVal {
        bindings: vec![FieldBinding {
            name: "bazbaz".to_string(),
            value: Slot::OptionalCell(None),
        }],
    };
    let (foo, ok) = apply_builder_setter(foo, m, FieldVal::Text("some_text".to_string()));
    assert!(ok);
    assert_eq!(
        foo.bindings[0].value,
        Slot::OptionalCell(Some(FieldVal::Text("some_text".to_string())))
    );
}

#[test]
fn basic_setters_mutate_in_place() {
    let input = record("Foo", vec![field("bar", ty("u16")), field("baz", ty("String"))]);
    let expansion = make_basic_setters(input).unwrap();
    let methods = &expansion.impl_block.methods;
    assert_eq!(methods[0].name, "set_bar");
    assert_eq!(methods[1].name, "set_baz");
    assert!(matches!(methods[0].body, AccessorKind::MutatingSetter));

    let mut foo = RecordVal {
        bindings: vec![
            FieldBinding { name: "bar".to_string(), value: Slot::Plain(FieldVal::Int(0)) },
            FieldBinding {
                name: "baz".to_string(),
                value: Slot::Plain(FieldVal::Text(String::new())),
            },
        ],
    };
    assert!(apply_mutating_setter(&mut foo, &methods[0], FieldVal::Int(100)));
    assert!(apply_mutating_setter(
        &mut foo,
        &methods[1],
        FieldVal::Text("some_text".to_string())
    ));
    assert_eq!(foo.bindings[0].value, Slot::Plain(FieldVal::Int(100)));
    assert_eq!(foo.bindings[1].value, Slot::Plain(FieldVal::Text("some_text".to_string())));
}

#[test]
fn tuple_records_are_rejected() {
    let input = RecordSchema {
        name: "Foo".to_string(),
        generics: String::new(),
        fields: RecordFields::Unnamed,
    };
    let err = make_builder_setters(input).unwrap_err();
    assert!(matches!(err, ConfigError::NotNamedFields));
    assert_eq!(err.message(), "Macro supports only structs with named fields.");
}

#[test]
fn unknown_parameter_is_fatal() {
    let input = record(
        "Foo",
        vec![field_with(
            "bar",
            ty("u16"),
            vec![umbrella(
                "builder_setter",
                vec![("nope", LitValue::Str("x".to_string()))],
            )],
        )],
    );
    let err = make_builder_setters(input).unwrap_err();
    match &err {
        ConfigError::UnknownParam { key } => assert_eq!(key.as_str(), "nope"),
        other => panic!("unexpected error: {:?}", other),
    }
    assert_eq!(err.message(), "Unexpected parameter 'nope'.");
}

#[test]
fn wrong_literal_kind_is_fatal() {
    let input = record(
        "Foo",
        vec![field_with(
            "bar",
            ty("u16"),
            vec![umbrella(
                "builder_setter",
                vec![("with_into", LitValue::Str("yes".to_string()))],
            )],
        )],
    );
    let err = make_builder_setters(input).unwrap_err();
    match &err {
        ConfigError::ValueType { key } => assert_eq!(key.as_str(), "with_into"),
        other => panic!("unexpected error: {:?}", other),
    }
    assert_eq!(err.message(), "Unexpected value type for parameter 'with_into'.");
}

#[test]
fn name_with_prefix_is_fatal() {
    let input = record(
        "Foo",
        vec![field_with(
            "bar",
            ty("u16"),
            vec![umbrella(
                "builder_setter",
                vec![
                    ("name", LitValue::Str("install_bar".to_string())),
                    ("prefix", LitValue::Str("set".to_string())),
                ],
            )],
        )],
    );
    let err = make_builder_setters(input).unwrap_err();
    assert!(matches!(err, ConfigError::NameExclusion { with_prefix: true, with_suffix: false }));
    assert_eq!(err.message(), "'name' param cannot be set with 'prefix' param.");
}

#[test]
fn malformed_directive_content_is_fatal() {
    let input = record(
        "Foo",
        vec![field_with("bar", ty("u16"), vec![bare("builder_setter")])],
    );
    let err = make_builder_setters(input).unwrap_err();
    match &err {
        ConfigError::DirectiveSyntax { tag } => assert_eq!(tag.as_str(), "builder_setter"),
        other => panic!("unexpected error: {:?}", other),
    }
    assert_eq!(err.message(), "Invalid syntax of 'builder_setter' attribute.");
}

#[test]
fn invalid_method_name_is_fatal() {
    let input = record(
        "Foo",
        vec![field_with(
            "bar",
            ty("u16"),
            vec![umbrella(
                "builder_setter",
                vec![("name", LitValue::Str("not a name".to_string()))],
            )],
        )],
    );
    let err = make_builder_setters(input).unwrap_err();
    match &err {
        ConfigError::InvalidMethodName { name } => assert_eq!(name.as_str(), "not a name"),
        other => panic!("unexpected error: {:?}", other),
    }
    assert_eq!(err.message(), "Invalid method name: 'not a name'.");
}

#[test]
fn naming_table_exact_values() {
    let none: Option<String> = None;
    let name = Some("install".to_string());
    let prefix = Some("set".to_string());
    let suffix = Some("fb".to_string());

    assert_eq!(make_name(&name, &none, &none, "bar", "with", false).unwrap(), "install");
    assert_eq!(make_name(&none, &prefix, &suffix, "bar", "with", false).unwrap(), "set_fb");
    assert_eq!(make_name(&none, &prefix, &none, "bar", "with", false).unwrap(), "set_bar");
    assert_eq!(make_name(&none, &none, &suffix, "bar", "with", false).unwrap(), "with_fb");
    assert_eq!(make_name(&none, &none, &none, "bar", "with", false).unwrap(), "with_bar");
    assert!(matches!(
        make_name(&name, &prefix, &none, "bar", "with", false),
        Err(ConfigError::NameExclusion { with_prefix: true, with_suffix: false })
    ));
    assert!(matches!(
        make_name(&name, &none, &suffix, "bar", "with", false),
        Err(ConfigError::NameExclusion { with_prefix: false, with_suffix: true })
    ));
    assert!(matches!(
        make_name(&name, &prefix, &suffix, "bar", "with", false),
        Err(ConfigError::NameExclusion { with_prefix: true, with_suffix: true })
    ));
    assert!(matches!(
        make_name(&none, &none, &suffix, "bar", "with", true),
        Err(ConfigError::SuffixWithoutPrefix)
    ));
    // A policy without a default prefix names the method after the
    // field itself.
    assert_eq!(make_name(&none, &none, &none, "bar", "", false).unwrap(), "bar");
}

#[test]
fn name_joining_exact_values() {
    assert_eq!(concat_name("set", "bar"), "set_bar");
    assert_eq!(concat_name("", "bar"), "_bar");
    assert_eq!(default_name("with", "bar"), "with_bar");
    assert_eq!(default_name("", "bar"), "bar");
}

#[test]
fn visibility_literals_resolve_exactly() {
    assert!(matches!(
        SetterVisibility::try_from(&"pub".to_string(), false),
        Ok(SetterVisibility::Pub)
    ));
    assert!(matches!(
        SetterVisibility::try_from(&"pub(crate)".to_string(), false),
        Ok(SetterVisibility::PubForCrate)
    ));
    assert!(matches!(
        SetterVisibility::try_from(&"private".to_string(), false),
        Ok(SetterVisibility::Private)
    ));
    assert!(matches!(
        SetterVisibility::try_from(&String::new(), true),
        Ok(SetterVisibility::Private)
    ));
    assert!(matches!(
        SetterVisibility::try_from(&String::new(), false),
        Err(ConfigError::InvalidVisibility { .. })
    ));
}

#[test]
fn identifier_check_structural_rules() {
    assert!(check_identifier("with_bar"));
    assert!(check_identifier("_private2"));
    assert!(check_identifier("A9"));
    assert!(!check_identifier(""));
    assert!(!check_identifier("_"));
    assert!(!check_identifier("9lives"));
    assert!(!check_identifier("not a name"));
    assert!(!check_identifier("semi;colon"));
}
