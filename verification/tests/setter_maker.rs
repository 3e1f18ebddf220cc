use accessor_maker::config::SetterVisibility;
use accessor_maker::schema::{Annotation, AnnotationForm, AnnotationParam, FieldSchema, LitValue,
    RecordFields, RecordSchema, TypeDesc};
use accessor_maker::semantics::{FieldBinding, FieldVal, RecordVal, Slot, apply_builder_setter};
use accessor_maker::setter_maker::{do_make_setters, make_builder_setters};

fn ty(head: &str) -> TypeDesc {
    TypeDesc { head: head.to_string(), args: Vec::new() }
}

fn field(name: &str, head: &str) -> FieldSchema {
    FieldSchema { name: name.to_string(), ty: ty(head), annotations: Vec::new() }
}

fn field_with(name: &str, head: &str, annotations: Vec<Annotation>) -> FieldSchema {
    FieldSchema { name: name.to_string(), ty: ty(head), annotations }
}

fn umbrella(tag: &str, params: Vec<(&str, LitValue)>) -> Annotation {
    Annotation {
        tag: tag.to_string(),
        form: AnnotationForm::ParamList(
            params
                .into_iter()
                .map(|(k, v)| AnnotationParam { key: k.to_string(), value: v })
                .collect(),
        ),
    }
}

fn record(name: &str, generics: &str, fields: Vec<FieldSchema>) -> RecordSchema {
    RecordSchema {
        name: name.to_string(),
        generics: generics.to_string(),
        fields: RecordFields::Named(fields),
    }
}

fn binding(name: &str, value: FieldVal) -> FieldBinding {
    FieldBinding { name: name.to_string(), value: Slot::Plain(value) }
}

#[test]
fn setter_maker_test_basic_scenario() {
    let input = record("Foo", "", vec![field("bar", "u16"), field("baz", "String")]);
    let expansion = make_builder_setters(input).unwrap();
    let methods = &expansion.impl_block.methods;
    assert_eq!(methods.len(), 2);
    assert_eq!(methods[0].name, "with_bar");
    assert_eq!(methods[1].name, "with_baz");

    let foo = RecordVal {
        bindings: vec![
            binding("bar", FieldVal::Int(0)),
            binding("baz", FieldVal::Text(String::new())),
        ],
    };
    let (foo, ok) = apply_builder_setter(foo, &methods[0], FieldVal::Int(100));
    assert!(ok);
    let (foo, ok) =
        apply_builder_setter(foo, &methods[1], FieldVal::Text(String::from("some_text")));
    assert!(ok);

    let expected_foo = RecordVal {
        bindings: vec![
            binding("bar", FieldVal::Int(100)),
            binding("baz", FieldVal::Text(String::from("some_text"))),
        ],
    };
    assert_eq!(foo, expected_foo)
}

#[test]
fn setter_maker_test_basic_scenario_with_generics() {
    let input = record(
        "Foo",
        "<T: Debug + PartialEq + Default>",
        vec![field("bar", "u16"), field("baz", "T")],
    );
    let expansion = make_builder_setters(input).unwrap();
    assert_eq!(expansion.impl_block.generics, "<T: Debug + PartialEq + Default>");
    let methods = &expansion.impl_block.methods;
    assert_eq!(methods.len(), 2);
    assert_eq!(methods[0].name, "with_bar");
    assert_eq!(methods[1].name, "with_baz");

    let foo = RecordVal {
        bindings: vec![
            binding("bar", FieldVal::Int(0)),
            binding("baz", FieldVal::Text(String::new())),
        ],
    };
    let (foo, ok) = apply_builder_setter(foo, &methods[0], FieldVal::Int(100));
    assert!(ok);
    let (foo, ok) =
        apply_builder_setter(foo, &methods[1], FieldVal::Text(String::from("some_text")));
    assert!(ok);

    let expected_foo = RecordVal {
        bindings: vec![
            binding("bar", FieldVal::Int(100)),
            binding("baz", FieldVal::Text(String::from("some_text"))),
        ],
    };
    assert_eq!(foo, expected_foo)
}

#[test]
fn builder_two_umbrella_directives_make_two_methods() {
    let input = record(
        "Foo",
        "",
        vec![field_with(
            "baz",
            "String",
            vec![
                umbrella(
                    "builder_setter",
                    vec![
                        ("prefix", LitValue::Str("set".to_string())),
                        ("visibility", LitValue::Str("pub".to_string())),
                    ],
                ),
                umbrella(
                    "builder_setter",
                    vec![
                        ("name", LitValue::Str("install_baz".to_string())),
                        ("visibility", LitValue::Str("pub(crate)".to_string())),
                    ],
                ),
            ],
        )],
    );
    let expansion = make_builder_setters(input).unwrap();
    let methods = &expansion.impl_block.methods;
    assert_eq!(methods.len(), 2);
    assert_eq!(methods[0].name, "set_baz");
    assert!(matches!(methods[0].visibility, SetterVisibility::Pub));
    assert_eq!(methods[1].name, "install_baz");
    assert!(matches!(methods[1].visibility, SetterVisibility::PubForCrate));
    assert_eq!(methods[0].field_name, "baz");
    assert_eq!(methods[1].field_name, "baz");
}

#[test]
fn configure_setter_last_directive_wins() {
    let input = record(
        "Foo",
        "",
        vec![field_with(
            "bar",
            "u16",
            vec![
                umbrella(
                    "configure_setter",
                    vec![("name", LitValue::Str("first_bar".to_string()))],
                ),
                umbrella(
                    "configure_setter",
                    vec![("name", LitValue::Str("second_bar".to_string()))],
                ),
            ],
        )],
    );
    let expansion = do_make_setters(input).unwrap();
    let methods = &expansion.impl_block.methods;
    assert_eq!(methods.len(), 1);
    assert_eq!(methods[0].name, "second_bar");
}

#[test]
fn builder_empty_visibility_is_self_only() {
    let input = record(
        "Foo",
        "",
        vec![field_with(
            "bazfoo",
            "String",
            vec![umbrella(
                "builder_setter",
                vec![
                    ("name", LitValue::Str("install_bazfoo".to_string())),
                    ("visibility", LitValue::Str(String::new())),
                ],
            )],
        )],
    );
    let expansion = make_builder_setters(input).unwrap();
    let methods = &expansion.impl_block.methods;
    assert_eq!(methods[0].name, "install_bazfoo");
    assert!(matches!(methods[0].visibility, SetterVisibility::Private));
}
