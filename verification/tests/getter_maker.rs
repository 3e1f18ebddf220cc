use accessor_maker::config::{AccessorKind, GetterRefStrategy};
use accessor_maker::error::ConfigError;
use accessor_maker::getter_maker::make_getters;
use accessor_maker::method::ReturnSpec;
use accessor_maker::schema::{Annotation, AnnotationForm, AnnotationParam, FieldSchema, LitValue,
    RecordFields, RecordSchema, TypeDesc};
use accessor_maker::semantics::{FieldBinding, FieldVal, RecordVal, Slot, apply_getter};

fn ty(head: &str) -> TypeDesc {
    TypeDesc { head: head.to_string(), args: Vec::new() }
}

fn field(name: &str, head: &str) -> FieldSchema {
    FieldSchema { name: name.to_string(), ty: ty(head), annotations: Vec::new() }
}

fn field_with(name: &str, head: &str, annotations: Vec<Annotation>) -> FieldSchema {
    FieldSchema { name: name.to_string(), ty: ty(head), annotations }
}

fn legacy(tag: &str, value: &str) -> Annotation {
    Annotation {
        tag: tag.to_string(),
        form: AnnotationForm::Value(LitValue::Str(value.to_string())),
    }
}

fn umbrella(tag: &str, params: Vec<(&str, LitValue)>) -> Annotation {
    Annotation {
        tag: tag.to_string(),
        form: AnnotationForm::ParamList(
            params
                .into_iter()
                .map(|(k, v)| AnnotationParam { key: k.to_string(), value: v })
                .collect(),
        ),
    }
}

fn record(name: &str, generics: &str, fields: Vec<FieldSchema>) -> RecordSchema {
    RecordSchema {
        name: name.to_string(),
        generics: generics.to_string(),
        fields: RecordFields::Named(fields),
    }
}

fn binding(name: &str, value: FieldVal) -> FieldBinding {
    FieldBinding { name: name.to_string(), value: Slot::Plain(value) }
}

#[test]
fn integration_test_basic_scenario() {
    let input = record(
        "Foo",
        "",
        vec![
            field("bar", "u16"),
            field_with("baz", "String", vec![legacy("getter_ref_strategy", "ref")]),
        ],
    );
    let expansion = make_getters(input).unwrap();
    let methods = &expansion.impl_block.methods;
    assert_eq!(methods.len(), 2);
    assert_eq!(methods[0].name, "bar");
    assert_eq!(methods[1].name, "baz");
    assert!(matches!(methods[0].body, AccessorKind::Getter));
    assert!(matches!(methods[0].ret, ReturnSpec::Value(_)));
    assert!(matches!(methods[1].ret, ReturnSpec::Reference(_)));
    assert!(methods[0].params.is_empty());

    let foo = RecordVal {
        bindings: vec![
            binding("bar", FieldVal::Int(12)),
            binding("baz", FieldVal::Text(String::from("asd"))),
        ],
    };
    assert_eq!(apply_getter(&foo, &methods[0]), Some(Slot::Plain(FieldVal::Int(12))));
    assert_eq!(
        apply_getter(&foo, &methods[1]),
        Some(Slot::Plain(FieldVal::Text(String::from("asd"))))
    );
}

#[test]
fn integration_test_basic_scenario_with_generics() {
    let input = record(
        "Foo",
        "<T: Debug + PartialEq + Default>",
        vec![
            field("bar", "u16"),
            field_with("baz", "T", vec![legacy("getter_ref_strategy", "ref")]),
        ],
    );
    let expansion = make_getters(input).unwrap();
    assert_eq!(expansion.impl_block.generics, "<T: Debug + PartialEq + Default>");
    let methods = &expansion.impl_block.methods;
    assert_eq!(methods.len(), 2);
    assert_eq!(methods[0].name, "bar");
    assert_eq!(methods[1].name, "baz");
    assert!(matches!(methods[1].ret, ReturnSpec::Reference(_)));

    let foo = RecordVal {
        bindings: vec![
            binding("bar", FieldVal::Int(12)),
            binding("baz", FieldVal::IntList(vec![1, 2, 3])),
        ],
    };
    assert_eq!(apply_getter(&foo, &methods[0]), Some(Slot::Plain(FieldVal::Int(12))));
    assert_eq!(
        apply_getter(&foo, &methods[1]),
        Some(Slot::Plain(FieldVal::IntList(vec![1, 2, 3])))
    );
}

#[test]
fn getter_umbrella_prefix_names_the_method() {
    let input = record(
        "Foo",
        "",
        vec![field_with(
            "bar",
            "u16",
            vec![umbrella(
                "configure_getter",
                vec![("prefix", LitValue::Str("get".to_string()))],
            )],
        )],
    );
    let expansion = make_getters(input).unwrap();
    assert_eq!(expansion.impl_block.methods[0].name, "get_bar");
}

#[test]
fn getter_suffix_requires_prefix() {
    let input = record(
        "Foo",
        "",
        vec![field_with(
            "bar",
            "u16",
            vec![umbrella(
                "configure_getter",
                vec![("suffix", LitValue::Str("b".to_string()))],
            )],
        )],
    );
    let err = make_getters(input).unwrap_err();
    assert!(matches!(err, ConfigError::SuffixWithoutPrefix));
    assert_eq!(err.message(), "'suffix' param must be used with 'prefix' param.");
}

#[test]
fn getter_invalid_ref_strategy_lists_allowed_set() {
    let input = record(
        "Foo",
        "",
        vec![field_with(
            "bar",
            "u16",
            vec![umbrella(
                "configure_getter",
                vec![("ref_strategy", LitValue::Str("zzz".to_string()))],
            )],
        )],
    );
    let err = make_getters(input).unwrap_err();
    assert!(matches!(err, ConfigError::InvalidRefStrategy { .. }));
    assert_eq!(err.message(), "Invalid ref_strategy: 'zzz'. Allowed: ref, none.");
}

#[test]
fn getter_ref_strategy_literals() {
    assert!(matches!(
        GetterRefStrategy::try_from(&String::from("ref")),
        Ok(GetterRefStrategy::Ref)
    ));
    assert!(matches!(
        GetterRefStrategy::try_from(&String::from("none")),
        Ok(GetterRefStrategy::ByValue)
    ));
    assert!(matches!(
        GetterRefStrategy::try_from(&String::from("value")),
        Err(ConfigError::InvalidRefStrategy { .. })
    ));
}

#[test]
fn getter_disable_suppresses_generation() {
    let input = record(
        "Foo",
        "",
        vec![
            field("bar", "u16"),
            field_with(
                "baz",
                "String",
                vec![Annotation {
                    tag: "disable_getters".to_string(),
                    form: AnnotationForm::Bare,
                }],
            ),
        ],
    );
    let expansion = make_getters(input).unwrap();
    let methods = &expansion.impl_block.methods;
    assert_eq!(methods.len(), 1);
    assert_eq!(methods[0].name, "bar");
}
