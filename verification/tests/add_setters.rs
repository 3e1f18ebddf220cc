use accessor_maker::add_setters::add_setters;
use accessor_maker::config::{AccessorKind, SetterVisibility};
use accessor_maker::method::MethodSpec;
use accessor_maker::rewrite::Expansion;
use accessor_maker::schema::{Annotation, AnnotationForm, FieldSchema, LitValue, RecordFields,
    RecordSchema, TypeDesc};
use accessor_maker::semantics::{FieldBinding, FieldVal, RecordVal, Slot, apply_builder_setter};

fn ty(head: &str) -> TypeDesc {
    TypeDesc { head: head.to_string(), args: Vec::new() }
}

fn field(name: &str, head: &str) -> FieldSchema {
    FieldSchema { name: name.to_string(), ty: ty(head), annotations: Vec::new() }
}

fn field_with(name: &str, head: &str, annotations: Vec<Annotation>) -> FieldSchema {
    FieldSchema { name: name.to_string(), ty: ty(head), annotations }
}

fn legacy(tag: &str, value: &str) -> Annotation {
    Annotation {
        tag: tag.to_string(),
        form: AnnotationForm::Value(LitValue::Str(value.to_string())),
    }
}

fn bare(tag: &str) -> Annotation {
    Annotation { tag: tag.to_string(), form: AnnotationForm::Bare }
}

fn record(name: &str, generics: &str, fields: Vec<FieldSchema>) -> RecordSchema {
    RecordSchema {
        name: name.to_string(),
        generics: generics.to_string(),
        fields: RecordFields::Named(fields),
    }
}

fn binding(name: &str, value: FieldVal) -> FieldBinding {
    FieldBinding { name: name.to_string(), value: Slot::Plain(value) }
}

fn apply(rec: RecordVal, m: &MethodSpec, arg: FieldVal) -> RecordVal {
    let (out, ok) = apply_builder_setter(rec, m, arg);
    assert!(ok);
    out
}

#[test]
fn test_basic_scenario() {
    let input = record("Foo", "", vec![field("bar", "u16"), field("baz", "String")]);
    let expansion: Expansion = add_setters(input).unwrap();

    let methods = &expansion.impl_block.methods;
    assert_eq!(methods.len(), 2);
    assert_eq!(methods[0].name, "with_bar");
    assert_eq!(methods[1].name, "with_baz");
    assert!(matches!(methods[0].visibility, SetterVisibility::Pub));
    assert!(matches!(methods[0].body, AccessorKind::BuilderSetter));
    assert!(methods[0].params[0].by_into);

    let foo = RecordVal {
        bindings: vec![
            binding("bar", FieldVal::Int(0)),
            binding("baz", FieldVal::Text(String::new())),
        ],
    };
    let foo = apply(foo, &methods[0], FieldVal::Int(100));
    let foo = apply(foo, &methods[1], FieldVal::Text(String::from("some_text")));

    let expected_foo = RecordVal {
        bindings: vec![
            binding("bar", FieldVal::Int(100)),
            binding("baz", FieldVal::Text(String::from("some_text"))),
        ],
    };
    assert_eq!(foo, expected_foo)
}

#[test]
fn test_basic_scenario_with_generics() {
    let input = record(
        "Foo",
        "<T: Debug + PartialEq + Default>",
        vec![field("bar", "u16"), field("baz", "T")],
    );
    let expansion = add_setters(input).unwrap();

    assert_eq!(expansion.impl_block.generics, "<T: Debug + PartialEq + Default>");
    assert_eq!(expansion.record.generics, "<T: Debug + PartialEq + Default>");
    let methods = &expansion.impl_block.methods;
    assert_eq!(methods.len(), 2);
    assert_eq!(methods[0].name, "with_bar");
    assert_eq!(methods[1].name, "with_baz");

    let foo = RecordVal {
        bindings: vec![
            binding("bar", FieldVal::Int(0)),
            binding("baz", FieldVal::Text(String::new())),
        ],
    };
    let foo = apply(foo, &methods[0], FieldVal::Int(100));
    let foo = apply(foo, &methods[1], FieldVal::Text(String::from("some_text")));

    let expected_foo = RecordVal {
        bindings: vec![
            binding("bar", FieldVal::Int(100)),
            binding("baz", FieldVal::Text(String::from("some_text"))),
        ],
    };
    assert_eq!(foo, expected_foo)
}

#[test]
fn add_setters_legacy_prefix_and_suffix() {
    let input = record(
        "Foo",
        "",
        vec![
            field("bar", "u16"),
            field_with("baz", "String", vec![legacy("setter_prefix", "set")]),
            field_with("foobar", "bool", vec![bare("disable_setter")]),
            field_with("foobaz", "bool", vec![legacy("setter_suffix", "fb")]),
            field_with(
                "barbaz",
                "String",
                vec![legacy("setter_prefix", "set"), legacy("setter_suffix", "bb")],
            ),
        ],
    );
    let expansion = add_setters(input).unwrap();
    let names: Vec<&str> =
        expansion.impl_block.methods.iter().map(|m| m.name.as_str()).collect();
    assert_eq!(names, vec!["with_bar", "set_baz", "with_fb", "set_bb"]);
}

#[test]
fn add_setters_legacy_name_and_visibility() {
    let input = record(
        "Foo",
        "",
        vec![
            field_with("bar", "u16", vec![legacy("setter_name", "install_bar")]),
            field_with("baz", "String", vec![legacy("setter_visibility", "pub(crate)")]),
        ],
    );
    let expansion = add_setters(input).unwrap();
    let methods = &expansion.impl_block.methods;
    assert_eq!(methods[0].name, "install_bar");
    assert!(matches!(methods[1].visibility, SetterVisibility::PubForCrate));
}

#[test]
fn add_setters_strips_directives_and_keeps_others() {
    let doc = Annotation {
        tag: "doc".to_string(),
        form: AnnotationForm::Value(LitValue::Str("a field".to_string())),
    };
    let input = record(
        "Foo",
        "",
        vec![field_with(
            "bar",
            "u16",
            vec![doc.clone(), legacy("setter_prefix", "set"), bare("disable_setter")],
        )],
    );
    let expansion = add_setters(input).unwrap();
    assert_eq!(expansion.impl_block.methods.len(), 0);
    match &expansion.record.fields {
        RecordFields::Named(fields) => {
            assert_eq!(fields[0].annotations, vec![doc]);
        },
        _ => panic!("named fields expected"),
    }
}
