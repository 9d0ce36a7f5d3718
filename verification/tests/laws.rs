//! The laws of redaction on concrete documents: idempotence, no literal data
//! left behind, redacted documents unchanged, literal content forgotten, and
//! everything but literals kept, across every kind of definition.

use graphql_strip_sensitive_literals::ast::{
    Argument, Definition, Directive, Document, EnumTypeExtension, EnumValueDefinition, Field,
    FieldDefinition, FragmentDefinition, FragmentSpread, InlineFragment, InputValueDefinition,
    InterfaceTypeExtension, ObjectTypeExtension, OperationDefinition, OperationType,
    ScalarTypeExtension, SchemaExtension, Selection, Type, UnionTypeExtension, Value,
    VariableDefinition,
};
use graphql_strip_sensitive_literals::{strip_sensitive_literals, StripOptions};
use std::hash::{Hash, Hasher};

fn s(text: &str) -> String {
    text.to_string()
}

fn hiding() -> StripOptions {
    StripOptions::builder().hide_list_and_object_literals(true).build()
}

/// The literals that fill one copy of the document.
struct Literals {
    int: &'static str,
    float: &'static str,
    text: &'static str,
    list: Vec<&'static str>,
    keys: Vec<&'static str>,
    description: Option<&'static str>,
}

fn secret() -> Literals {
    Literals {
        int: "42",
        float: "2.5e3",
        text: "password",
        list: vec!["item-one", "item-two"],
        keys: vec!["k1", "k2"],
        description: Some("internal"),
    }
}

fn other_secret() -> Literals {
    Literals {
        int: "-7",
        float: "0.001",
        text: "token",
        list: vec!["item-three", "item-four"],
        keys: vec!["k1", "k2"],
        description: Some("private"),
    }
}

fn redacted_default() -> Literals {
    Literals { int: "0", float: "", text: "", list: vec!["", ""], keys: vec!["k1", "k2"], description: Some("") }
}

/// A value holding every kind of literal.
fn rich_value(l: &Literals, float_as_int: bool) -> Value {
    let number = if float_as_int { Value::Int(s(l.int)) } else { Value::Float(s(l.float)) };
    Value::Object(
        l.keys
            .iter()
            .map(|k| {
                (
                    s(k),
                    Value::List(vec![
                        Value::Int(s(l.int)),
                        number.clone(),
                        Value::List(l.list.iter().map(|t| Value::String(s(t))).collect()),
                        Value::Boolean(true),
                        Value::Null,
                        Value::Enum(s("RED")),
                        Value::Variable(s("v")),
                    ]),
                )
            })
            .collect(),
    )
}

fn directive(l: &Literals, float_as_int: bool) -> Directive {
    Directive {
        name: s("tag"),
        arguments: vec![
            Argument { name: s("note"), value: Value::String(s(l.text)) },
            Argument { name: s("data"), value: rich_value(l, float_as_int) },
        ],
    }
}

fn input_value(l: &Literals, float_as_int: bool) -> InputValueDefinition {
    InputValueDefinition {
        description: l.description.map(s),
        name: s("x"),
        ty: Type::NonNullList(Box::new(Type::NonNullNamed(s("Int")))),
        default_value: Some(rich_value(l, float_as_int)),
        directives: vec![directive(l, float_as_int)],
    }
}

fn field_definition(l: &Literals, float_as_int: bool) -> FieldDefinition {
    FieldDefinition {
        description: l.description.map(s),
        name: s("f"),
        arguments: vec![input_value(l, float_as_int)],
        ty: Type::List(Box::new(Type::Named(s("ID")))),
        directives: vec![directive(l, float_as_int)],
    }
}

/// `f(a: <rich>) @tag(..) { ... on T @tag(..) { g(b: <text>) } ...Frag @tag(..) }`
fn selection_set(l: &Literals, float_as_int: bool) -> Vec<Selection> {
    vec![Selection::Field(Field {
        alias: Some(s("alias")),
        name: s("f"),
        arguments: vec![Argument { name: s("a"), value: rich_value(l, float_as_int) }],
        directives: vec![directive(l, float_as_int)],
        selection_set: vec![
            Selection::InlineFragment(InlineFragment {
                type_condition: Some(s("T")),
                directives: vec![directive(l, float_as_int)],
                selection_set: vec![Selection::Field(Field {
                    alias: None,
                    name: s("g"),
                    arguments: vec![Argument { name: s("b"), value: Value::String(s(l.text)) }],
                    directives: vec![],
                    selection_set: vec![],
                })],
            }),
            Selection::FragmentSpread(FragmentSpread {
                fragment_name: s("Frag"),
                directives: vec![directive(l, float_as_int)],
            }),
        ],
    })]
}

/// A document with literals in every place the walk reaches, with the
/// floats written as integers when `float_as_int` is set.
fn rich_document(l: &Literals, float_as_int: bool) -> Document {
    Document {
        definitions: vec![
            Definition::OperationDefinition(OperationDefinition {
                operation_type: OperationType::Query,
                name: Some(s("Q")),
                variables: vec![VariableDefinition {
                    name: s("v"),
                    ty: Type::Named(s("Int")),
                    default_value: Some(Value::Int(s(l.int))),
                    directives: vec![directive(l, float_as_int)],
                }],
                directives: vec![directive(l, float_as_int)],
                selection_set: selection_set(l, float_as_int),
            }),
            Definition::FragmentDefinition(FragmentDefinition {
                name: s("Frag"),
                type_condition: s("T"),
                directives: vec![directive(l, float_as_int)],
                selection_set: selection_set(l, float_as_int),
            }),
            Definition::SchemaExtension(SchemaExtension {
                directives: vec![directive(l, float_as_int)],
                root_operations: vec![(OperationType::Mutation, s("M"))],
            }),
            Definition::ScalarTypeExtension(ScalarTypeExtension {
                name: s("S"),
                directives: vec![directive(l, float_as_int)],
            }),
            Definition::ObjectTypeExtension(ObjectTypeExtension {
                name: s("O"),
                implements_interfaces: vec![s("I1"), s("I2")],
                directives: vec![directive(l, float_as_int)],
                fields: vec![field_definition(l, float_as_int)],
            }),
            Definition::InterfaceTypeExtension(InterfaceTypeExtension {
                name: s("I1"),
                implements_interfaces: vec![s("I2")],
                directives: vec![directive(l, float_as_int)],
                fields: vec![field_definition(l, float_as_int)],
            }),
            Definition::UnionTypeExtension(UnionTypeExtension {
                name: s("U"),
                directives: vec![directive(l, float_as_int)],
                members: vec![s("O")],
            }),
            Definition::EnumTypeExtension(EnumTypeExtension {
                name: s("E"),
                directives: vec![directive(l, float_as_int)],
                values: vec![EnumValueDefinition {
                    description: l.description.map(s),
                    value: s("RED"),
                    directives: vec![directive(l, float_as_int)],
                }],
            }),
        ],
    }
}

#[test]
fn strip_is_idempotent() {
    for options in [StripOptions::default(), hiding()] {
        let once = strip_sensitive_literals(&rich_document(&secret(), false), options);
        let twice = strip_sensitive_literals(&once, options);
        assert_eq!(once, twice, "not idempotent for {options:?}");
    }
}

#[test]
fn default_mode_result_is_exact() {
    // Floats become the integer 0, so the expected document writes them as ints.
    let got = strip_sensitive_literals(&rich_document(&secret(), false), StripOptions::default());
    assert_eq!(got, rich_document(&redacted_default(), true));
}

#[test]
fn strip_leaves_no_literal_data() {
    for options in [StripOptions::default(), hiding()] {
        let got = strip_sensitive_literals(&rich_document(&secret(), false), options);
        let printed = format!("{got:?}");
        for leaked in ["42", "2.5e3", "password", "internal", "item-", "Float"] {
            assert!(!printed.contains(leaked), "`{leaked}` left in `{printed}`");
        }
    }
}

#[test]
fn hide_mode_empties_lists_and_objects() {
    let got = strip_sensitive_literals(&rich_document(&secret(), false), hiding());
    let printed = format!("{got:?}");
    assert!(!printed.contains("k1"), "object keys left in `{printed}`");
    assert!(!printed.contains("RED\")"), "object contents left in `{printed}`");
    let Definition::OperationDefinition(op) = &got.definitions[0] else {
        panic!("expected operation");
    };
    let Selection::Field(field) = &op.selection_set[0] else {
        panic!("expected field");
    };
    assert_eq!(field.arguments[0].value, Value::Object(vec![]));
    assert_eq!(op.variables[0].default_value, Some(Value::Int(s("0"))));
}

#[test]
fn redacted_document_is_unchanged() {
    let redacted = rich_document(&redacted_default(), true);
    assert_eq!(strip_sensitive_literals(&redacted, StripOptions::default()), redacted);
}

#[test]
fn literal_content_is_forgotten() {
    for options in [StripOptions::default(), hiding()] {
        let a = strip_sensitive_literals(&rich_document(&secret(), false), options);
        let b = strip_sensitive_literals(&rich_document(&other_secret(), true), options);
        assert_eq!(a, b, "content leaks through for {options:?}");
    }
}

#[test]
fn hidden_lists_forget_their_length_and_keys() {
    let mut longer = secret();
    longer.list = vec!["w", "x", "y", "z"];
    longer.keys = vec!["other"];
    let a = strip_sensitive_literals(&rich_document(&secret(), false), hiding());
    let b = strip_sensitive_literals(&rich_document(&longer, false), hiding());
    assert_eq!(a, b);
    // In the default mode the shape shows.
    let a = strip_sensitive_literals(&rich_document(&secret(), false), StripOptions::default());
    let b = strip_sensitive_literals(&rich_document(&longer, false), StripOptions::default());
    assert_ne!(a, b);
}

#[test]
fn absent_descriptions_stay_absent() {
    let mut none = secret();
    none.description = None;
    let got = strip_sensitive_literals(&rich_document(&none, false), StripOptions::default());
    let mut expected = redacted_default();
    expected.description = None;
    assert_eq!(got, rich_document(&expected, true));
}

#[test]
fn empty_document_stays_empty() {
    let empty = Document { definitions: vec![] };
    assert_eq!(strip_sensitive_literals(&empty, hiding()), Document { definitions: vec![] });
}

fn hash_of(doc: &Document) -> u64 {
    let mut hasher = std::collections::hash_map::DefaultHasher::new();
    doc.hash(&mut hasher);
    hasher.finish()
}

#[test]
fn clone_is_an_equal_copy() {
    let doc = rich_document(&secret(), false);
    let copy = doc.clone();
    assert_eq!(copy, doc);
    assert_eq!(hash_of(&copy), hash_of(&doc));
    assert_eq!(
        strip_sensitive_literals(&copy, hiding()),
        strip_sensitive_literals(&doc, hiding())
    );
}

#[test]
fn redacted_documents_hash_alike() {
    let a = strip_sensitive_literals(&rich_document(&secret(), false), StripOptions::default());
    let b = strip_sensitive_literals(&rich_document(&other_secret(), true), StripOptions::default());
    assert_eq!(hash_of(&a), hash_of(&b));
}
