//! Descriptions across every kind of type-system definition, and hidden
//! lists and objects that keep nothing of what they held.

use graphql_strip_sensitive_literals::ast::{
    Argument, Definition, DirectiveDefinition, DirectiveLocation, Document, EnumTypeDefinition,
    EnumValueDefinition, Field, FieldDefinition, InputObjectTypeDefinition, InputValueDefinition,
    InterfaceTypeDefinition, ObjectTypeDefinition, OperationDefinition, OperationType,
    ScalarTypeDefinition, SchemaDefinition, Selection, Type, UnionTypeDefinition, Value,
};
use graphql_strip_sensitive_literals::{strip_sensitive_literals, StripOptions};

fn s(text: &str) -> String {
    text.to_string()
}

fn description_text(description: &Option<String>) -> Option<&str> {
    description.as_deref()
}

fn arg_definition(description: &str, name: &str) -> InputValueDefinition {
    InputValueDefinition {
        description: Some(s(description)),
        name: s(name),
        ty: Type::Named(s("String")),
        default_value: Some(Value::String(s("Ada"))),
        directives: vec![],
    }
}

fn field_definition(description: &str, name: &str, arg_description: &str, ty: &str) -> FieldDefinition {
    FieldDefinition {
        description: Some(s(description)),
        name: s(name),
        arguments: vec![arg_definition(arg_description, if name == "user" { "name" } else { "x" })],
        ty: Type::Named(s(ty)),
        directives: vec![],
    }
}

// "secret schema" schema { query: Query }
// "secret directive" directive @tag("secret directive arg" note: String = "Ada") on FIELD_DEFINITION
// "secret scalar" scalar S
// "secret type" type Query { "secret field" user("secret arg" name: String = "Ada"): String }
// "secret interface" interface Node { "secret interface field" id("secret interface arg" x: String = "Ada"): ID }
// "secret union" union Search = Query
// "secret enum" enum E { "secret enum value" A }
// "secret input" input I { "secret input field" x: String = "Ada" }
fn secret_schema() -> Document {
    Document {
        definitions: vec![
            Definition::SchemaDefinition(SchemaDefinition {
                description: Some(s("secret schema")),
                directives: vec![],
                root_operations: vec![(OperationType::Query, s("Query"))],
            }),
            Definition::DirectiveDefinition(DirectiveDefinition {
                description: Some(s("secret directive")),
                name: s("tag"),
                arguments: vec![arg_definition("secret directive arg", "note")],
                repeatable: false,
                locations: vec![DirectiveLocation::FieldDefinition],
            }),
            Definition::ScalarTypeDefinition(ScalarTypeDefinition {
                description: Some(s("secret scalar")),
                name: s("S"),
                directives: vec![],
            }),
            Definition::ObjectTypeDefinition(ObjectTypeDefinition {
                description: Some(s("secret type")),
                name: s("Query"),
                implements_interfaces: vec![],
                directives: vec![],
                fields: vec![field_definition("secret field", "user", "secret arg", "String")],
            }),
            Definition::InterfaceTypeDefinition(InterfaceTypeDefinition {
                description: Some(s("secret interface")),
                name: s("Node"),
                implements_interfaces: vec![],
                directives: vec![],
                fields: vec![field_definition(
                    "secret interface field",
                    "id",
                    "secret interface arg",
                    "ID",
                )],
            }),
            Definition::UnionTypeDefinition(UnionTypeDefinition {
                description: Some(s("secret union")),
                name: s("Search"),
                directives: vec![],
                members: vec![s("Query")],
            }),
            Definition::EnumTypeDefinition(EnumTypeDefinition {
                description: Some(s("secret enum")),
                name: s("E"),
                directives: vec![],
                values: vec![EnumValueDefinition {
                    description: Some(s("secret enum value")),
                    value: s("A"),
                    directives: vec![],
                }],
            }),
            Definition::InputObjectTypeDefinition(InputObjectTypeDefinition {
                description: Some(s("secret input")),
                name: s("I"),
                directives: vec![],
                fields: vec![InputValueDefinition {
                    description: Some(s("secret input field")),
                    name: s("x"),
                    ty: Type::Named(s("String")),
                    default_value: Some(Value::String(s("Ada"))),
                    directives: vec![],
                }],
            }),
        ],
    }
}

#[test]
fn description_strings_are_redacted() {
    let out = strip_sensitive_literals(&secret_schema(), StripOptions::default());

    let printed = format!("{out:?}");
    assert!(!printed.contains("secret"), "got `{printed}`");
    assert!(!printed.contains("Ada"), "got `{printed}`");

    for def in &out.definitions {
        match def {
            Definition::DirectiveDefinition(def) => {
                assert_eq!(description_text(&def.description), Some(""));
                assert_eq!(description_text(&def.arguments[0].description), Some(""));
            }
            Definition::SchemaDefinition(def) => {
                assert_eq!(description_text(&def.description), Some(""));
            }
            Definition::ScalarTypeDefinition(def) => {
                assert_eq!(description_text(&def.description), Some(""));
            }
            Definition::ObjectTypeDefinition(def) => {
                let field = &def.fields[0];
                assert_eq!(description_text(&def.description), Some(""));
                assert_eq!(description_text(&field.description), Some(""));
                assert_eq!(description_text(&field.arguments[0].description), Some(""));
            }
            Definition::InterfaceTypeDefinition(def) => {
                let field = &def.fields[0];
                assert_eq!(description_text(&def.description), Some(""));
                assert_eq!(description_text(&field.description), Some(""));
                assert_eq!(description_text(&field.arguments[0].description), Some(""));
            }
            Definition::UnionTypeDefinition(def) => {
                assert_eq!(description_text(&def.description), Some(""));
            }
            Definition::EnumTypeDefinition(def) => {
                assert_eq!(description_text(&def.description), Some(""));
                assert_eq!(description_text(&def.values[0].description), Some(""));
            }
            Definition::InputObjectTypeDefinition(def) => {
                assert_eq!(description_text(&def.description), Some(""));
                assert_eq!(description_text(&def.fields[0].description), Some(""));
            }
            _ => {}
        }
    }
}

fn int_value(text: &str) -> Value {
    Value::Int(s(text))
}

// { f(l: [1, 2, 3, 4, 5], o: {a: 1, b: 2, c: 3, d: 4, e: 5}) }
#[test]
fn hidden_list_and_object_values_drop_capacity() {
    let options = StripOptions::builder().hide_list_and_object_literals(true).build();
    let doc = Document {
        definitions: vec![Definition::OperationDefinition(OperationDefinition {
            operation_type: OperationType::Query,
            name: None,
            variables: vec![],
            directives: vec![],
            selection_set: vec![Selection::Field(Field {
                alias: None,
                name: s("f"),
                arguments: vec![
                    Argument {
                        name: s("l"),
                        value: Value::List(vec![int_value("1"), int_value("2"), int_value("3"), int_value("4"), int_value("5")]),
                    },
                    Argument {
                        name: s("o"),
                        value: Value::Object(vec![
                            (s("a"), int_value("1")),
                            (s("b"), int_value("2")),
                            (s("c"), int_value("3")),
                            (s("d"), int_value("4")),
                            (s("e"), int_value("5")),
                        ]),
                    },
                ],
                directives: vec![],
                selection_set: vec![],
            })],
        })],
    };
    let out = strip_sensitive_literals(&doc, options);

    let Definition::OperationDefinition(operation) = &out.definitions[0] else {
        panic!("expected operation");
    };
    let Selection::Field(field) = &operation.selection_set[0] else {
        panic!("expected field");
    };
    let arguments = &field.arguments;

    let Value::List(items) = &arguments[0].value else {
        panic!("expected list");
    };
    assert_eq!(items.len(), 0);
    assert_eq!(items.capacity(), 0);

    let Value::Object(fields) = &arguments[1].value else {
        panic!("expected object");
    };
    assert_eq!(fields.len(), 0);
    assert_eq!(fields.capacity(), 0);
}
