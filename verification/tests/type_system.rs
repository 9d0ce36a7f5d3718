//! Redaction reaches literals in type-system definitions.
//!
//! A document can hold schema definitions next to operations. Literals live
//! in field-argument defaults, input-field defaults, and directive arguments.
//! The redactor walks the whole document, so those literals collapse the same
//! as literals in a query. Each document is written out as the AST of the
//! GraphQL source quoted beside it.

use graphql_strip_sensitive_literals::ast::{
    Argument, Definition, Directive, DirectiveDefinition, DirectiveLocation, Document,
    EnumTypeDefinition, EnumValueDefinition, Field, FieldDefinition, InputObjectTypeDefinition,
    InputObjectTypeExtension, InputValueDefinition, InterfaceTypeDefinition,
    ObjectTypeDefinition, OperationDefinition, OperationType, SchemaDefinition, Selection, Type,
    Value,
};
use graphql_strip_sensitive_literals::{strip_sensitive_literals, StripOptions};

fn s(text: &str) -> String {
    text.to_string()
}

fn int_value(text: &str) -> Value {
    Value::Int(s(text))
}

fn string(text: &str) -> Value {
    Value::String(s(text))
}

fn directive(name: &str, arg: &str, value: Value) -> Directive {
    Directive { name: s(name), arguments: vec![Argument { name: s(arg), value }] }
}

fn input_value(name: &str, ty: Type, default_value: Option<Value>) -> InputValueDefinition {
    InputValueDefinition { description: None, name: s(name), ty, default_value, directives: vec![] }
}

fn named(name: &str) -> Type {
    Type::Named(s(name))
}

fn doc(definitions: Vec<Definition>) -> Document {
    Document { definitions }
}

/// `input I { x: Int = <n> }`
fn input_i(n: &str) -> Document {
    doc(vec![Definition::InputObjectTypeDefinition(InputObjectTypeDefinition {
        description: None,
        name: s("I"),
        directives: vec![],
        fields: vec![input_value("x", named("Int"), Some(int_value(n)))],
    })])
}

/// `type T @foo(n: <n>) { id: ID }`
fn type_t(n: &str) -> Document {
    doc(vec![Definition::ObjectTypeDefinition(ObjectTypeDefinition {
        description: None,
        name: s("T"),
        implements_interfaces: vec![],
        directives: vec![directive("foo", "n", int_value(n))],
        fields: vec![FieldDefinition {
            description: None,
            name: s("id"),
            arguments: vec![],
            ty: named("ID"),
            directives: vec![],
        }],
    })])
}

/// `type Q { f(x: Int = <n>): ID }`
fn type_q(n: &str) -> Document {
    doc(vec![Definition::ObjectTypeDefinition(ObjectTypeDefinition {
        description: None,
        name: s("Q"),
        implements_interfaces: vec![],
        directives: vec![],
        fields: vec![FieldDefinition {
            description: None,
            name: s("f"),
            arguments: vec![input_value("x", named("Int"), Some(int_value(n)))],
            ty: named("ID"),
            directives: vec![],
        }],
    })])
}

/// `enum E { A @deprecated(reason: "<reason>") }`
fn enum_e(reason: &str) -> Document {
    doc(vec![Definition::EnumTypeDefinition(EnumTypeDefinition {
        description: None,
        name: s("E"),
        directives: vec![],
        values: vec![EnumValueDefinition {
            description: None,
            value: s("A"),
            directives: vec![directive("deprecated", "reason", string(reason))],
        }],
    })])
}

/// `directive @foo(n: Int = <n>) on FIELD`
fn directive_foo(n: &str) -> Document {
    doc(vec![Definition::DirectiveDefinition(DirectiveDefinition {
        description: None,
        name: s("foo"),
        arguments: vec![input_value("n", named("Int"), Some(int_value(n)))],
        repeatable: false,
        locations: vec![DirectiveLocation::Field],
    })])
}

/// `interface If { g(a: Int = <n>): ID }`
fn interface_if(n: &str) -> Document {
    doc(vec![Definition::InterfaceTypeDefinition(InterfaceTypeDefinition {
        description: None,
        name: s("If"),
        implements_interfaces: vec![],
        directives: vec![],
        fields: vec![FieldDefinition {
            description: None,
            name: s("g"),
            arguments: vec![input_value("a", named("Int"), Some(int_value(n)))],
            ty: named("ID"),
            directives: vec![],
        }],
    })])
}

/// `extend input I @foo(s: "<text>") { y: Int = <n> }`
fn extend_input_i(text: &str, n: &str) -> Document {
    doc(vec![Definition::InputObjectTypeExtension(InputObjectTypeExtension {
        name: s("I"),
        directives: vec![directive("foo", "s", string(text))],
        fields: vec![input_value("y", named("Int"), Some(int_value(n)))],
    })])
}

struct Row {
    input: Document,
    expected: Document,
}

#[test]
fn type_system_literals_redacted() {
    let rows = vec![
        // input I { x: Int = 5 }  =>  input I { x: Int = 0 }
        Row { input: input_i("5"), expected: input_i("0") },
        // type T @foo(n: 5) { id: ID }  =>  type T @foo(n: 0) { id: ID }
        Row { input: type_t("5"), expected: type_t("0") },
        // type Q { f(x: Int = 5): ID }  =>  type Q { f(x: Int = 0): ID }
        Row { input: type_q("5"), expected: type_q("0") },
        // enum E { A @deprecated(reason: "old") }  =>  enum E { A @deprecated(reason: "") }
        Row { input: enum_e("old"), expected: enum_e("") },
        // directive @foo(n: Int = 3) on FIELD  =>  directive @foo(n: Int = 0) on FIELD
        Row { input: directive_foo("3"), expected: directive_foo("0") },
        // interface If { g(a: Int = 4): ID }  =>  interface If { g(a: Int = 0): ID }
        Row { input: interface_if("4"), expected: interface_if("0") },
        // extend input I @foo(s: "x") { y: Int = 9 }  =>  extend input I @foo(s: "") { y: Int = 0 }
        Row { input: extend_input_i("x", "9"), expected: extend_input_i("", "0") },
    ];
    for row in &rows {
        let got = strip_sensitive_literals(&row.input, StripOptions::default());
        assert_eq!(got, row.expected, "input `{:?}`", row.input);
    }
}

// query Q { f(n: 5) }
// input I { x: Int = 7 }
#[test]
fn mixed_document_redacts_both_halves() {
    let build = |query_n: &str, input_n: &str| {
        let mut definitions = vec![Definition::OperationDefinition(OperationDefinition {
            operation_type: OperationType::Query,
            name: Some(s("Q")),
            variables: vec![],
            directives: vec![],
            selection_set: vec![Selection::Field(Field {
                alias: None,
                name: s("f"),
                arguments: vec![Argument { name: s("n"), value: int_value(query_n) }],
                directives: vec![],
                selection_set: vec![],
            })],
        })];
        definitions.extend(input_i(input_n).definitions);
        doc(definitions)
    };
    let got = strip_sensitive_literals(&build("5", "7"), StripOptions::default());
    // query Q { f(n: 0) } input I { x: Int = 0 }
    assert_eq!(got, build("0", "0"));
}

// schema @meta(tag: "secret") { query: Q }
#[test]
fn schema_directive_argument_redacted() {
    let build = |tag: &str| {
        doc(vec![Definition::SchemaDefinition(SchemaDefinition {
            description: None,
            directives: vec![directive("meta", "tag", string(tag))],
            root_operations: vec![(OperationType::Query, s("Q"))],
        })])
    };
    let got = strip_sensitive_literals(&build("secret"), StripOptions::default());
    // schema @meta(tag: "") { query: Q }
    assert_eq!(got, build(""));
}

// input I { x: [Int] = [1, 2, 3] }
#[test]
fn input_default_list_emptied_when_hidden() {
    let opts = StripOptions::builder().hide_list_and_object_literals(true).build();
    let build = |items: Vec<Value>| {
        doc(vec![Definition::InputObjectTypeDefinition(InputObjectTypeDefinition {
            description: None,
            name: s("I"),
            directives: vec![],
            fields: vec![input_value(
                "x",
                Type::List(Box::new(named("Int"))),
                Some(Value::List(items)),
            )],
        })])
    };
    let got = strip_sensitive_literals(&build(vec![int_value("1"), int_value("2"), int_value("3")]), opts);
    // input I { x: [Int] = [] }
    assert_eq!(got, build(vec![]));
}
