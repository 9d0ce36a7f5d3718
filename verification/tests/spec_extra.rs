//! Edge cases: the "do not strip" contract for booleans, nulls, and enums,
//! the numeric collapse to `0`, block strings, nesting, and that the input is
//! never mutated. Each document is written out as the AST that parsing its
//! GraphQL source gives; the source is quoted above each test.

use graphql_strip_sensitive_literals::ast::{
    Argument, Definition, Directive, Document, Field, OperationDefinition, OperationType,
    Selection, Type, Value, VariableDefinition,
};
use graphql_strip_sensitive_literals::{strip_sensitive_literals, StripOptions};

fn default() -> StripOptions {
    StripOptions::default()
}

fn hiding() -> StripOptions {
    StripOptions::builder().hide_list_and_object_literals(true).build()
}

fn s(text: &str) -> String {
    text.to_string()
}

fn arg(name: &str, value: Value) -> Argument {
    Argument { name: s(name), value }
}

fn field(name: &str, arguments: Vec<Argument>, directives: Vec<Directive>) -> Selection {
    Selection::Field(Field {
        alias: None,
        name: s(name),
        arguments,
        directives,
        selection_set: vec![],
    })
}

fn operation(
    operation_type: OperationType,
    name: Option<&str>,
    variables: Vec<VariableDefinition>,
    selection_set: Vec<Selection>,
) -> Document {
    Document {
        definitions: vec![Definition::OperationDefinition(OperationDefinition {
            operation_type,
            name: name.map(s),
            variables,
            directives: vec![],
            selection_set,
        })],
    }
}

/// `{ f(<arguments>) }`
fn query_f(arguments: Vec<Argument>) -> Document {
    operation(OperationType::Query, None, vec![], vec![field("f", arguments, vec![])])
}

fn int_value(text: &str) -> Value {
    Value::Int(s(text))
}

fn string(text: &str) -> Value {
    Value::String(s(text))
}

/// The first selection of the first operation.
fn first_field(doc: &Document) -> &Field {
    let Definition::OperationDefinition(op) = &doc.definitions[0] else {
        panic!("expected operation");
    };
    let Selection::Field(field) = &op.selection_set[0] else {
        panic!("expected field");
    };
    field
}

fn assert_arguments(doc: &Document, opts: StripOptions, expected: Vec<Argument>) {
    let got = strip_sensitive_literals(doc, opts);
    assert_eq!(first_field(&got).arguments, expected, "got `{got:?}`");
}

// { f(flag: true, off: false) }
#[test]
fn bool_literal_kept() {
    assert_arguments(
        &query_f(vec![arg("flag", Value::Boolean(true)), arg("off", Value::Boolean(false))]),
        default(),
        vec![arg("flag", Value::Boolean(true)), arg("off", Value::Boolean(false))],
    );
}

// { f(x: null) }
#[test]
fn null_literal_kept() {
    assert_arguments(&query_f(vec![arg("x", Value::Null)]), default(), vec![arg("x", Value::Null)]);
}

// { f(dir: NORTH) }
#[test]
fn enum_literal_kept() {
    assert_arguments(
        &query_f(vec![arg("dir", Value::Enum(s("NORTH")))]),
        default(),
        vec![arg("dir", Value::Enum(s("NORTH")))],
    );
}

// { f(n: -3) }
#[test]
fn negative_int_to_zero() {
    assert_arguments(&query_f(vec![arg("n", int_value("-3"))]), default(), vec![arg("n", int_value("0"))]);
}

// { f(n: 9999999999) }
#[test]
fn big_int_to_zero() {
    assert_arguments(
        &query_f(vec![arg("n", int_value("9999999999"))]),
        default(),
        vec![arg("n", int_value("0"))],
    );
}

// { f(n: 1.5e10) }
#[test]
fn exponent_float_to_zero() {
    // Must come out as the integer `0`, never a float such as `0.0`.
    let got = strip_sensitive_literals(&query_f(vec![arg("n", Value::Float(s("1.5e10")))]), default());
    assert_eq!(first_field(&got).arguments, vec![arg("n", int_value("0"))]);
    assert!(!format!("{got:?}").contains("Float"), "got `{got:?}`");
}

// { f(n: 0.4) }
#[test]
fn plain_float_to_zero() {
    let got = strip_sensitive_literals(&query_f(vec![arg("n", Value::Float(s("0.4")))]), default());
    assert_eq!(first_field(&got).arguments, vec![arg("n", int_value("0"))]);
    assert!(!format!("{got:?}").contains("0.0"), "got `{got:?}`");
}

// { f(s: """hi""") }
#[test]
fn block_string_to_empty() {
    // A block string's value is its text; it becomes a normal empty string.
    let got = strip_sensitive_literals(&query_f(vec![arg("s", string("hi"))]), default());
    assert_eq!(first_field(&got).arguments, vec![arg("s", string(""))]);
    assert!(!format!("{got:?}").contains("hi"), "got `{got:?}`");
}

// { f(s: "héllo \n 🎉") }
#[test]
fn unicode_and_escaped_string_to_empty() {
    // Redaction replaces the whole value, so multibyte text and escape
    // sequences must collapse to the empty string with nothing left behind.
    let got =
        strip_sensitive_literals(&query_f(vec![arg("s", string("héllo \n 🎉"))]), default());
    assert_eq!(first_field(&got).arguments, vec![arg("s", string(""))]);
    let printed = format!("{got:?}");
    assert!(!printed.contains("héllo"), "got `{printed}`");
    assert!(!printed.contains('🎉'), "got `{printed}`");
}

// { f(l: [{a: 1}, {b: 2}]) }
#[test]
fn nested_list_of_objects_hide_true() {
    assert_arguments(
        &query_f(vec![arg(
            "l",
            Value::List(vec![
                Value::Object(vec![(s("a"), int_value("1"))]),
                Value::Object(vec![(s("b"), int_value("2"))]),
            ]),
        )]),
        hiding(),
        vec![arg("l", Value::List(vec![]))],
    );
}

// { f(o: {a: {b: 1}}) }
#[test]
fn nested_object_default_keeps_structure() {
    assert_arguments(
        &query_f(vec![arg(
            "o",
            Value::Object(vec![(s("a"), Value::Object(vec![(s("b"), int_value("1"))]))]),
        )]),
        default(),
        vec![arg("o", Value::Object(vec![(s("a"), Value::Object(vec![(s("b"), int_value("0"))]))]))],
    );
}

// { f(l: ["x", 2, 3.5]) }
#[test]
fn nested_list_default_redacts_inner_scalars() {
    assert_arguments(
        &query_f(vec![arg(
            "l",
            Value::List(vec![string("x"), int_value("2"), Value::Float(s("3.5"))]),
        )]),
        default(),
        vec![arg("l", Value::List(vec![string(""), int_value("0"), int_value("0")]))],
    );
}

// mutation M { set(v: "x", n: 1) }
#[test]
fn mutation_op_covered() {
    let doc = operation(
        OperationType::Mutation,
        Some("M"),
        vec![],
        vec![field("set", vec![arg("v", string("x")), arg("n", int_value("1"))], vec![])],
    );
    let got = strip_sensitive_literals(&doc, default());
    let expected = operation(
        OperationType::Mutation,
        Some("M"),
        vec![],
        vec![field("set", vec![arg("v", string("")), arg("n", int_value("0"))], vec![])],
    );
    assert_eq!(got, expected);
}

// subscription S { watch(id: "abc") }
#[test]
fn subscription_op_covered() {
    let doc = operation(
        OperationType::Subscription,
        Some("S"),
        vec![],
        vec![field("watch", vec![arg("id", string("abc"))], vec![])],
    );
    let got = strip_sensitive_literals(&doc, default());
    let expected = operation(
        OperationType::Subscription,
        Some("S"),
        vec![],
        vec![field("watch", vec![arg("id", string(""))], vec![])],
    );
    assert_eq!(got, expected);
}

// { f(l: [], o: {}) }
#[test]
fn empty_object_list_idempotent_default() {
    assert_arguments(
        &query_f(vec![arg("l", Value::List(vec![])), arg("o", Value::Object(vec![]))]),
        default(),
        vec![arg("l", Value::List(vec![])), arg("o", Value::Object(vec![]))],
    );
}

// { a b c }
#[test]
fn no_literals_unchanged() {
    let build = || {
        operation(
            OperationType::Query,
            None,
            vec![],
            vec![field("a", vec![], vec![]), field("b", vec![], vec![]), field("c", vec![], vec![])],
        )
    };
    assert_eq!(strip_sensitive_literals(&build(), default()), build());
}

// query ($v: Int) { f(a: $v, b: 1) }
#[test]
fn mixed_with_variables() {
    // A variable reference is kept, the int next to it is stripped.
    let build = |b: &str| {
        operation(
            OperationType::Query,
            None,
            vec![VariableDefinition {
                name: s("v"),
                ty: Type::Named(s("Int")),
                default_value: None,
                directives: vec![],
            }],
            vec![field("f", vec![arg("a", Value::Variable(s("v"))), arg("b", int_value(b))], vec![])],
        )
    };
    assert_eq!(strip_sensitive_literals(&build("1"), default()), build("0"));
}

// query ($v: Int = 5) { f(a: $v) }
#[test]
fn variable_default_value_is_stripped() {
    // The walk reaches default values too. A default int collapses to 0.
    let build = |default_value: &str| {
        operation(
            OperationType::Query,
            None,
            vec![VariableDefinition {
                name: s("v"),
                ty: Type::Named(s("Int")),
                default_value: Some(int_value(default_value)),
                directives: vec![],
            }],
            vec![field("f", vec![arg("a", Value::Variable(s("v")))], vec![])],
        )
    };
    let got = strip_sensitive_literals(&build("5"), default());
    let Definition::OperationDefinition(op) = &got.definitions[0] else {
        panic!("expected operation");
    };
    assert_eq!(op.variables[0].default_value, Some(int_value("0")));
    assert_eq!(got, build("0"));
}

// { f @tag(note: "secret") }
#[test]
fn directive_argument_stripped() {
    let build = |note: &str| {
        operation(
            OperationType::Query,
            None,
            vec![],
            vec![field(
                "f",
                vec![],
                vec![Directive { name: s("tag"), arguments: vec![arg("note", string(note))] }],
            )],
        )
    };
    let got = strip_sensitive_literals(&build("secret"), default());
    assert_eq!(first_field(&got).directives[0].arguments, vec![arg("note", string(""))]);
    assert_eq!(got, build(""));
}

// { user(name: "Ada", age: 36) { id } }
#[test]
fn input_not_mutated() {
    let doc = operation(
        OperationType::Query,
        None,
        vec![],
        vec![Selection::Field(Field {
            alias: None,
            name: s("user"),
            arguments: vec![arg("name", string("Ada")), arg("age", int_value("36"))],
            directives: vec![],
            selection_set: vec![field("id", vec![], vec![])],
        })],
    );

    let _ = strip_sensitive_literals(&doc, default());

    // The source document still holds its original literals.
    let printed = format!("{doc:?}");
    assert!(printed.contains("\"Ada\""), "got `{printed}`");
    assert!(printed.contains("\"36\""), "got `{printed}`");
    assert_eq!(first_field(&doc).arguments, vec![arg("name", string("Ada")), arg("age", int_value("36"))]);
}
