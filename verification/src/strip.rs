//! The redaction walk over a GraphQL document AST.
//!
//! Each function reads a node and builds its redacted copy, so the caller's
//! document is never touched. The contract of each is the matching function
//! of [`crate::redact`] applied to the node's view.

use vstd::prelude::*;

use crate::ast::{
    arguments_view, definitions_view, directives_view, enum_values_view, field_definitions_view,
    input_values_view, object_fields_view, selections_view, text_opt_view, value_opt_view,
    values_view, variables_view, Argument, Definition, Directive, DirectiveDefinition, Document,
    EnumTypeDefinition, EnumTypeExtension, EnumValueDefinition, Field, FieldDefinition,
    FragmentDefinition, FragmentSpread, InlineFragment, InputObjectTypeDefinition,
    InputObjectTypeExtension, InputValueDefinition, InterfaceTypeDefinition,
    InterfaceTypeExtension, ObjectTypeDefinition, ObjectTypeExtension, OperationDefinition,
    ScalarTypeDefinition, ScalarTypeExtension, SchemaDefinition, SchemaExtension, Selection,
    UnionTypeDefinition, UnionTypeExtension, Value, VariableDefinition,
};
use crate::model::SpecValue;
use crate::copy::{copy_locations, copy_root_operations, copy_text_opt, copy_texts, copy_type};
use crate::options::StripOptions;
use crate::redact::{
    redact_argument, redact_arguments, redact_definition, redact_definitions, redact_description,
    redact_directive, redact_directive_definition, redact_directives, redact_document,
    redact_enum_type, redact_enum_type_extension, redact_enum_value_definition,
    redact_enum_value_definitions, redact_field, redact_field_definition,
    redact_field_definitions, redact_fragment, redact_inline_fragment, redact_input_object_type,
    redact_input_object_type_extension, redact_input_value_definition,
    redact_input_value_definitions, redact_interface_type, redact_interface_type_extension,
    redact_object_fields, redact_object_type, redact_object_type_extension, redact_operation,
    redact_selection, redact_selection_set, redact_value, redact_value_opt, redact_values,
    redact_variable_definition, redact_variable_definitions, zero_text,
};

verus! {

// ---------------------------------------------------------------------------
// Values

/// The text `0`, the placeholder for every number literal.
fn zero_literal() -> (s: String)
    ensures
        s@ == zero_text(),
{
    let s = "0".to_owned();
    proof {
        reveal_strlit("0");
    }
    assert(s@ =~= zero_text());
    s
}

/// Redact a single value.
///
/// Integers and floats become the literal `0`. Strings become the empty string.
/// With [`StripOptions::hide_list_and_object_literals`] set, lists and objects
/// are emptied and their old contents are dropped without recursion. Otherwise
/// the walk descends into list elements and object field values.
///
/// Booleans, nulls, enums, and variables are left as they are.
#[verifier::loop_isolation(false)]
fn strip_value(value: &Value, options: StripOptions) -> (out: Value)
    ensures
        out@ == redact_value(value@, options),
    decreases value,
{
    match value {
        // Both Int and Float collapse to the integer literal 0, so that a
        // float placeholder prints as `0`, not `0.0`.
        Value::Int(_) | Value::Float(_) => Value::Int(zero_literal()),
        Value::String(_) => {
            let s = String::new();
            Value::String(s)
        },
        Value::List(items) => {
            if options.hide_list_and_object_literals {
                let empty: Vec<Value> = Vec::new();
                assert(values_view(empty@) =~= Seq::<SpecValue>::empty());
                Value::List(empty)
            } else {
                let mut out: Vec<Value> = Vec::new();
                for i in 0..items.len()
                    invariant
                        out@.len() == i,
                        forall|j: int|
                            0 <= j < i ==> #[trigger] out@[j]@ == redact_value(items@[j]@, options),
                {
                    proof {
                        assert(decreases_to!(value => items@[i as int]));
                    }
                    out.push(strip_value(&items[i], options));
                }
                assert forall|j: int| 0 <= j < out@.len() implies #[trigger] values_view(out@)[j]
                    == redact_values(values_view(items@), options)[j] by {
                    assert(out@[j]@ == redact_value(items@[j]@, options));
                }
                assert(values_view(out@) =~= redact_values(values_view(items@), options));
                Value::List(out)
            }
        },
        Value::Object(fields) => {
            if options.hide_list_and_object_literals {
                let empty: Vec<(String, Value)> = Vec::new();
                assert(object_fields_view(empty@) =~= Seq::<(Seq<char>, SpecValue)>::empty());
                Value::Object(empty)
            } else {
                let mut out: Vec<(String, Value)> = Vec::new();
                for i in 0..fields.len()
                    invariant
                        out@.len() == i,
                        forall|j: int|
                            #![trigger out@[j]]
                            0 <= j < i ==> out@[j].0@ == fields@[j].0@ && out@[j].1@
                                == redact_value(fields@[j].1@, options),
                {
                    proof {
                        assert(decreases_to!(value => fields@[i as int].1));
                    }
                    let (name, field_value) = &fields[i];
                    out.push((name.clone(), strip_value(field_value, options)));
                }
                assert forall|j: int| 0 <= j < out@.len() implies #[trigger] object_fields_view(
                    out@,
                )[j] == redact_object_fields(object_fields_view(fields@), options)[j] by {
                    assert(out@[j].1@ == redact_value(fields@[j].1@, options));
                }
                assert(object_fields_view(out@) =~= redact_object_fields(
                    object_fields_view(fields@),
                    options,
                ));
                Value::Object(out)
            }
        },
        Value::Boolean(b) => Value::Boolean(*b),
        Value::Null => Value::Null,
        Value::Enum(n) => Value::Enum(n.clone()),
        Value::Variable(n) => Value::Variable(n.clone()),
    }
}

fn strip_value_opt(value: &Option<Value>, options: StripOptions) -> (out: Option<Value>)
    ensures
        value_opt_view(out) == redact_value_opt(value_opt_view(*value), options),
{
    match value {
        Some(v) => Some(strip_value(v, options)),
        None => None,
    }
}

fn strip_description(description: &Option<String>) -> (out: Option<String>)
    ensures
        text_opt_view(out) == redact_description(text_opt_view(*description)),
{
    match description {
        Some(_) => {
            let s = String::new();
            assert(s@ =~= Seq::<char>::empty());
            Some(s)
        },
        None => None,
    }
}

fn strip_arguments(arguments: &Vec<Argument>, options: StripOptions) -> (out: Vec<Argument>)
    ensures
        arguments_view(out@) == redact_arguments(arguments_view(arguments@), options),
{
    let mut out: Vec<Argument> = Vec::new();
    for i in 0..arguments.len()
        invariant
            out@.len() == i,
            forall|j: int|
                0 <= j < i ==> #[trigger] out@[j]@ == redact_argument(arguments@[j]@, options),
    {
        let argument = &arguments[i];
        out.push(Argument { name: argument.name.clone(), value: strip_value(&argument.value, options) });
    }
    assert(arguments_view(out@) =~= redact_arguments(arguments_view(arguments@), options));
    out
}

fn strip_directives(directives: &Vec<Directive>, options: StripOptions) -> (out: Vec<Directive>)
    ensures
        directives_view(out@) == redact_directives(directives_view(directives@), options),
{
    let mut out: Vec<Directive> = Vec::new();
    for i in 0..directives.len()
        invariant
            out@.len() == i,
            forall|j: int|
                0 <= j < i ==> #[trigger] out@[j]@ == redact_directive(directives@[j]@, options),
    {
        let directive = &directives[i];
        out.push(
            Directive {
                name: directive.name.clone(),
                arguments: strip_arguments(&directive.arguments, options),
            },
        );
    }
    assert(directives_view(out@) =~= redact_directives(directives_view(directives@), options));
    out
}

fn strip_variable_definition(var: &VariableDefinition, options: StripOptions) -> (out:
    VariableDefinition)
    ensures
        out@ == redact_variable_definition(var@, options),
{
    VariableDefinition {
        name: var.name.clone(),
        ty: copy_type(&var.ty),
        default_value: strip_value_opt(&var.default_value, options),
        directives: strip_directives(&var.directives, options),
    }
}

fn strip_variable_definitions(
    variables: &Vec<VariableDefinition>,
    options: StripOptions,
) -> (out: Vec<VariableDefinition>)
    ensures
        variables_view(out@) == redact_variable_definitions(variables_view(variables@), options),
{
    let mut out: Vec<VariableDefinition> = Vec::new();
    for i in 0..variables.len()
        invariant
            out@.len() == i,
            forall|j: int|
                0 <= j < i ==> #[trigger] out@[j]@ == redact_variable_definition(
                    variables@[j]@,
                    options,
                ),
    {
        out.push(strip_variable_definition(&variables[i], options));
    }
    assert(variables_view(out@) =~= redact_variable_definitions(variables_view(variables@), options));
    out
}

fn strip_input_value_definition(value: &InputValueDefinition, options: StripOptions) -> (out:
    InputValueDefinition)
    ensures
        out@ == redact_input_value_definition(value@, options),
{
    InputValueDefinition {
        description: strip_description(&value.description),
        name: value.name.clone(),
        ty: copy_type(&value.ty),
        default_value: strip_value_opt(&value.default_value, options),
        directives: strip_directives(&value.directives, options),
    }
}

fn strip_input_value_definitions(
    values: &Vec<InputValueDefinition>,
    options: StripOptions,
) -> (out: Vec<InputValueDefinition>)
    ensures
        input_values_view(out@) == redact_input_value_definitions(input_values_view(values@), options),
{
    let mut out: Vec<InputValueDefinition> = Vec::new();
    for i in 0..values.len()
        invariant
            out@.len() == i,
            forall|j: int|
                0 <= j < i ==> #[trigger] out@[j]@ == redact_input_value_definition(
                    values@[j]@,
                    options,
                ),
    {
        out.push(strip_input_value_definition(&values[i], options));
    }
    assert(input_values_view(out@) =~= redact_input_value_definitions(
        input_values_view(values@),
        options,
    ));
    out
}

fn strip_field_definitions(fields: &Vec<FieldDefinition>, options: StripOptions) -> (out: Vec<
    FieldDefinition,
>)
    ensures
        field_definitions_view(out@) == redact_field_definitions(
            field_definitions_view(fields@),
            options,
        ),
{
    let mut out: Vec<FieldDefinition> = Vec::new();
    for i in 0..fields.len()
        invariant
            out@.len() == i,
            forall|j: int|
                0 <= j < i ==> #[trigger] out@[j]@ == redact_field_definition(fields@[j]@, options),
    {
        let field = &fields[i];
        out.push(
            FieldDefinition {
                description: strip_description(&field.description),
                name: field.name.clone(),
                arguments: strip_input_value_definitions(&field.arguments, options),
                ty: copy_type(&field.ty),
                directives: strip_directives(&field.directives, options),
            },
        );
    }
    assert(field_definitions_view(out@) =~= redact_field_definitions(
        field_definitions_view(fields@),
        options,
    ));
    out
}

fn strip_enum_values(values: &Vec<EnumValueDefinition>, options: StripOptions) -> (out: Vec<
    EnumValueDefinition,
>)
    ensures
        enum_values_view(out@) == redact_enum_value_definitions(enum_values_view(values@), options),
{
    let mut out: Vec<EnumValueDefinition> = Vec::new();
    for i in 0..values.len()
        invariant
            out@.len() == i,
            forall|j: int|
                0 <= j < i ==> #[trigger] out@[j]@ == redact_enum_value_definition(
                    values@[j]@,
                    options,
                ),
    {
        let value = &values[i];
        out.push(
            EnumValueDefinition {
                description: strip_description(&value.description),
                value: value.value.clone(),
                directives: strip_directives(&value.directives, options),
            },
        );
    }
    assert(enum_values_view(out@) =~= redact_enum_value_definitions(enum_values_view(values@), options));
    out
}

// ---------------------------------------------------------------------------
// Selections

#[verifier::loop_isolation(false)]
fn strip_selection_set(set: &Vec<Selection>, options: StripOptions) -> (out: Vec<Selection>)
    ensures
        selections_view(out@) == redact_selection_set(selections_view(set@), options),
    decreases set,
{
    let mut out: Vec<Selection> = Vec::new();
    for i in 0..set.len()
        invariant
            out@.len() == i,
            forall|j: int| 0 <= j < i ==> #[trigger] out@[j]@ == redact_selection(set@[j]@, options),
    {
        let selection = &set[i];
        proof {
            assert(decreases_to!(set => set@[i as int]));
        }
        let stripped = match selection {
            Selection::Field(field) => Selection::Field(strip_field(field, options)),
            Selection::InlineFragment(fragment) => Selection::InlineFragment(
                strip_inline_fragment(fragment, options),
            ),
            Selection::FragmentSpread(spread) => Selection::FragmentSpread(
                FragmentSpread {
                    fragment_name: spread.fragment_name.clone(),
                    directives: strip_directives(&spread.directives, options),
                },
            ),
        };
        out.push(stripped);
    }
    assert forall|j: int| 0 <= j < out@.len() implies #[trigger] selections_view(out@)[j]
        == redact_selection_set(selections_view(set@), options)[j] by {
        assert(out@[j]@ == redact_selection(set@[j]@, options));
    }
    assert(selections_view(out@) =~= redact_selection_set(selections_view(set@), options));
    out
}

fn strip_field(field: &Field, options: StripOptions) -> (out: Field)
    ensures
        out@ == redact_field(field@, options),
    decreases field,
{
    Field {
        alias: copy_text_opt(&field.alias),
        name: field.name.clone(),
        arguments: strip_arguments(&field.arguments, options),
        directives: strip_directives(&field.directives, options),
        selection_set: strip_selection_set(&field.selection_set, options),
    }
}

fn strip_inline_fragment(fragment: &InlineFragment, options: StripOptions) -> (out:
    InlineFragment)
    ensures
        out@ == redact_inline_fragment(fragment@, options),
    decreases fragment,
{
    InlineFragment {
        type_condition: copy_text_opt(&fragment.type_condition),
        directives: strip_directives(&fragment.directives, options),
        selection_set: strip_selection_set(&fragment.selection_set, options),
    }
}

// ---------------------------------------------------------------------------
// Definitions

fn strip_operation(op: &OperationDefinition, options: StripOptions) -> (out: OperationDefinition)
    ensures
        out@ == redact_operation(op@, options),
{
    OperationDefinition {
        operation_type: op.operation_type,
        name: copy_text_opt(&op.name),
        variables: strip_variable_definitions(&op.variables, options),
        directives: strip_directives(&op.directives, options),
        selection_set: strip_selection_set(&op.selection_set, options),
    }
}

fn strip_fragment(frag: &FragmentDefinition, options: StripOptions) -> (out: FragmentDefinition)
    ensures
        out@ == redact_fragment(frag@, options),
{
    FragmentDefinition {
        name: frag.name.clone(),
        type_condition: frag.type_condition.clone(),
        directives: strip_directives(&frag.directives, options),
        selection_set: strip_selection_set(&frag.selection_set, options),
    }
}

fn strip_directive_definition(def: &DirectiveDefinition, options: StripOptions) -> (out:
    DirectiveDefinition)
    ensures
        out@ == redact_directive_definition(def@, options),
{
    DirectiveDefinition {
        description: strip_description(&def.description),
        name: def.name.clone(),
        arguments: strip_input_value_definitions(&def.arguments, options),
        repeatable: def.repeatable,
        locations: copy_locations(&def.locations),
    }
}

fn strip_object_type(def: &ObjectTypeDefinition, options: StripOptions) -> (out:
    ObjectTypeDefinition)
    ensures
        out@ == redact_object_type(def@, options),
{
    ObjectTypeDefinition {
        description: strip_description(&def.description),
        name: def.name.clone(),
        implements_interfaces: copy_texts(&def.implements_interfaces),
        directives: strip_directives(&def.directives, options),
        fields: strip_field_definitions(&def.fields, options),
    }
}

fn strip_object_type_extension(def: &ObjectTypeExtension, options: StripOptions) -> (out:
    ObjectTypeExtension)
    ensures
        out@ == redact_object_type_extension(def@, options),
{
    ObjectTypeExtension {
        name: def.name.clone(),
        implements_interfaces: copy_texts(&def.implements_interfaces),
        directives: strip_directives(&def.directives, options),
        fields: strip_field_definitions(&def.fields, options),
    }
}

fn strip_interface_type(def: &InterfaceTypeDefinition, options: StripOptions) -> (out:
    InterfaceTypeDefinition)
    ensures
        out@ == redact_interface_type(def@, options),
{
    InterfaceTypeDefinition {
        description: strip_description(&def.description),
        name: def.name.clone(),
        implements_interfaces: copy_texts(&def.implements_interfaces),
        directives: strip_directives(&def.directives, options),
        fields: strip_field_definitions(&def.fields, options),
    }
}

fn strip_interface_type_extension(def: &InterfaceTypeExtension, options: StripOptions) -> (out:
    InterfaceTypeExtension)
    ensures
        out@ == redact_interface_type_extension(def@, options),
{
    InterfaceTypeExtension {
        name: def.name.clone(),
        implements_interfaces: copy_texts(&def.implements_interfaces),
        directives: strip_directives(&def.directives, options),
        fields: strip_field_definitions(&def.fields, options),
    }
}

fn strip_enum_type(def: &EnumTypeDefinition, options: StripOptions) -> (out: EnumTypeDefinition)
    ensures
        out@ == redact_enum_type(def@, options),
{
    EnumTypeDefinition {
        description: strip_description(&def.description),
        name: def.name.clone(),
        directives: strip_directives(&def.directives, options),
        values: strip_enum_values(&def.values, options),
    }
}

fn strip_enum_type_extension(def: &EnumTypeExtension, options: StripOptions) -> (out:
    EnumTypeExtension)
    ensures
        out@ == redact_enum_type_extension(def@, options),
{
    EnumTypeExtension {
        name: def.name.clone(),
        directives: strip_directives(&def.directives, options),
        values: strip_enum_values(&def.values, options),
    }
}

fn strip_input_object_type(def: &InputObjectTypeDefinition, options: StripOptions) -> (out:
    InputObjectTypeDefinition)
    ensures
        out@ == redact_input_object_type(def@, options),
{
    InputObjectTypeDefinition {
        description: strip_description(&def.description),
        name: def.name.clone(),
        directives: strip_directives(&def.directives, options),
        fields: strip_input_value_definitions(&def.fields, options),
    }
}

fn strip_input_object_type_extension(
    def: &InputObjectTypeExtension,
    options: StripOptions,
) -> (out: InputObjectTypeExtension)
    ensures
        out@ == redact_input_object_type_extension(def@, options),
{
    InputObjectTypeExtension {
        name: def.name.clone(),
        directives: strip_directives(&def.directives, options),
        fields: strip_input_value_definitions(&def.fields, options),
    }
}

fn strip_definition(def: &Definition, options: StripOptions) -> (out: Definition)
    ensures
        out@ == redact_definition(def@, options),
{
    match def {
        Definition::OperationDefinition(node) => Definition::OperationDefinition(
            strip_operation(node, options),
        ),
        Definition::FragmentDefinition(node) => Definition::FragmentDefinition(
            strip_fragment(node, options),
        ),
        Definition::DirectiveDefinition(node) => Definition::DirectiveDefinition(
            strip_directive_definition(node, options),
        ),
        Definition::SchemaDefinition(node) => Definition::SchemaDefinition(
            SchemaDefinition {
                description: strip_description(&node.description),
                directives: strip_directives(&node.directives, options),
                root_operations: copy_root_operations(&node.root_operations),
            },
        ),
        Definition::SchemaExtension(node) => Definition::SchemaExtension(
            SchemaExtension {
                directives: strip_directives(&node.directives, options),
                root_operations: copy_root_operations(&node.root_operations),
            },
        ),
        Definition::ScalarTypeDefinition(node) => Definition::ScalarTypeDefinition(
            ScalarTypeDefinition {
                description: strip_description(&node.description),
                name: node.name.clone(),
                directives: strip_directives(&node.directives, options),
            },
        ),
        Definition::ScalarTypeExtension(node) => Definition::ScalarTypeExtension(
            ScalarTypeExtension {
                name: node.name.clone(),
                directives: strip_directives(&node.directives, options),
            },
        ),
        Definition::ObjectTypeDefinition(node) => Definition::ObjectTypeDefinition(
            strip_object_type(node, options),
        ),
        Definition::ObjectTypeExtension(node) => Definition::ObjectTypeExtension(
            strip_object_type_extension(node, options),
        ),
        Definition::InterfaceTypeDefinition(node) => Definition::InterfaceTypeDefinition(
            strip_interface_type(node, options),
        ),
        Definition::InterfaceTypeExtension(node) => Definition::InterfaceTypeExtension(
            strip_interface_type_extension(node, options),
        ),
        Definition::UnionTypeDefinition(node) => Definition::UnionTypeDefinition(
            UnionTypeDefinition {
                description: strip_description(&node.description),
                name: node.name.clone(),
                directives: strip_directives(&node.directives, options),
                members: copy_texts(&node.members),
            },
        ),
        Definition::UnionTypeExtension(node) => Definition::UnionTypeExtension(
            UnionTypeExtension {
                name: node.name.clone(),
                directives: strip_directives(&node.directives, options),
                members: copy_texts(&node.members),
            },
        ),
        Definition::EnumTypeDefinition(node) => Definition::EnumTypeDefinition(
            strip_enum_type(node, options),
        ),
        Definition::EnumTypeExtension(node) => Definition::EnumTypeExtension(
            strip_enum_type_extension(node, options),
        ),
        Definition::InputObjectTypeDefinition(node) => Definition::InputObjectTypeDefinition(
            strip_input_object_type(node, options),
        ),
        Definition::InputObjectTypeExtension(node) => Definition::InputObjectTypeExtension(
            strip_input_object_type_extension(node, options),
        ),
    }
}

/// Return a redacted copy of `ast`; the caller's document is untouched.
pub(crate) fn strip(ast: &Document, options: StripOptions) -> (out: Document)
    ensures
        out@ == redact_document(ast@, options),
{
    let mut definitions: Vec<Definition> = Vec::new();
    for i in 0..ast.definitions.len()
        invariant
            definitions@.len() == i,
            forall|j: int|
                0 <= j < i ==> #[trigger] definitions@[j]@ == redact_definition(
                    ast.definitions@[j]@,
                    options,
                ),
    {
        definitions.push(strip_definition(&ast.definitions[i], options));
    }
    assert(definitions_view(definitions@) =~= redact_definitions(
        definitions_view(ast.definitions@),
        options,
    ));
    Document { definitions }
}

} // verus!
