//! What redaction does to each node of a document, stated over the model.
//!
//! Integers and floats become the integer `0`, strings become the empty
//! string, and descriptions become empty. With
//! `hide_list_and_object_literals` set, lists become `[]` and objects `{}`;
//! otherwise their items and field values are redacted in place. Everything
//! else (names, aliases, types, booleans, nulls, enums, variables, the shape
//! of selections and definitions) is kept.

use vstd::prelude::*;

use crate::model::{
    SpecArgument, SpecDefinition, SpecDirective, SpecDirectiveDefinition, SpecDocument,
    SpecEnumTypeDefinition, SpecEnumTypeExtension, SpecEnumValueDefinition, SpecField,
    SpecFieldDefinition, SpecFragmentDefinition, SpecFragmentSpread, SpecInlineFragment,
    SpecInputObjectTypeDefinition, SpecInputObjectTypeExtension, SpecInputValueDefinition,
    SpecInterfaceTypeDefinition, SpecInterfaceTypeExtension, SpecObjectTypeDefinition,
    SpecObjectTypeExtension, SpecOperationDefinition, SpecScalarTypeDefinition,
    SpecScalarTypeExtension, SpecSchemaDefinition, SpecSchemaExtension, SpecSelection,
    SpecUnionTypeDefinition, SpecUnionTypeExtension, SpecValue, SpecVariableDefinition, Text,
};
use crate::options::StripOptions;

verus! {

/// The text of the placeholder that every number literal becomes.
pub open spec fn zero_text() -> Text {
    seq!['0']
}

/// A redacted value.
pub open spec fn redact_value(v: SpecValue, options: StripOptions) -> SpecValue
    decreases v,
{
    match v {
        SpecValue::Int(_) => SpecValue::Int(zero_text()),
        SpecValue::Float(_) => SpecValue::Int(zero_text()),
        SpecValue::String(_) => SpecValue::String(Seq::empty()),
        SpecValue::List(items) => {
            if options.hide_list_and_object_literals {
                SpecValue::List(Seq::empty())
            } else {
                SpecValue::List(redact_values(items, options))
            }
        },
        SpecValue::Object(fields) => {
            if options.hide_list_and_object_literals {
                SpecValue::Object(Seq::empty())
            } else {
                SpecValue::Object(redact_object_fields(fields, options))
            }
        },
        _ => v,
    }
}

/// The items of a list value, each redacted.
pub open spec fn redact_values(s: Seq<SpecValue>, options: StripOptions) -> Seq<SpecValue>
    decreases s,
{
    Seq::new(
        s.len(),
        |i: int| if 0 <= i < s.len() { redact_value(s[i], options) } else { SpecValue::Null },
    )
}

/// The fields of an object value: the same names, each value redacted.
pub open spec fn redact_object_fields(s: Seq<(Text, SpecValue)>, options: StripOptions) -> Seq<
    (Text, SpecValue),
>
    decreases s,
{
    Seq::new(
        s.len(),
        |i: int|
            if 0 <= i < s.len() {
                (s[i].0, redact_value(s[i].1, options))
            } else {
                (Seq::empty(), SpecValue::Null)
            },
    )
}

/// A redacted optional value, such as a default value.
pub open spec fn redact_value_opt(v: Option<SpecValue>, options: StripOptions) -> Option<SpecValue> {
    match v {
        Some(v) => Some(redact_value(v, options)),
        None => None,
    }
}

/// A present description becomes empty; an absent one stays absent.
pub open spec fn redact_description(d: Option<Text>) -> Option<Text> {
    match d {
        Some(_) => Some(Seq::empty()),
        None => None,
    }
}

pub open spec fn redact_argument(a: SpecArgument, options: StripOptions) -> SpecArgument {
    SpecArgument { name: a.name, value: redact_value(a.value, options) }
}

pub open spec fn redact_arguments(s: Seq<SpecArgument>, options: StripOptions) -> Seq<SpecArgument> {
    s.map_values(|a: SpecArgument| redact_argument(a, options))
}

pub open spec fn redact_directive(d: SpecDirective, options: StripOptions) -> SpecDirective {
    SpecDirective { name: d.name, arguments: redact_arguments(d.arguments, options) }
}

pub open spec fn redact_directives(s: Seq<SpecDirective>, options: StripOptions) -> Seq<
    SpecDirective,
> {
    s.map_values(|d: SpecDirective| redact_directive(d, options))
}

pub open spec fn redact_variable_definition(
    v: SpecVariableDefinition,
    options: StripOptions,
) -> SpecVariableDefinition {
    SpecVariableDefinition {
        name: v.name,
        ty: v.ty,
        default_value: redact_value_opt(v.default_value, options),
        directives: redact_directives(v.directives, options),
    }
}

pub open spec fn redact_variable_definitions(
    s: Seq<SpecVariableDefinition>,
    options: StripOptions,
) -> Seq<SpecVariableDefinition> {
    s.map_values(|v: SpecVariableDefinition| redact_variable_definition(v, options))
}

pub open spec fn redact_input_value_definition(
    v: SpecInputValueDefinition,
    options: StripOptions,
) -> SpecInputValueDefinition {
    SpecInputValueDefinition {
        description: redact_description(v.description),
        name: v.name,
        ty: v.ty,
        default_value: redact_value_opt(v.default_value, options),
        directives: redact_directives(v.directives, options),
    }
}

pub open spec fn redact_input_value_definitions(
    s: Seq<SpecInputValueDefinition>,
    options: StripOptions,
) -> Seq<SpecInputValueDefinition> {
    s.map_values(|v: SpecInputValueDefinition| redact_input_value_definition(v, options))
}

pub open spec fn redact_field_definition(
    f: SpecFieldDefinition,
    options: StripOptions,
) -> SpecFieldDefinition {
    SpecFieldDefinition {
        description: redact_description(f.description),
        name: f.name,
        arguments: redact_input_value_definitions(f.arguments, options),
        ty: f.ty,
        directives: redact_directives(f.directives, options),
    }
}

pub open spec fn redact_field_definitions(
    s: Seq<SpecFieldDefinition>,
    options: StripOptions,
) -> Seq<SpecFieldDefinition> {
    s.map_values(|f: SpecFieldDefinition| redact_field_definition(f, options))
}

pub open spec fn redact_enum_value_definition(
    v: SpecEnumValueDefinition,
    options: StripOptions,
) -> SpecEnumValueDefinition {
    SpecEnumValueDefinition {
        description: redact_description(v.description),
        value: v.value,
        directives: redact_directives(v.directives, options),
    }
}

pub open spec fn redact_enum_value_definitions(
    s: Seq<SpecEnumValueDefinition>,
    options: StripOptions,
) -> Seq<SpecEnumValueDefinition> {
    s.map_values(|v: SpecEnumValueDefinition| redact_enum_value_definition(v, options))
}

pub open spec fn redact_selection(s: SpecSelection, options: StripOptions) -> SpecSelection
    decreases s,
{
    match s {
        SpecSelection::Field(f) => SpecSelection::Field(redact_field(f, options)),
        SpecSelection::FragmentSpread(f) => SpecSelection::FragmentSpread(
            SpecFragmentSpread {
                fragment_name: f.fragment_name,
                directives: redact_directives(f.directives, options),
            },
        ),
        SpecSelection::InlineFragment(f) => SpecSelection::InlineFragment(
            redact_inline_fragment(f, options),
        ),
    }
}

pub open spec fn redact_selection_set(s: Seq<SpecSelection>, options: StripOptions) -> Seq<
    SpecSelection,
>
    decreases s,
{
    Seq::new(
        s.len(),
        |i: int|
            if 0 <= i < s.len() {
                redact_selection(s[i], options)
            } else {
                SpecSelection::FragmentSpread(
                    SpecFragmentSpread { fragment_name: Seq::empty(), directives: Seq::empty() },
                )
            },
    )
}

pub open spec fn redact_field(f: SpecField, options: StripOptions) -> SpecField
    decreases f,
{
    SpecField {
        alias: f.alias,
        name: f.name,
        arguments: redact_arguments(f.arguments, options),
        directives: redact_directives(f.directives, options),
        selection_set: redact_selection_set(f.selection_set, options),
    }
}

pub open spec fn redact_inline_fragment(f: SpecInlineFragment, options: StripOptions) -> SpecInlineFragment
    decreases f,
{
    SpecInlineFragment {
        type_condition: f.type_condition,
        directives: redact_directives(f.directives, options),
        selection_set: redact_selection_set(f.selection_set, options),
    }
}

pub open spec fn redact_operation(
    op: SpecOperationDefinition,
    options: StripOptions,
) -> SpecOperationDefinition {
    SpecOperationDefinition {
        operation_type: op.operation_type,
        name: op.name,
        variables: redact_variable_definitions(op.variables, options),
        directives: redact_directives(op.directives, options),
        selection_set: redact_selection_set(op.selection_set, options),
    }
}

pub open spec fn redact_fragment(
    f: SpecFragmentDefinition,
    options: StripOptions,
) -> SpecFragmentDefinition {
    SpecFragmentDefinition {
        name: f.name,
        type_condition: f.type_condition,
        directives: redact_directives(f.directives, options),
        selection_set: redact_selection_set(f.selection_set, options),
    }
}

pub open spec fn redact_directive_definition(
    d: SpecDirectiveDefinition,
    options: StripOptions,
) -> SpecDirectiveDefinition {
    SpecDirectiveDefinition {
        description: redact_description(d.description),
        name: d.name,
        arguments: redact_input_value_definitions(d.arguments, options),
        repeatable: d.repeatable,
        locations: d.locations,
    }
}

pub open spec fn redact_schema_definition(
    d: SpecSchemaDefinition,
    options: StripOptions,
) -> SpecSchemaDefinition {
    SpecSchemaDefinition {
        description: redact_description(d.description),
        directives: redact_directives(d.directives, options),
        root_operations: d.root_operations,
    }
}

pub open spec fn redact_schema_extension(
    d: SpecSchemaExtension,
    options: StripOptions,
) -> SpecSchemaExtension {
    SpecSchemaExtension {
        directives: redact_directives(d.directives, options),
        root_operations: d.root_operations,
    }
}

pub open spec fn redact_scalar_type(
    d: SpecScalarTypeDefinition,
    options: StripOptions,
) -> SpecScalarTypeDefinition {
    SpecScalarTypeDefinition {
        description: redact_description(d.description),
        name: d.name,
        directives: redact_directives(d.directives, options),
    }
}

pub open spec fn redact_scalar_type_extension(
    d: SpecScalarTypeExtension,
    options: StripOptions,
) -> SpecScalarTypeExtension {
    SpecScalarTypeExtension { name: d.name, directives: redact_directives(d.directives, options) }
}

pub open spec fn redact_object_type(
    d: SpecObjectTypeDefinition,
    options: StripOptions,
) -> SpecObjectTypeDefinition {
    SpecObjectTypeDefinition {
        description: redact_description(d.description),
        name: d.name,
        implements_interfaces: d.implements_interfaces,
        directives: redact_directives(d.directives, options),
        fields: redact_field_definitions(d.fields, options),
    }
}

pub open spec fn redact_object_type_extension(
    d: SpecObjectTypeExtension,
    options: StripOptions,
) -> SpecObjectTypeExtension {
    SpecObjectTypeExtension {
        name: d.name,
        implements_interfaces: d.implements_interfaces,
        directives: redact_directives(d.directives, options),
        fields: redact_field_definitions(d.fields, options),
    }
}

pub open spec fn redact_interface_type(
    d: SpecInterfaceTypeDefinition,
    options: StripOptions,
) -> SpecInterfaceTypeDefinition {
    SpecInterfaceTypeDefinition {
        description: redact_description(d.description),
        name: d.name,
        implements_interfaces: d.implements_interfaces,
        directives: redact_directives(d.directives, options),
        fields: redact_field_definitions(d.fields, options),
    }
}

pub open spec fn redact_interface_type_extension(
    d: SpecInterfaceTypeExtension,
    options: StripOptions,
) -> SpecInterfaceTypeExtension {
    SpecInterfaceTypeExtension {
        name: d.name,
        implements_interfaces: d.implements_interfaces,
        directives: redact_directives(d.directives, options),
        fields: redact_field_definitions(d.fields, options),
    }
}

pub open spec fn redact_union_type(
    d: SpecUnionTypeDefinition,
    options: StripOptions,
) -> SpecUnionTypeDefinition {
    SpecUnionTypeDefinition {
        description: redact_description(d.description),
        name: d.name,
        directives: redact_directives(d.directives, options),
        members: d.members,
    }
}

pub open spec fn redact_union_type_extension(
    d: SpecUnionTypeExtension,
    options: StripOptions,
) -> SpecUnionTypeExtension {
    SpecUnionTypeExtension {
        name: d.name,
        directives: redact_directives(d.directives, options),
        members: d.members,
    }
}

pub open spec fn redact_enum_type(
    d: SpecEnumTypeDefinition,
    options: StripOptions,
) -> SpecEnumTypeDefinition {
    SpecEnumTypeDefinition {
        description: redact_description(d.description),
        name: d.name,
        directives: redact_directives(d.directives, options),
        values: redact_enum_value_definitions(d.values, options),
    }
}

pub open spec fn redact_enum_type_extension(
    d: SpecEnumTypeExtension,
    options: StripOptions,
) -> SpecEnumTypeExtension {
    SpecEnumTypeExtension {
        name: d.name,
        directives: redact_directives(d.directives, options),
        values: redact_enum_value_definitions(d.values, options),
    }
}

pub open spec fn redact_input_object_type(
    d: SpecInputObjectTypeDefinition,
    options: StripOptions,
) -> SpecInputObjectTypeDefinition {
    SpecInputObjectTypeDefinition {
        description: redact_description(d.description),
        name: d.name,
        directives: redact_directives(d.directives, options),
        fields: redact_input_value_definitions(d.fields, options),
    }
}

pub open spec fn redact_input_object_type_extension(
    d: SpecInputObjectTypeExtension,
    options: StripOptions,
) -> SpecInputObjectTypeExtension {
    SpecInputObjectTypeExtension {
        name: d.name,
        directives: redact_directives(d.directives, options),
        fields: redact_input_value_definitions(d.fields, options),
    }
}

/// A redacted definition: the same kind of definition, each part redacted.
pub open spec fn redact_definition(d: SpecDefinition, options: StripOptions) -> SpecDefinition {
    match d {
        SpecDefinition::OperationDefinition(x) => SpecDefinition::OperationDefinition(
            redact_operation(x, options),
        ),
        SpecDefinition::FragmentDefinition(x) => SpecDefinition::FragmentDefinition(
            redact_fragment(x, options),
        ),
        SpecDefinition::DirectiveDefinition(x) => SpecDefinition::DirectiveDefinition(
            redact_directive_definition(x, options),
        ),
        SpecDefinition::SchemaDefinition(x) => SpecDefinition::SchemaDefinition(
            redact_schema_definition(x, options),
        ),
        SpecDefinition::ScalarTypeDefinition(x) => SpecDefinition::ScalarTypeDefinition(
            redact_scalar_type(x, options),
        ),
        SpecDefinition::ObjectTypeDefinition(x) => SpecDefinition::ObjectTypeDefinition(
            redact_object_type(x, options),
        ),
        SpecDefinition::InterfaceTypeDefinition(x) => SpecDefinition::InterfaceTypeDefinition(
            redact_interface_type(x, options),
        ),
        SpecDefinition::UnionTypeDefinition(x) => SpecDefinition::UnionTypeDefinition(
            redact_union_type(x, options),
        ),
        SpecDefinition::EnumTypeDefinition(x) => SpecDefinition::EnumTypeDefinition(
            redact_enum_type(x, options),
        ),
        SpecDefinition::InputObjectTypeDefinition(x) => SpecDefinition::InputObjectTypeDefinition(
            redact_input_object_type(x, options),
        ),
        SpecDefinition::SchemaExtension(x) => SpecDefinition::SchemaExtension(
            redact_schema_extension(x, options),
        ),
        SpecDefinition::ScalarTypeExtension(x) => SpecDefinition::ScalarTypeExtension(
            redact_scalar_type_extension(x, options),
        ),
        SpecDefinition::ObjectTypeExtension(x) => SpecDefinition::ObjectTypeExtension(
            redact_object_type_extension(x, options),
        ),
        SpecDefinition::InterfaceTypeExtension(x) => SpecDefinition::InterfaceTypeExtension(
            redact_interface_type_extension(x, options),
        ),
        SpecDefinition::UnionTypeExtension(x) => SpecDefinition::UnionTypeExtension(
            redact_union_type_extension(x, options),
        ),
        SpecDefinition::EnumTypeExtension(x) => SpecDefinition::EnumTypeExtension(
            redact_enum_type_extension(x, options),
        ),
        SpecDefinition::InputObjectTypeExtension(x) => SpecDefinition::InputObjectTypeExtension(
            redact_input_object_type_extension(x, options),
        ),
    }
}

pub open spec fn redact_definitions(s: Seq<SpecDefinition>, options: StripOptions) -> Seq<
    SpecDefinition,
> {
    s.map_values(|d: SpecDefinition| redact_definition(d, options))
}

/// The redacted document: every definition redacted, in the same order.
pub open spec fn redact_document(doc: SpecDocument, options: StripOptions) -> SpecDocument {
    SpecDocument { definitions: redact_definitions(doc.definitions, options) }
}

} // verus!
