//! What holds of redaction as a whole.
//!
//! A node is *redacted* when it carries no literal data: every number is the
//! integer `0`, every string and description is empty, and, when lists and
//! objects are hidden, every list and object is empty. Redaction always yields
//! a redacted document, and leaves a redacted document as it is; together
//! these make redaction idempotent. Documents that differ only in the content
//! of their literals redact to the same document, so the redacted data cannot
//! be told apart from the result.

use vstd::prelude::*;

use crate::model::{
    SpecArgument, SpecDefinition, SpecDirective, SpecDocument, SpecEnumValueDefinition, SpecField,
    SpecFieldDefinition, SpecInlineFragment, SpecInputValueDefinition, SpecSelection, SpecValue,
    SpecVariableDefinition, Text,
};
use crate::options::{StripOptions, StripOptionsBuilder};
use crate::redact::{
    redact_arguments, redact_definition, redact_definitions, redact_directives, redact_document,
    redact_enum_value_definitions, redact_field, redact_field_definitions, redact_inline_fragment, redact_input_value_definition, redact_input_value_definitions,
    redact_object_fields, redact_selection, redact_selection_set, redact_value, redact_value_opt,
    redact_values, redact_variable_definition, redact_variable_definitions, zero_text,
};

verus! {

// ---------------------------------------------------------------------------
// Values

/// A value that carries no literal data.
pub open spec fn value_redacted(v: SpecValue, options: StripOptions) -> bool
    decreases v,
{
    match v {
        SpecValue::Int(t) => t == zero_text(),
        SpecValue::Float(_) => false,
        SpecValue::String(t) => t == Seq::<char>::empty(),
        SpecValue::List(items) => {
            if options.hide_list_and_object_literals {
                items.len() == 0
            } else {
                forall|i: int| 0 <= i < items.len() ==> value_redacted(#[trigger] items[i], options)
            }
        },
        SpecValue::Object(fields) => {
            if options.hide_list_and_object_literals {
                fields.len() == 0
            } else {
                forall|i: int|
                    0 <= i < fields.len() ==> value_redacted(#[trigger] fields[i].1, options)
            }
        },
        _ => true,
    }
}

proof fn lemma_value_redact_is_redacted(v: SpecValue, options: StripOptions)
    ensures
        value_redacted(redact_value(v, options), options),
    decreases v,
{
    match v {
        SpecValue::List(items) => {
            if !options.hide_list_and_object_literals {
                let r = redact_values(items, options);
                assert forall|i: int| 0 <= i < r.len() implies value_redacted(
                    #[trigger] r[i],
                    options,
                ) by {
                    lemma_value_redact_is_redacted(items[i], options);
                }
            }
        },
        SpecValue::Object(fields) => {
            if !options.hide_list_and_object_literals {
                let r = redact_object_fields(fields, options);
                assert forall|i: int| 0 <= i < r.len() implies value_redacted(
                    #[trigger] r[i].1,
                    options,
                ) by {
                    lemma_value_redact_is_redacted(fields[i].1, options);
                }
            }
        },
        _ => {},
    }
}

proof fn lemma_value_redacted_is_fixed(v: SpecValue, options: StripOptions)
    requires
        value_redacted(v, options),
    ensures
        redact_value(v, options) == v,
    decreases v,
{
    match v {
        SpecValue::List(items) => {
            if options.hide_list_and_object_literals {
                assert(items =~= Seq::<SpecValue>::empty());
            } else {
                assert forall|i: int| 0 <= i < items.len() implies #[trigger] redact_values(
                    items,
                    options,
                )[i] == items[i] by {
                    lemma_value_redacted_is_fixed(items[i], options);
                }
                assert(redact_values(items, options) =~= items);
            }
        },
        SpecValue::Object(fields) => {
            if options.hide_list_and_object_literals {
                assert(fields =~= Seq::<(Text, SpecValue)>::empty());
            } else {
                assert forall|i: int| 0 <= i < fields.len() implies #[trigger] redact_object_fields(
                    fields,
                    options,
                )[i] == fields[i] by {
                    lemma_value_redacted_is_fixed(fields[i].1, options);
                }
                assert(redact_object_fields(fields, options) =~= fields);
            }
        },
        _ => {},
    }
}

/// An optional value (a default value) that carries no literal data.
pub open spec fn value_opt_redacted(v: Option<SpecValue>, options: StripOptions) -> bool {
    match v {
        Some(v) => value_redacted(v, options),
        None => true,
    }
}

/// An absent or empty description.
pub open spec fn description_redacted(d: Option<Text>) -> bool {
    match d {
        Some(t) => t == Seq::<char>::empty(),
        None => true,
    }
}

proof fn lemma_value_opt(v: Option<SpecValue>, options: StripOptions)
    ensures
        value_opt_redacted(redact_value_opt(v, options), options),
        value_opt_redacted(v, options) ==> redact_value_opt(v, options) == v,
{
    if let Some(x) = v {
        lemma_value_redact_is_redacted(x, options);
        if value_redacted(x, options) {
            lemma_value_redacted_is_fixed(x, options);
        }
    }
}

// ---------------------------------------------------------------------------
// Arguments and directives

pub open spec fn argument_redacted(a: SpecArgument, options: StripOptions) -> bool {
    value_redacted(a.value, options)
}

pub open spec fn arguments_redacted(s: Seq<SpecArgument>, options: StripOptions) -> bool {
    forall|i: int| 0 <= i < s.len() ==> argument_redacted(#[trigger] s[i], options)
}

pub open spec fn directive_redacted(d: SpecDirective, options: StripOptions) -> bool {
    arguments_redacted(d.arguments, options)
}

pub open spec fn directives_redacted(s: Seq<SpecDirective>, options: StripOptions) -> bool {
    forall|i: int| 0 <= i < s.len() ==> directive_redacted(#[trigger] s[i], options)
}

proof fn lemma_arguments(s: Seq<SpecArgument>, options: StripOptions)
    ensures
        arguments_redacted(redact_arguments(s, options), options),
        arguments_redacted(s, options) ==> redact_arguments(s, options) == s,
{
    let r = redact_arguments(s, options);
    assert forall|i: int| 0 <= i < r.len() implies argument_redacted(#[trigger] r[i], options) by {
        lemma_value_redact_is_redacted(s[i].value, options);
    }
    if arguments_redacted(s, options) {
        assert forall|i: int| 0 <= i < s.len() implies #[trigger] r[i] == s[i] by {
            assert(argument_redacted(s[i], options));
            lemma_value_redacted_is_fixed(s[i].value, options);
        }
        assert(r =~= s);
    }
}

proof fn lemma_directives(s: Seq<SpecDirective>, options: StripOptions)
    ensures
        directives_redacted(redact_directives(s, options), options),
        directives_redacted(s, options) ==> redact_directives(s, options) == s,
{
    let r = redact_directives(s, options);
    assert forall|i: int| 0 <= i < r.len() implies directive_redacted(#[trigger] r[i], options) by {
        lemma_arguments(s[i].arguments, options);
    }
    if directives_redacted(s, options) {
        assert forall|i: int| 0 <= i < s.len() implies #[trigger] r[i] == s[i] by {
            assert(directive_redacted(s[i], options));
            lemma_arguments(s[i].arguments, options);
        }
        assert(r =~= s);
    }
}

// ---------------------------------------------------------------------------
// Variable, input value, field and enum value definitions

pub open spec fn variable_definition_redacted(
    v: SpecVariableDefinition,
    options: StripOptions,
) -> bool {
    &&& value_opt_redacted(v.default_value, options)
    &&& directives_redacted(v.directives, options)
}

pub open spec fn variable_definitions_redacted(
    s: Seq<SpecVariableDefinition>,
    options: StripOptions,
) -> bool {
    forall|i: int| 0 <= i < s.len() ==> variable_definition_redacted(#[trigger] s[i], options)
}

proof fn lemma_variable_definition(v: SpecVariableDefinition, options: StripOptions)
    ensures
        variable_definition_redacted(redact_variable_definition(v, options), options),
        variable_definition_redacted(v, options) ==> redact_variable_definition(v, options) == v,
{
    lemma_value_opt(v.default_value, options);
    lemma_directives(v.directives, options);
}

proof fn lemma_variable_definitions(s: Seq<SpecVariableDefinition>, options: StripOptions)
    ensures
        variable_definitions_redacted(redact_variable_definitions(s, options), options),
        variable_definitions_redacted(s, options) ==> redact_variable_definitions(s, options) == s,
{
    let r = redact_variable_definitions(s, options);
    assert forall|i: int| 0 <= i < r.len() implies variable_definition_redacted(
        #[trigger] r[i],
        options,
    ) by {
        lemma_variable_definition(s[i], options);
    }
    if variable_definitions_redacted(s, options) {
        assert forall|i: int| 0 <= i < s.len() implies #[trigger] r[i] == s[i] by {
            lemma_variable_definition(s[i], options);
        }
        assert(r =~= s);
    }
}

pub open spec fn input_value_definition_redacted(
    v: SpecInputValueDefinition,
    options: StripOptions,
) -> bool {
    &&& description_redacted(v.description)
    &&& value_opt_redacted(v.default_value, options)
    &&& directives_redacted(v.directives, options)
}

pub open spec fn input_value_definitions_redacted(
    s: Seq<SpecInputValueDefinition>,
    options: StripOptions,
) -> bool {
    forall|i: int| 0 <= i < s.len() ==> input_value_definition_redacted(#[trigger] s[i], options)
}

proof fn lemma_input_value_definition(v: SpecInputValueDefinition, options: StripOptions)
    ensures
        input_value_definition_redacted(redact_input_value_definition(v, options), options),
        input_value_definition_redacted(v, options) ==> redact_input_value_definition(v, options)
            == v,
{
    lemma_value_opt(v.default_value, options);
    lemma_directives(v.directives, options);
}

proof fn lemma_input_value_definitions(s: Seq<SpecInputValueDefinition>, options: StripOptions)
    ensures
        input_value_definitions_redacted(redact_input_value_definitions(s, options), options),
        input_value_definitions_redacted(s, options) ==> redact_input_value_definitions(s, options)
            == s,
{
    let r = redact_input_value_definitions(s, options);
    assert forall|i: int| 0 <= i < r.len() implies input_value_definition_redacted(
        #[trigger] r[i],
        options,
    ) by {
        lemma_input_value_definition(s[i], options);
    }
    if input_value_definitions_redacted(s, options) {
        assert forall|i: int| 0 <= i < s.len() implies #[trigger] r[i] == s[i] by {
            lemma_input_value_definition(s[i], options);
        }
        assert(r =~= s);
    }
}

pub open spec fn field_definition_redacted(f: SpecFieldDefinition, options: StripOptions) -> bool {
    &&& description_redacted(f.description)
    &&& input_value_definitions_redacted(f.arguments, options)
    &&& directives_redacted(f.directives, options)
}

pub open spec fn field_definitions_redacted(
    s: Seq<SpecFieldDefinition>,
    options: StripOptions,
) -> bool {
    forall|i: int| 0 <= i < s.len() ==> field_definition_redacted(#[trigger] s[i], options)
}

proof fn lemma_field_definitions(s: Seq<SpecFieldDefinition>, options: StripOptions)
    ensures
        field_definitions_redacted(redact_field_definitions(s, options), options),
        field_definitions_redacted(s, options) ==> redact_field_definitions(s, options) == s,
{
    let r = redact_field_definitions(s, options);
    assert forall|i: int| 0 <= i < r.len() implies field_definition_redacted(
        #[trigger] r[i],
        options,
    ) by {
        lemma_input_value_definitions(s[i].arguments, options);
        lemma_directives(s[i].directives, options);
    }
    if field_definitions_redacted(s, options) {
        assert forall|i: int| 0 <= i < s.len() implies #[trigger] r[i] == s[i] by {
            assert(field_definition_redacted(s[i], options));
            lemma_input_value_definitions(s[i].arguments, options);
            lemma_directives(s[i].directives, options);
        }
        assert(r =~= s);
    }
}

pub open spec fn enum_value_definition_redacted(
    v: SpecEnumValueDefinition,
    options: StripOptions,
) -> bool {
    &&& description_redacted(v.description)
    &&& directives_redacted(v.directives, options)
}

pub open spec fn enum_value_definitions_redacted(
    s: Seq<SpecEnumValueDefinition>,
    options: StripOptions,
) -> bool {
    forall|i: int| 0 <= i < s.len() ==> enum_value_definition_redacted(#[trigger] s[i], options)
}

proof fn lemma_enum_value_definitions(s: Seq<SpecEnumValueDefinition>, options: StripOptions)
    ensures
        enum_value_definitions_redacted(redact_enum_value_definitions(s, options), options),
        enum_value_definitions_redacted(s, options) ==> redact_enum_value_definitions(s, options)
            == s,
{
    let r = redact_enum_value_definitions(s, options);
    assert forall|i: int| 0 <= i < r.len() implies enum_value_definition_redacted(
        #[trigger] r[i],
        options,
    ) by {
        lemma_directives(s[i].directives, options);
    }
    if enum_value_definitions_redacted(s, options) {
        assert forall|i: int| 0 <= i < s.len() implies #[trigger] r[i] == s[i] by {
            assert(enum_value_definition_redacted(s[i], options));
            lemma_directives(s[i].directives, options);
        }
        assert(r =~= s);
    }
}

// ---------------------------------------------------------------------------
// Selections

pub open spec fn selection_redacted(s: SpecSelection, options: StripOptions) -> bool
    decreases s,
{
    match s {
        SpecSelection::Field(f) => field_redacted(f, options),
        SpecSelection::FragmentSpread(f) => directives_redacted(f.directives, options),
        SpecSelection::InlineFragment(f) => inline_fragment_redacted(f, options),
    }
}

pub open spec fn selection_set_redacted(s: Seq<SpecSelection>, options: StripOptions) -> bool
    decreases s,
{
    forall|i: int| 0 <= i < s.len() ==> selection_redacted(#[trigger] s[i], options)
}

pub open spec fn field_redacted(f: SpecField, options: StripOptions) -> bool
    decreases f,
{
    &&& arguments_redacted(f.arguments, options)
    &&& directives_redacted(f.directives, options)
    &&& selection_set_redacted(f.selection_set, options)
}

pub open spec fn inline_fragment_redacted(f: SpecInlineFragment, options: StripOptions) -> bool
    decreases f,
{
    &&& directives_redacted(f.directives, options)
    &&& selection_set_redacted(f.selection_set, options)
}

proof fn lemma_selection(s: SpecSelection, options: StripOptions)
    ensures
        selection_redacted(redact_selection(s, options), options),
        selection_redacted(s, options) ==> redact_selection(s, options) == s,
    decreases s,
{
    match s {
        SpecSelection::Field(f) => lemma_field(f, options),
        SpecSelection::FragmentSpread(f) => lemma_directives(f.directives, options),
        SpecSelection::InlineFragment(f) => lemma_inline_fragment(f, options),
    }
}

proof fn lemma_selection_set(s: Seq<SpecSelection>, options: StripOptions)
    ensures
        selection_set_redacted(redact_selection_set(s, options), options),
        selection_set_redacted(s, options) ==> redact_selection_set(s, options) == s,
    decreases s,
{
    let r = redact_selection_set(s, options);
    assert forall|i: int| 0 <= i < r.len() implies selection_redacted(#[trigger] r[i], options) by {
        lemma_selection(s[i], options);
    }
    if selection_set_redacted(s, options) {
        assert forall|i: int| 0 <= i < s.len() implies #[trigger] r[i] == s[i] by {
            lemma_selection(s[i], options);
        }
        assert(r =~= s);
    }
}

proof fn lemma_field(f: SpecField, options: StripOptions)
    ensures
        field_redacted(redact_field(f, options), options),
        field_redacted(f, options) ==> redact_field(f, options) == f,
    decreases f,
{
    lemma_arguments(f.arguments, options);
    lemma_directives(f.directives, options);
    lemma_selection_set(f.selection_set, options);
}

proof fn lemma_inline_fragment(f: SpecInlineFragment, options: StripOptions)
    ensures
        inline_fragment_redacted(redact_inline_fragment(f, options), options),
        inline_fragment_redacted(f, options) ==> redact_inline_fragment(f, options) == f,
    decreases f,
{
    lemma_directives(f.directives, options);
    lemma_selection_set(f.selection_set, options);
}

// ---------------------------------------------------------------------------
// Definitions and documents

/// A definition that carries no literal data.
pub open spec fn definition_redacted(d: SpecDefinition, options: StripOptions) -> bool {
    match d {
        SpecDefinition::OperationDefinition(x) => {
            &&& variable_definitions_redacted(x.variables, options)
            &&& directives_redacted(x.directives, options)
            &&& selection_set_redacted(x.selection_set, options)
        },
        SpecDefinition::FragmentDefinition(x) => {
            &&& directives_redacted(x.directives, options)
            &&& selection_set_redacted(x.selection_set, options)
        },
        SpecDefinition::DirectiveDefinition(x) => {
            &&& description_redacted(x.description)
            &&& input_value_definitions_redacted(x.arguments, options)
        },
        SpecDefinition::SchemaDefinition(x) => {
            &&& description_redacted(x.description)
            &&& directives_redacted(x.directives, options)
        },
        SpecDefinition::ScalarTypeDefinition(x) => {
            &&& description_redacted(x.description)
            &&& directives_redacted(x.directives, options)
        },
        SpecDefinition::ObjectTypeDefinition(x) => {
            &&& description_redacted(x.description)
            &&& directives_redacted(x.directives, options)
            &&& field_definitions_redacted(x.fields, options)
        },
        SpecDefinition::InterfaceTypeDefinition(x) => {
            &&& description_redacted(x.description)
            &&& directives_redacted(x.directives, options)
            &&& field_definitions_redacted(x.fields, options)
        },
        SpecDefinition::UnionTypeDefinition(x) => {
            &&& description_redacted(x.description)
            &&& directives_redacted(x.directives, options)
        },
        SpecDefinition::EnumTypeDefinition(x) => {
            &&& description_redacted(x.description)
            &&& directives_redacted(x.directives, options)
            &&& enum_value_definitions_redacted(x.values, options)
        },
        SpecDefinition::InputObjectTypeDefinition(x) => {
            &&& description_redacted(x.description)
            &&& directives_redacted(x.directives, options)
            &&& input_value_definitions_redacted(x.fields, options)
        },
        SpecDefinition::SchemaExtension(x) => directives_redacted(x.directives, options),
        SpecDefinition::ScalarTypeExtension(x) => directives_redacted(x.directives, options),
        SpecDefinition::ObjectTypeExtension(x) => {
            &&& directives_redacted(x.directives, options)
            &&& field_definitions_redacted(x.fields, options)
        },
        SpecDefinition::InterfaceTypeExtension(x) => {
            &&& directives_redacted(x.directives, options)
            &&& field_definitions_redacted(x.fields, options)
        },
        SpecDefinition::UnionTypeExtension(x) => directives_redacted(x.directives, options),
        SpecDefinition::EnumTypeExtension(x) => {
            &&& directives_redacted(x.directives, options)
            &&& enum_value_definitions_redacted(x.values, options)
        },
        SpecDefinition::InputObjectTypeExtension(x) => {
            &&& directives_redacted(x.directives, options)
            &&& input_value_definitions_redacted(x.fields, options)
        },
    }
}

/// A document that carries no literal data: no number but `0`, no
/// non-empty string or description, and, when lists and objects are
/// hidden, no non-empty list or object.
pub open spec fn document_redacted(doc: SpecDocument, options: StripOptions) -> bool {
    forall|i: int|
        0 <= i < doc.definitions.len() ==> definition_redacted(#[trigger] doc.definitions[i], options)
}

proof fn lemma_definition(d: SpecDefinition, options: StripOptions)
    ensures
        definition_redacted(redact_definition(d, options), options),
        definition_redacted(d, options) ==> redact_definition(d, options) == d,
{
    match d {
        SpecDefinition::OperationDefinition(x) => {
            lemma_variable_definitions(x.variables, options);
            lemma_directives(x.directives, options);
            lemma_selection_set(x.selection_set, options);
        },
        SpecDefinition::FragmentDefinition(x) => {
            lemma_directives(x.directives, options);
            lemma_selection_set(x.selection_set, options);
        },
        SpecDefinition::DirectiveDefinition(x) => {
            lemma_input_value_definitions(x.arguments, options);
        },
        SpecDefinition::SchemaDefinition(x) => {
            lemma_directives(x.directives, options);
        },
        SpecDefinition::ScalarTypeDefinition(x) => {
            lemma_directives(x.directives, options);
        },
        SpecDefinition::ObjectTypeDefinition(x) => {
            lemma_directives(x.directives, options);
            lemma_field_definitions(x.fields, options);
        },
        SpecDefinition::InterfaceTypeDefinition(x) => {
            lemma_directives(x.directives, options);
            lemma_field_definitions(x.fields, options);
        },
        SpecDefinition::UnionTypeDefinition(x) => {
            lemma_directives(x.directives, options);
        },
        SpecDefinition::EnumTypeDefinition(x) => {
            lemma_directives(x.directives, options);
            lemma_enum_value_definitions(x.values, options);
        },
        SpecDefinition::InputObjectTypeDefinition(x) => {
            lemma_directives(x.directives, options);
            lemma_input_value_definitions(x.fields, options);
        },
        SpecDefinition::SchemaExtension(x) => {
            lemma_directives(x.directives, options);
        },
        SpecDefinition::ScalarTypeExtension(x) => {
            lemma_directives(x.directives, options);
        },
        SpecDefinition::ObjectTypeExtension(x) => {
            lemma_directives(x.directives, options);
            lemma_field_definitions(x.fields, options);
        },
        SpecDefinition::InterfaceTypeExtension(x) => {
            lemma_directives(x.directives, options);
            lemma_field_definitions(x.fields, options);
        },
        SpecDefinition::UnionTypeExtension(x) => {
            lemma_directives(x.directives, options);
        },
        SpecDefinition::EnumTypeExtension(x) => {
            lemma_directives(x.directives, options);
            lemma_enum_value_definitions(x.values, options);
        },
        SpecDefinition::InputObjectTypeExtension(x) => {
            lemma_directives(x.directives, options);
            lemma_input_value_definitions(x.fields, options);
        },
    }
}

/// Redaction leaves no literal data behind: in the redacted document every
/// number is `0`, every string and description is empty, and, with
/// `hide_list_and_object_literals`, every list and object is empty.
pub proof fn lemma_strip_removes_literals(doc: SpecDocument, options: StripOptions)
    ensures
        document_redacted(redact_document(doc, options), options),
{
    let r = redact_document(doc, options).definitions;
    assert forall|i: int| 0 <= i < r.len() implies definition_redacted(#[trigger] r[i], options) by {
        lemma_definition(doc.definitions[i], options);
    }
}

/// A document that carries no literal data comes out of redaction
/// unchanged.
pub proof fn lemma_redacted_document_unchanged(doc: SpecDocument, options: StripOptions)
    requires
        document_redacted(doc, options),
    ensures
        redact_document(doc, options) == doc,
{
    let r = redact_definitions(doc.definitions, options);
    assert forall|i: int| 0 <= i < doc.definitions.len() implies #[trigger] r[i]
        == doc.definitions[i] by {
        lemma_definition(doc.definitions[i], options);
    }
    assert(r =~= doc.definitions);
}

/// Redacting twice gives the same document as redacting once.
pub proof fn lemma_strip_idempotent(doc: SpecDocument, options: StripOptions)
    ensures
        redact_document(redact_document(doc, options), options) == redact_document(doc, options),
{
    lemma_strip_removes_literals(doc, options);
    lemma_redacted_document_unchanged(redact_document(doc, options), options);
}

// ---------------------------------------------------------------------------
// What a redacted value still tells, and what it no longer tells

/// Two values that differ at most in what redaction removes: the digits of
/// numbers, the content of strings, and, when lists and objects are hidden,
/// everything inside lists and objects.
pub open spec fn same_outside_literals(a: SpecValue, b: SpecValue, options: StripOptions) -> bool
    decreases a,
{
    match a {
        SpecValue::Int(_) => b is Int || b is Float,
        SpecValue::Float(_) => b is Int || b is Float,
        SpecValue::String(_) => b is String,
        SpecValue::List(x) => match b {
            SpecValue::List(y) => options.hide_list_and_object_literals || {
                &&& x.len() == y.len()
                &&& forall|i: int|
                    #![trigger x[i], y[i]]
                    0 <= i < x.len() ==> same_outside_literals(x[i], y[i], options)
            },
            _ => false,
        },
        SpecValue::Object(x) => match b {
            SpecValue::Object(y) => options.hide_list_and_object_literals || {
                &&& x.len() == y.len()
                &&& forall|i: int|
                    #![trigger x[i], y[i]]
                    0 <= i < x.len() ==> x[i].0 == y[i].0 && same_outside_literals(
                        x[i].1,
                        y[i].1,
                        options,
                    )
            },
            _ => false,
        },
        _ => a == b,
    }
}

/// Redaction forgets the content of literals: values that differ only in
/// number digits, string content, or (when hidden) list and object contents,
/// including their lengths and keys, redact to the same value.
pub proof fn lemma_redaction_forgets_literal_content(
    a: SpecValue,
    b: SpecValue,
    options: StripOptions,
)
    requires
        same_outside_literals(a, b, options),
    ensures
        redact_value(a, options) == redact_value(b, options),
    decreases a,
{
    match a {
        SpecValue::List(x) => {
            if !options.hide_list_and_object_literals {
                let y = b->List_0;
                assert forall|i: int| 0 <= i < x.len() implies #[trigger] redact_values(x, options)[i]
                    == redact_values(y, options)[i] by {
                    assert(same_outside_literals(x[i], y[i], options));
                    lemma_redaction_forgets_literal_content(x[i], y[i], options);
                }
                assert(redact_values(x, options) =~= redact_values(y, options));
            }
        },
        SpecValue::Object(x) => {
            if !options.hide_list_and_object_literals {
                let y = b->Object_0;
                assert forall|i: int| 0 <= i < x.len() implies #[trigger] redact_object_fields(
                    x,
                    options,
                )[i] == redact_object_fields(y, options)[i] by {
                    assert(x[i].0 == y[i].0 && same_outside_literals(x[i].1, y[i].1, options));
                    lemma_redaction_forgets_literal_content(x[i].1, y[i].1, options);
                }
                assert(redact_object_fields(x, options) =~= redact_object_fields(y, options));
            }
        },
        _ => {},
    }
}

/// Booleans, nulls, enum values and variable references are not sensitive:
/// redaction keeps them as they are.
pub proof fn lemma_non_sensitive_values_kept(v: SpecValue, options: StripOptions)
    requires
        v is Boolean || v is Null || v is Enum || v is Variable,
    ensures
        redact_value(v, options) == v,
{
}

/// In the default mode a list keeps its length and an object keeps its
/// keys, in order; only the scalars inside are redacted.
pub proof fn lemma_default_mode_keeps_shape(v: SpecValue, options: StripOptions)
    requires
        !options.hide_list_and_object_literals,
    ensures
        v matches SpecValue::List(items) ==> redact_value(v, options) matches SpecValue::List(r)
            && r.len() == items.len(),
        v matches SpecValue::Object(fields) ==> redact_value(v, options) matches SpecValue::Object(
            r,
        ) && r.len() == fields.len() && forall|i: int|
            0 <= i < r.len() ==> #[trigger] r[i].0 == fields[i].0,
{
}

/// An option that is never set on the builder and one explicitly set to
/// `false` give the same options, and those are the defaults.
pub proof fn lemma_unset_option_is_false(unset: StripOptionsBuilder, set_false: StripOptionsBuilder)
    requires
        unset.hide_setting() == None::<bool>,
        set_false.hide_setting() == Some(false),
    ensures
        unset.spec_build() == set_false.spec_build(),
        unset.spec_build() == (StripOptions { hide_list_and_object_literals: false }),
{
}

// ---------------------------------------------------------------------------
// Documents that differ only in literal content

/// Two descriptions that differ at most in their text.
pub open spec fn description_same_outside_literals(a: Option<Text>, b: Option<Text>) -> bool {
    a is Some <==> b is Some
}

/// Two optional values (default values) that differ at most in literal
/// content.
pub open spec fn value_opt_same_outside_literals(
    a: Option<SpecValue>,
    b: Option<SpecValue>,
    options: StripOptions,
) -> bool {
    match a {
        Some(x) => b matches Some(y) && same_outside_literals(x, y, options),
        None => b is None,
    }
}

pub open spec fn argument_same_outside_literals(
    a: SpecArgument,
    b: SpecArgument,
    options: StripOptions,
) -> bool {
    a.name == b.name && same_outside_literals(a.value, b.value, options)
}

pub open spec fn arguments_same_outside_literals(
    a: Seq<SpecArgument>,
    b: Seq<SpecArgument>,
    options: StripOptions,
) -> bool {
    &&& a.len() == b.len()
    &&& forall|i: int|
        #![trigger a[i], b[i]]
        0 <= i < a.len() ==> argument_same_outside_literals(a[i], b[i], options)
}

pub open spec fn directive_same_outside_literals(
    a: SpecDirective,
    b: SpecDirective,
    options: StripOptions,
) -> bool {
    a.name == b.name && arguments_same_outside_literals(a.arguments, b.arguments, options)
}

pub open spec fn directives_same_outside_literals(
    a: Seq<SpecDirective>,
    b: Seq<SpecDirective>,
    options: StripOptions,
) -> bool {
    &&& a.len() == b.len()
    &&& forall|i: int|
        #![trigger a[i], b[i]]
        0 <= i < a.len() ==> directive_same_outside_literals(a[i], b[i], options)
}

pub open spec fn variable_definitions_same_outside_literals(
    a: Seq<SpecVariableDefinition>,
    b: Seq<SpecVariableDefinition>,
    options: StripOptions,
) -> bool {
    &&& a.len() == b.len()
    &&& forall|i: int|
        #![trigger a[i], b[i]]
        0 <= i < a.len() ==> {
            &&& a[i].name == b[i].name
            &&& a[i].ty == b[i].ty
            &&& value_opt_same_outside_literals(a[i].default_value, b[i].default_value, options)
            &&& directives_same_outside_literals(a[i].directives, b[i].directives, options)
        }
}

pub open spec fn input_value_definition_same_outside_literals(
    a: SpecInputValueDefinition,
    b: SpecInputValueDefinition,
    options: StripOptions,
) -> bool {
    &&& description_same_outside_literals(a.description, b.description)
    &&& a.name == b.name
    &&& a.ty == b.ty
    &&& value_opt_same_outside_literals(a.default_value, b.default_value, options)
    &&& directives_same_outside_literals(a.directives, b.directives, options)
}

pub open spec fn input_value_definitions_same_outside_literals(
    a: Seq<SpecInputValueDefinition>,
    b: Seq<SpecInputValueDefinition>,
    options: StripOptions,
) -> bool {
    &&& a.len() == b.len()
    &&& forall|i: int|
        #![trigger a[i], b[i]]
        0 <= i < a.len() ==> input_value_definition_same_outside_literals(a[i], b[i], options)
}

pub open spec fn field_definitions_same_outside_literals(
    a: Seq<SpecFieldDefinition>,
    b: Seq<SpecFieldDefinition>,
    options: StripOptions,
) -> bool {
    &&& a.len() == b.len()
    &&& forall|i: int|
        #![trigger a[i], b[i]]
        0 <= i < a.len() ==> {
            &&& description_same_outside_literals(a[i].description, b[i].description)
            &&& a[i].name == b[i].name
            &&& input_value_definitions_same_outside_literals(a[i].arguments, b[i].arguments, options)
            &&& a[i].ty == b[i].ty
            &&& directives_same_outside_literals(a[i].directives, b[i].directives, options)
        }
}

pub open spec fn enum_value_definitions_same_outside_literals(
    a: Seq<SpecEnumValueDefinition>,
    b: Seq<SpecEnumValueDefinition>,
    options: StripOptions,
) -> bool {
    &&& a.len() == b.len()
    &&& forall|i: int|
        #![trigger a[i], b[i]]
        0 <= i < a.len() ==> {
            &&& description_same_outside_literals(a[i].description, b[i].description)
            &&& a[i].value == b[i].value
            &&& directives_same_outside_literals(a[i].directives, b[i].directives, options)
        }
}

pub open spec fn selection_same_outside_literals(
    a: SpecSelection,
    b: SpecSelection,
    options: StripOptions,
) -> bool
    decreases a,
{
    match a {
        SpecSelection::Field(x) => b matches SpecSelection::Field(y)
            && field_same_outside_literals(x, y, options),
        SpecSelection::FragmentSpread(x) => b matches SpecSelection::FragmentSpread(y)
            && x.fragment_name == y.fragment_name && directives_same_outside_literals(
            x.directives,
            y.directives,
            options,
        ),
        SpecSelection::InlineFragment(x) => b matches SpecSelection::InlineFragment(y)
            && inline_fragment_same_outside_literals(x, y, options),
    }
}

pub open spec fn selection_set_same_outside_literals(
    a: Seq<SpecSelection>,
    b: Seq<SpecSelection>,
    options: StripOptions,
) -> bool
    decreases a,
{
    &&& a.len() == b.len()
    &&& forall|i: int|
        #![trigger a[i], b[i]]
        0 <= i < a.len() ==> selection_same_outside_literals(a[i], b[i], options)
}

pub open spec fn field_same_outside_literals(a: SpecField, b: SpecField, options: StripOptions) -> bool
    decreases a,
{
    &&& a.alias == b.alias
    &&& a.name == b.name
    &&& arguments_same_outside_literals(a.arguments, b.arguments, options)
    &&& directives_same_outside_literals(a.directives, b.directives, options)
    &&& selection_set_same_outside_literals(a.selection_set, b.selection_set, options)
}

pub open spec fn inline_fragment_same_outside_literals(
    a: SpecInlineFragment,
    b: SpecInlineFragment,
    options: StripOptions,
) -> bool
    decreases a,
{
    &&& a.type_condition == b.type_condition
    &&& directives_same_outside_literals(a.directives, b.directives, options)
    &&& selection_set_same_outside_literals(a.selection_set, b.selection_set, options)
}

/// Two definitions of the same kind that differ at most in literal content:
/// number digits, string and description text, and (when hidden) list and
/// object contents.
pub open spec fn definition_same_outside_literals(
    a: SpecDefinition,
    b: SpecDefinition,
    options: StripOptions,
) -> bool {
    match a {
        SpecDefinition::OperationDefinition(x) => b matches SpecDefinition::OperationDefinition(y)
            && {
            &&& x.operation_type == y.operation_type
            &&& x.name == y.name
            &&& variable_definitions_same_outside_literals(x.variables, y.variables, options)
            &&& directives_same_outside_literals(x.directives, y.directives, options)
            &&& selection_set_same_outside_literals(x.selection_set, y.selection_set, options)
        },
        SpecDefinition::FragmentDefinition(x) => b matches SpecDefinition::FragmentDefinition(y)
            && {
            &&& x.name == y.name
            &&& x.type_condition == y.type_condition
            &&& directives_same_outside_literals(x.directives, y.directives, options)
            &&& selection_set_same_outside_literals(x.selection_set, y.selection_set, options)
        },
        SpecDefinition::DirectiveDefinition(x) => b matches SpecDefinition::DirectiveDefinition(y)
            && {
            &&& description_same_outside_literals(x.description, y.description)
            &&& x.name == y.name
            &&& input_value_definitions_same_outside_literals(x.arguments, y.arguments, options)
            &&& x.repeatable == y.repeatable
            &&& x.locations == y.locations
        },
        SpecDefinition::SchemaDefinition(x) => b matches SpecDefinition::SchemaDefinition(y) && {
            &&& description_same_outside_literals(x.description, y.description)
            &&& directives_same_outside_literals(x.directives, y.directives, options)
            &&& x.root_operations == y.root_operations
        },
        SpecDefinition::ScalarTypeDefinition(x) => b matches SpecDefinition::ScalarTypeDefinition(
            y,
        ) && {
            &&& description_same_outside_literals(x.description, y.description)
            &&& x.name == y.name
            &&& directives_same_outside_literals(x.directives, y.directives, options)
        },
        SpecDefinition::ObjectTypeDefinition(x) => b matches SpecDefinition::ObjectTypeDefinition(
            y,
        ) && {
            &&& description_same_outside_literals(x.description, y.description)
            &&& x.name == y.name
            &&& x.implements_interfaces == y.implements_interfaces
            &&& directives_same_outside_literals(x.directives, y.directives, options)
            &&& field_definitions_same_outside_literals(x.fields, y.fields, options)
        },
        SpecDefinition::InterfaceTypeDefinition(x) => b matches SpecDefinition::InterfaceTypeDefinition(
            y,
        ) && {
            &&& description_same_outside_literals(x.description, y.description)
            &&& x.name == y.name
            &&& x.implements_interfaces == y.implements_interfaces
            &&& directives_same_outside_literals(x.directives, y.directives, options)
            &&& field_definitions_same_outside_literals(x.fields, y.fields, options)
        },
        SpecDefinition::UnionTypeDefinition(x) => b matches SpecDefinition::UnionTypeDefinition(y)
            && {
            &&& description_same_outside_literals(x.description, y.description)
            &&& x.name == y.name
            &&& directives_same_outside_literals(x.directives, y.directives, options)
            &&& x.members == y.members
        },
        SpecDefinition::EnumTypeDefinition(x) => b matches SpecDefinition::EnumTypeDefinition(y)
            && {
            &&& description_same_outside_literals(x.description, y.description)
            &&& x.name == y.name
            &&& directives_same_outside_literals(x.directives, y.directives, options)
            &&& enum_value_definitions_same_outside_literals(x.values, y.values, options)
        },
        SpecDefinition::InputObjectTypeDefinition(x) => b matches SpecDefinition::InputObjectTypeDefinition(
            y,
        ) && {
            &&& description_same_outside_literals(x.description, y.description)
            &&& x.name == y.name
            &&& directives_same_outside_literals(x.directives, y.directives, options)
            &&& input_value_definitions_same_outside_literals(x.fields, y.fields, options)
        },
        SpecDefinition::SchemaExtension(x) => b matches SpecDefinition::SchemaExtension(y) && {
            &&& directives_same_outside_literals(x.directives, y.directives, options)
            &&& x.root_operations == y.root_operations
        },
        SpecDefinition::ScalarTypeExtension(x) => b matches SpecDefinition::ScalarTypeExtension(y)
            && {
            &&& x.name == y.name
            &&& directives_same_outside_literals(x.directives, y.directives, options)
        },
        SpecDefinition::ObjectTypeExtension(x) => b matches SpecDefinition::ObjectTypeExtension(y)
            && {
            &&& x.name == y.name
            &&& x.implements_interfaces == y.implements_interfaces
            &&& directives_same_outside_literals(x.directives, y.directives, options)
            &&& field_definitions_same_outside_literals(x.fields, y.fields, options)
        },
        SpecDefinition::InterfaceTypeExtension(x) => b matches SpecDefinition::InterfaceTypeExtension(
            y,
        ) && {
            &&& x.name == y.name
            &&& x.implements_interfaces == y.implements_interfaces
            &&& directives_same_outside_literals(x.directives, y.directives, options)
            &&& field_definitions_same_outside_literals(x.fields, y.fields, options)
        },
        SpecDefinition::UnionTypeExtension(x) => b matches SpecDefinition::UnionTypeExtension(y)
            && {
            &&& x.name == y.name
            &&& directives_same_outside_literals(x.directives, y.directives, options)
            &&& x.members == y.members
        },
        SpecDefinition::EnumTypeExtension(x) => b matches SpecDefinition::EnumTypeExtension(y) && {
            &&& x.name == y.name
            &&& directives_same_outside_literals(x.directives, y.directives, options)
            &&& enum_value_definitions_same_outside_literals(x.values, y.values, options)
        },
        SpecDefinition::InputObjectTypeExtension(x) => b matches SpecDefinition::InputObjectTypeExtension(
            y,
        ) && {
            &&& x.name == y.name
            &&& directives_same_outside_literals(x.directives, y.directives, options)
            &&& input_value_definitions_same_outside_literals(x.fields, y.fields, options)
        },
    }
}

/// Two documents equal except at literal slots: a number may differ in kind
/// (integer or float) and digits, a string or a present description in its
/// text, and, when lists and objects are hidden, a list or object in its
/// contents.
pub open spec fn document_same_outside_literals(
    a: SpecDocument,
    b: SpecDocument,
    options: StripOptions,
) -> bool {
    &&& a.definitions.len() == b.definitions.len()
    &&& forall|i: int|
        #![trigger a.definitions[i], b.definitions[i]]
        0 <= i < a.definitions.len() ==> definition_same_outside_literals(
            a.definitions[i],
            b.definitions[i],
            options,
        )
}

proof fn lemma_value_opt_forgets(a: Option<SpecValue>, b: Option<SpecValue>, options: StripOptions)
    requires
        value_opt_same_outside_literals(a, b, options),
    ensures
        redact_value_opt(a, options) == redact_value_opt(b, options),
{
    if let Some(x) = a {
        lemma_redaction_forgets_literal_content(x, b->Some_0, options);
    }
}

proof fn lemma_arguments_forget(a: Seq<SpecArgument>, b: Seq<SpecArgument>, options: StripOptions)
    requires
        arguments_same_outside_literals(a, b, options),
    ensures
        redact_arguments(a, options) == redact_arguments(b, options),
{
    assert forall|i: int| 0 <= i < a.len() implies #[trigger] redact_arguments(a, options)[i]
        == redact_arguments(b, options)[i] by {
        assert(argument_same_outside_literals(a[i], b[i], options));
        lemma_redaction_forgets_literal_content(a[i].value, b[i].value, options);
    }
    assert(redact_arguments(a, options) =~= redact_arguments(b, options));
}

proof fn lemma_directives_forget(a: Seq<SpecDirective>, b: Seq<SpecDirective>, options: StripOptions)
    requires
        directives_same_outside_literals(a, b, options),
    ensures
        redact_directives(a, options) == redact_directives(b, options),
{
    assert forall|i: int| 0 <= i < a.len() implies #[trigger] redact_directives(a, options)[i]
        == redact_directives(b, options)[i] by {
        assert(directive_same_outside_literals(a[i], b[i], options));
        lemma_arguments_forget(a[i].arguments, b[i].arguments, options);
    }
    assert(redact_directives(a, options) =~= redact_directives(b, options));
}

proof fn lemma_variable_definitions_forget(
    a: Seq<SpecVariableDefinition>,
    b: Seq<SpecVariableDefinition>,
    options: StripOptions,
)
    requires
        variable_definitions_same_outside_literals(a, b, options),
    ensures
        redact_variable_definitions(a, options) == redact_variable_definitions(b, options),
{
    assert forall|i: int| 0 <= i < a.len() implies #[trigger] redact_variable_definitions(
        a,
        options,
    )[i] == redact_variable_definitions(b, options)[i] by {
        let (x, y) = (a[i], b[i]);
        lemma_value_opt_forgets(x.default_value, y.default_value, options);
        lemma_directives_forget(x.directives, y.directives, options);
    }
    assert(redact_variable_definitions(a, options) =~= redact_variable_definitions(b, options));
}

proof fn lemma_input_value_definitions_forget(
    a: Seq<SpecInputValueDefinition>,
    b: Seq<SpecInputValueDefinition>,
    options: StripOptions,
)
    requires
        input_value_definitions_same_outside_literals(a, b, options),
    ensures
        redact_input_value_definitions(a, options) == redact_input_value_definitions(b, options),
{
    assert forall|i: int| 0 <= i < a.len() implies #[trigger] redact_input_value_definitions(
        a,
        options,
    )[i] == redact_input_value_definitions(b, options)[i] by {
        let (x, y) = (a[i], b[i]);
        assert(input_value_definition_same_outside_literals(x, y, options));
        lemma_value_opt_forgets(x.default_value, y.default_value, options);
        lemma_directives_forget(x.directives, y.directives, options);
    }
    assert(redact_input_value_definitions(a, options) =~= redact_input_value_definitions(
        b,
        options,
    ));
}

proof fn lemma_field_definitions_forget(
    a: Seq<SpecFieldDefinition>,
    b: Seq<SpecFieldDefinition>,
    options: StripOptions,
)
    requires
        field_definitions_same_outside_literals(a, b, options),
    ensures
        redact_field_definitions(a, options) == redact_field_definitions(b, options),
{
    assert forall|i: int| 0 <= i < a.len() implies #[trigger] redact_field_definitions(a, options)[i]
        == redact_field_definitions(b, options)[i] by {
        let (x, y) = (a[i], b[i]);
        lemma_input_value_definitions_forget(x.arguments, y.arguments, options);
        lemma_directives_forget(x.directives, y.directives, options);
    }
    assert(redact_field_definitions(a, options) =~= redact_field_definitions(b, options));
}

proof fn lemma_enum_value_definitions_forget(
    a: Seq<SpecEnumValueDefinition>,
    b: Seq<SpecEnumValueDefinition>,
    options: StripOptions,
)
    requires
        enum_value_definitions_same_outside_literals(a, b, options),
    ensures
        redact_enum_value_definitions(a, options) == redact_enum_value_definitions(b, options),
{
    assert forall|i: int| 0 <= i < a.len() implies #[trigger] redact_enum_value_definitions(
        a,
        options,
    )[i] == redact_enum_value_definitions(b, options)[i] by {
        lemma_directives_forget(a[i].directives, b[i].directives, options);
    }
    assert(redact_enum_value_definitions(a, options) =~= redact_enum_value_definitions(b, options));
}

proof fn lemma_selection_forgets(a: SpecSelection, b: SpecSelection, options: StripOptions)
    requires
        selection_same_outside_literals(a, b, options),
    ensures
        redact_selection(a, options) == redact_selection(b, options),
    decreases a,
{
    match a {
        SpecSelection::Field(x) => lemma_field_forgets(x, b->Field_0, options),
        SpecSelection::FragmentSpread(x) => lemma_directives_forget(
            x.directives,
            b->FragmentSpread_0.directives,
            options,
        ),
        SpecSelection::InlineFragment(x) => lemma_inline_fragment_forgets(
            x,
            b->InlineFragment_0,
            options,
        ),
    }
}

proof fn lemma_selection_set_forgets(
    a: Seq<SpecSelection>,
    b: Seq<SpecSelection>,
    options: StripOptions,
)
    requires
        selection_set_same_outside_literals(a, b, options),
    ensures
        redact_selection_set(a, options) == redact_selection_set(b, options),
    decreases a,
{
    assert forall|i: int| 0 <= i < a.len() implies #[trigger] redact_selection_set(a, options)[i]
        == redact_selection_set(b, options)[i] by {
        assert(selection_same_outside_literals(a[i], b[i], options));
        lemma_selection_forgets(a[i], b[i], options);
    }
    assert(redact_selection_set(a, options) =~= redact_selection_set(b, options));
}

proof fn lemma_field_forgets(a: SpecField, b: SpecField, options: StripOptions)
    requires
        field_same_outside_literals(a, b, options),
    ensures
        redact_field(a, options) == redact_field(b, options),
    decreases a,
{
    lemma_arguments_forget(a.arguments, b.arguments, options);
    lemma_directives_forget(a.directives, b.directives, options);
    lemma_selection_set_forgets(a.selection_set, b.selection_set, options);
}

proof fn lemma_inline_fragment_forgets(
    a: SpecInlineFragment,
    b: SpecInlineFragment,
    options: StripOptions,
)
    requires
        inline_fragment_same_outside_literals(a, b, options),
    ensures
        redact_inline_fragment(a, options) == redact_inline_fragment(b, options),
    decreases a,
{
    lemma_directives_forget(a.directives, b.directives, options);
    lemma_selection_set_forgets(a.selection_set, b.selection_set, options);
}

proof fn lemma_definition_forgets(a: SpecDefinition, b: SpecDefinition, options: StripOptions)
    requires
        definition_same_outside_literals(a, b, options),
    ensures
        redact_definition(a, options) == redact_definition(b, options),
{
    match a {
        SpecDefinition::OperationDefinition(x) => {
            let y = b->OperationDefinition_0;
            lemma_variable_definitions_forget(x.variables, y.variables, options);
            lemma_directives_forget(x.directives, y.directives, options);
            lemma_selection_set_forgets(x.selection_set, y.selection_set, options);
        },
        SpecDefinition::FragmentDefinition(x) => {
            let y = b->FragmentDefinition_0;
            lemma_directives_forget(x.directives, y.directives, options);
            lemma_selection_set_forgets(x.selection_set, y.selection_set, options);
        },
        SpecDefinition::DirectiveDefinition(x) => {
            let y = b->DirectiveDefinition_0;
            lemma_input_value_definitions_forget(x.arguments, y.arguments, options);
        },
        SpecDefinition::SchemaDefinition(x) => {
            lemma_directives_forget(x.directives, b->SchemaDefinition_0.directives, options);
        },
        SpecDefinition::ScalarTypeDefinition(x) => {
            lemma_directives_forget(x.directives, b->ScalarTypeDefinition_0.directives, options);
        },
        SpecDefinition::ObjectTypeDefinition(x) => {
            let y = b->ObjectTypeDefinition_0;
            lemma_directives_forget(x.directives, y.directives, options);
            lemma_field_definitions_forget(x.fields, y.fields, options);
        },
        SpecDefinition::InterfaceTypeDefinition(x) => {
            let y = b->InterfaceTypeDefinition_0;
            lemma_directives_forget(x.directives, y.directives, options);
            lemma_field_definitions_forget(x.fields, y.fields, options);
        },
        SpecDefinition::UnionTypeDefinition(x) => {
            lemma_directives_forget(x.directives, b->UnionTypeDefinition_0.directives, options);
        },
        SpecDefinition::EnumTypeDefinition(x) => {
            let y = b->EnumTypeDefinition_0;
            lemma_directives_forget(x.directives, y.directives, options);
            lemma_enum_value_definitions_forget(x.values, y.values, options);
        },
        SpecDefinition::InputObjectTypeDefinition(x) => {
            let y = b->InputObjectTypeDefinition_0;
            lemma_directives_forget(x.directives, y.directives, options);
            lemma_input_value_definitions_forget(x.fields, y.fields, options);
        },
        SpecDefinition::SchemaExtension(x) => {
            lemma_directives_forget(x.directives, b->SchemaExtension_0.directives, options);
        },
        SpecDefinition::ScalarTypeExtension(x) => {
            lemma_directives_forget(x.directives, b->ScalarTypeExtension_0.directives, options);
        },
        SpecDefinition::ObjectTypeExtension(x) => {
            let y = b->ObjectTypeExtension_0;
            lemma_directives_forget(x.directives, y.directives, options);
            lemma_field_definitions_forget(x.fields, y.fields, options);
        },
        SpecDefinition::InterfaceTypeExtension(x) => {
            let y = b->InterfaceTypeExtension_0;
            lemma_directives_forget(x.directives, y.directives, options);
            lemma_field_definitions_forget(x.fields, y.fields, options);
        },
        SpecDefinition::UnionTypeExtension(x) => {
            lemma_directives_forget(x.directives, b->UnionTypeExtension_0.directives, options);
        },
        SpecDefinition::EnumTypeExtension(x) => {
            let y = b->EnumTypeExtension_0;
            lemma_directives_forget(x.directives, y.directives, options);
            lemma_enum_value_definitions_forget(x.values, y.values, options);
        },
        SpecDefinition::InputObjectTypeExtension(x) => {
            let y = b->InputObjectTypeExtension_0;
            lemma_directives_forget(x.directives, y.directives, options);
            lemma_input_value_definitions_forget(x.fields, y.fields, options);
        },
    }
}

/// The redacted data cannot be told apart from the result: two documents
/// equal except at literal slots (number kind and digits, string and
/// description text, and, when lists and objects are hidden, list and object
/// contents) redact to the same document.
pub proof fn lemma_redacted_documents_indistinguishable(
    a: SpecDocument,
    b: SpecDocument,
    options: StripOptions,
)
    requires
        document_same_outside_literals(a, b, options),
    ensures
        redact_document(a, options) == redact_document(b, options),
{
    let (ra, rb) = (redact_definitions(a.definitions, options), redact_definitions(b.definitions, options));
    assert forall|i: int| 0 <= i < a.definitions.len() implies #[trigger] ra[i] == rb[i] by {
        lemma_definition_forgets(a.definitions[i], b.definitions[i], options);
    }
    assert(ra =~= rb);
}

} // verus!
