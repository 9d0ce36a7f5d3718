//! Copies of document nodes, and `Clone` for every AST type.
//!
//! Each copy is proved to have the same view as the original.

use vstd::prelude::*;

use crate::ast::{
    arguments_view, definitions_view, directives_view, enum_values_view, field_definitions_view,
    input_values_view, variables_view, root_operations_view, text_opt_view, texts_view, object_fields_view, selections_view,
    value_opt_view, values_view, Argument, Definition, Directive, DirectiveDefinition,
    DirectiveLocation, Document, EnumTypeDefinition, EnumTypeExtension, EnumValueDefinition, Field,
    FieldDefinition, FragmentDefinition, FragmentSpread, InlineFragment,
    InputObjectTypeDefinition, InputObjectTypeExtension, InputValueDefinition,
    InterfaceTypeDefinition, InterfaceTypeExtension, ObjectTypeDefinition, ObjectTypeExtension,
    OperationDefinition, OperationType, ScalarTypeDefinition, ScalarTypeExtension,
    SchemaDefinition, SchemaExtension, Selection, Type, UnionTypeDefinition, UnionTypeExtension,
    Value, VariableDefinition,
};

verus! {

/// A copy with the same view.
pub(crate) trait Duplicate: View + Sized {
    fn duplicate(&self) -> (out: Self)
        ensures
            out@ == self@,
    ;
}

/// A copy of a list, item by item.
pub(crate) fn duplicate_vec<T: Duplicate>(v: &Vec<T>) -> (out: Vec<T>)
    ensures
        out@.len() == v@.len(),
        forall|i: int| 0 <= i < v@.len() ==> #[trigger] out@[i]@ == v@[i]@,
{
    let mut out: Vec<T> = Vec::new();
    for i in 0..v.len()
        invariant
            out@.len() == i,
            forall|j: int| 0 <= j < i ==> #[trigger] out@[j]@ == v@[j]@,
    {
        out.push(v[i].duplicate());
    }
    out
}

pub(crate) fn copy_text_opt(o: &Option<String>) -> (out: Option<String>)
    ensures
        text_opt_view(out) == text_opt_view(*o),
{
    match o {
        Some(t) => Some(t.clone()),
        None => None,
    }
}

pub(crate) fn copy_texts(v: &Vec<String>) -> (out: Vec<String>)
    ensures
        texts_view(out@) == texts_view(v@),
{
    let mut out: Vec<String> = Vec::new();
    for i in 0..v.len()
        invariant
            out@.len() == i,
            forall|j: int| 0 <= j < i ==> #[trigger] out@[j]@ == v@[j]@,
    {
        out.push(v[i].clone());
    }
    assert(texts_view(out@) =~= texts_view(v@));
    out
}

pub(crate) fn copy_type(t: &Type) -> (out: Type)
    ensures
        out@ == t@,
    decreases t,
{
    match t {
        Type::Named(n) => Type::Named(n.clone()),
        Type::NonNullNamed(n) => Type::NonNullNamed(n.clone()),
        Type::List(inner) => Type::List(Box::new(copy_type(inner))),
        Type::NonNullList(inner) => Type::NonNullList(Box::new(copy_type(inner))),
    }
}

pub(crate) fn copy_locations(v: &Vec<DirectiveLocation>) -> (out: Vec<DirectiveLocation>)
    ensures
        out@ == v@,
{
    let mut out: Vec<DirectiveLocation> = Vec::new();
    for i in 0..v.len()
        invariant
            out@ == v@.take(i as int),
    {
        out.push(v[i]);
        assert(v@.take(i + 1) =~= v@.take(i as int).push(v@[i as int]));
    }
    assert(v@.take(v@.len() as int) =~= v@);
    out
}

pub(crate) fn copy_root_operations(v: &Vec<(OperationType, String)>) -> (out: Vec<(OperationType, String)>)
    ensures
        root_operations_view(out@) == root_operations_view(v@),
{
    let mut out: Vec<(OperationType, String)> = Vec::new();
    for i in 0..v.len()
        invariant
            out@.len() == i,
            forall|j: int|
                #![trigger out@[j]]
                0 <= j < i ==> out@[j].0 == v@[j].0 && out@[j].1@ == v@[j].1@,
    {
        let (op, name) = &v[i];
        out.push((*op, name.clone()));
    }
    assert(root_operations_view(out@) =~= root_operations_view(v@));
    out
}


// ---------------------------------------------------------------------------
// Lists of nodes, by view

pub(crate) fn duplicate_arguments(v: &Vec<Argument>) -> (out: Vec<Argument>)
    ensures
        arguments_view(out@) == arguments_view(v@),
{
    let out = duplicate_vec(v);
    assert(arguments_view(out@) =~= arguments_view(v@));
    out
}

pub(crate) fn duplicate_directives(v: &Vec<Directive>) -> (out: Vec<Directive>)
    ensures
        directives_view(out@) == directives_view(v@),
{
    let out = duplicate_vec(v);
    assert(directives_view(out@) =~= directives_view(v@));
    out
}

fn duplicate_variables(v: &Vec<VariableDefinition>) -> (out: Vec<VariableDefinition>)
    ensures
        variables_view(out@) == variables_view(v@),
{
    let out = duplicate_vec(v);
    assert(variables_view(out@) =~= variables_view(v@));
    out
}

fn duplicate_input_values(v: &Vec<InputValueDefinition>) -> (out: Vec<InputValueDefinition>)
    ensures
        input_values_view(out@) == input_values_view(v@),
{
    let out = duplicate_vec(v);
    assert(input_values_view(out@) =~= input_values_view(v@));
    out
}

fn duplicate_field_definitions(v: &Vec<FieldDefinition>) -> (out: Vec<FieldDefinition>)
    ensures
        field_definitions_view(out@) == field_definitions_view(v@),
{
    let out = duplicate_vec(v);
    assert(field_definitions_view(out@) =~= field_definitions_view(v@));
    out
}

fn duplicate_enum_values(v: &Vec<EnumValueDefinition>) -> (out: Vec<EnumValueDefinition>)
    ensures
        enum_values_view(out@) == enum_values_view(v@),
{
    let out = duplicate_vec(v);
    assert(enum_values_view(out@) =~= enum_values_view(v@));
    out
}

fn duplicate_definitions(v: &Vec<Definition>) -> (out: Vec<Definition>)
    ensures
        definitions_view(out@) == definitions_view(v@),
{
    let out = duplicate_vec(v);
    assert(definitions_view(out@) =~= definitions_view(v@));
    out
}

// ---------------------------------------------------------------------------
// Recursive nodes

#[verifier::loop_isolation(false)]
fn duplicate_value(value: &Value) -> (out: Value)
    ensures
        out@ == value@,
    decreases value,
{
    match value {
        Value::Null => Value::Null,
        Value::Enum(n) => Value::Enum(n.clone()),
        Value::Variable(n) => Value::Variable(n.clone()),
        Value::String(t) => Value::String(t.clone()),
        Value::Float(t) => Value::Float(t.clone()),
        Value::Int(t) => Value::Int(t.clone()),
        Value::Boolean(b) => Value::Boolean(*b),
        Value::List(items) => {
            let mut out: Vec<Value> = Vec::new();
            for i in 0..items.len()
                invariant
                    out@.len() == i,
                    forall|j: int| 0 <= j < i ==> #[trigger] out@[j]@ == items@[j]@,
            {
                proof {
                    assert(decreases_to!(value => items@[i as int]));
                }
                out.push(duplicate_value(&items[i]));
            }
            assert forall|j: int| 0 <= j < out@.len() implies #[trigger] values_view(out@)[j]
                == values_view(items@)[j] by {
                assert(out@[j]@ == items@[j]@);
            }
            assert(values_view(out@) =~= values_view(items@));
            Value::List(out)
        },
        Value::Object(fields) => {
            let mut out: Vec<(String, Value)> = Vec::new();
            for i in 0..fields.len()
                invariant
                    out@.len() == i,
                    forall|j: int|
                        #![trigger out@[j]]
                        0 <= j < i ==> out@[j].0@ == fields@[j].0@ && out@[j].1@ == fields@[j].1@,
            {
                proof {
                    assert(decreases_to!(value => fields@[i as int].1));
                }
                let (name, field_value) = &fields[i];
                out.push((name.clone(), duplicate_value(field_value)));
            }
            assert forall|j: int| 0 <= j < out@.len() implies #[trigger] object_fields_view(out@)[j]
                == object_fields_view(fields@)[j] by {
                assert(out@[j].1@ == fields@[j].1@);
            }
            assert(object_fields_view(out@) =~= object_fields_view(fields@));
            Value::Object(out)
        },
    }
}

fn duplicate_value_opt(value: &Option<Value>) -> (out: Option<Value>)
    ensures
        value_opt_view(out) == value_opt_view(*value),
{
    match value {
        Some(v) => Some(duplicate_value(v)),
        None => None,
    }
}

#[verifier::loop_isolation(false)]
fn duplicate_selection_set(set: &Vec<Selection>) -> (out: Vec<Selection>)
    ensures
        selections_view(out@) == selections_view(set@),
    decreases set,
{
    let mut out: Vec<Selection> = Vec::new();
    for i in 0..set.len()
        invariant
            out@.len() == i,
            forall|j: int| 0 <= j < i ==> #[trigger] out@[j]@ == set@[j]@,
    {
        proof {
            assert(decreases_to!(set => set@[i as int]));
        }
        let copy = match &set[i] {
            Selection::Field(field) => Selection::Field(duplicate_field(field)),
            Selection::InlineFragment(fragment) => Selection::InlineFragment(
                duplicate_inline_fragment(fragment),
            ),
            Selection::FragmentSpread(spread) => Selection::FragmentSpread(spread.duplicate()),
        };
        out.push(copy);
    }
    assert forall|j: int| 0 <= j < out@.len() implies #[trigger] selections_view(out@)[j]
        == selections_view(set@)[j] by {
        assert(out@[j]@ == set@[j]@);
    }
    assert(selections_view(out@) =~= selections_view(set@));
    out
}

fn duplicate_field(field: &Field) -> (out: Field)
    ensures
        out@ == field@,
    decreases field,
{
    Field {
        alias: copy_text_opt(&field.alias),
        name: field.name.clone(),
        arguments: duplicate_arguments(&field.arguments),
        directives: duplicate_directives(&field.directives),
        selection_set: duplicate_selection_set(&field.selection_set),
    }
}

fn duplicate_inline_fragment(fragment: &InlineFragment) -> (out: InlineFragment)
    ensures
        out@ == fragment@,
    decreases fragment,
{
    InlineFragment {
        type_condition: copy_text_opt(&fragment.type_condition),
        directives: duplicate_directives(&fragment.directives),
        selection_set: duplicate_selection_set(&fragment.selection_set),
    }
}

// ---------------------------------------------------------------------------
// Every node

impl Duplicate for Value {
    fn duplicate(&self) -> (out: Self) {
        duplicate_value(self)
    }
}

impl Duplicate for Type {
    fn duplicate(&self) -> (out: Self) {
        copy_type(self)
    }
}

impl Duplicate for Argument {
    fn duplicate(&self) -> (out: Self) {
        Argument { name: self.name.clone(), value: duplicate_value(&self.value) }
    }
}

impl Duplicate for Directive {
    fn duplicate(&self) -> (out: Self) {
        Directive { name: self.name.clone(), arguments: duplicate_arguments(&self.arguments) }
    }
}

impl Duplicate for VariableDefinition {
    fn duplicate(&self) -> (out: Self) {
        VariableDefinition {
            name: self.name.clone(),
            ty: copy_type(&self.ty),
            default_value: duplicate_value_opt(&self.default_value),
            directives: duplicate_directives(&self.directives),
        }
    }
}

impl Duplicate for InputValueDefinition {
    fn duplicate(&self) -> (out: Self) {
        InputValueDefinition {
            description: copy_text_opt(&self.description),
            name: self.name.clone(),
            ty: copy_type(&self.ty),
            default_value: duplicate_value_opt(&self.default_value),
            directives: duplicate_directives(&self.directives),
        }
    }
}

impl Duplicate for FieldDefinition {
    fn duplicate(&self) -> (out: Self) {
        FieldDefinition {
            description: copy_text_opt(&self.description),
            name: self.name.clone(),
            arguments: duplicate_input_values(&self.arguments),
            ty: copy_type(&self.ty),
            directives: duplicate_directives(&self.directives),
        }
    }
}

impl Duplicate for EnumValueDefinition {
    fn duplicate(&self) -> (out: Self) {
        EnumValueDefinition {
            description: copy_text_opt(&self.description),
            value: self.value.clone(),
            directives: duplicate_directives(&self.directives),
        }
    }
}

impl Duplicate for Selection {
    fn duplicate(&self) -> (out: Self) {
        match self {
            Selection::Field(field) => Selection::Field(duplicate_field(field)),
            Selection::InlineFragment(fragment) => Selection::InlineFragment(
                duplicate_inline_fragment(fragment),
            ),
            Selection::FragmentSpread(spread) => Selection::FragmentSpread(spread.duplicate()),
        }
    }
}

impl Duplicate for Field {
    fn duplicate(&self) -> (out: Self) {
        duplicate_field(self)
    }
}

impl Duplicate for FragmentSpread {
    fn duplicate(&self) -> (out: Self) {
        FragmentSpread {
            fragment_name: self.fragment_name.clone(),
            directives: duplicate_directives(&self.directives),
        }
    }
}

impl Duplicate for InlineFragment {
    fn duplicate(&self) -> (out: Self) {
        duplicate_inline_fragment(self)
    }
}

impl Duplicate for OperationDefinition {
    fn duplicate(&self) -> (out: Self) {
        OperationDefinition {
            operation_type: self.operation_type,
            name: copy_text_opt(&self.name),
            variables: duplicate_variables(&self.variables),
            directives: duplicate_directives(&self.directives),
            selection_set: duplicate_selection_set(&self.selection_set),
        }
    }
}

impl Duplicate for FragmentDefinition {
    fn duplicate(&self) -> (out: Self) {
        FragmentDefinition {
            name: self.name.clone(),
            type_condition: self.type_condition.clone(),
            directives: duplicate_directives(&self.directives),
            selection_set: duplicate_selection_set(&self.selection_set),
        }
    }
}

impl Duplicate for DirectiveDefinition {
    fn duplicate(&self) -> (out: Self) {
        DirectiveDefinition {
            description: copy_text_opt(&self.description),
            name: self.name.clone(),
            arguments: duplicate_input_values(&self.arguments),
            repeatable: self.repeatable,
            locations: copy_locations(&self.locations),
        }
    }
}

impl Duplicate for SchemaDefinition {
    fn duplicate(&self) -> (out: Self) {
        SchemaDefinition {
            description: copy_text_opt(&self.description),
            directives: duplicate_directives(&self.directives),
            root_operations: copy_root_operations(&self.root_operations),
        }
    }
}

impl Duplicate for ScalarTypeDefinition {
    fn duplicate(&self) -> (out: Self) {
        ScalarTypeDefinition {
            description: copy_text_opt(&self.description),
            name: self.name.clone(),
            directives: duplicate_directives(&self.directives),
        }
    }
}

impl Duplicate for ObjectTypeDefinition {
    fn duplicate(&self) -> (out: Self) {
        ObjectTypeDefinition {
            description: copy_text_opt(&self.description),
            name: self.name.clone(),
            implements_interfaces: copy_texts(&self.implements_interfaces),
            directives: duplicate_directives(&self.directives),
            fields: duplicate_field_definitions(&self.fields),
        }
    }
}

impl Duplicate for InterfaceTypeDefinition {
    fn duplicate(&self) -> (out: Self) {
        InterfaceTypeDefinition {
            description: copy_text_opt(&self.description),
            name: self.name.clone(),
            implements_interfaces: copy_texts(&self.implements_interfaces),
            directives: duplicate_directives(&self.directives),
            fields: duplicate_field_definitions(&self.fields),
        }
    }
}

impl Duplicate for UnionTypeDefinition {
    fn duplicate(&self) -> (out: Self) {
        UnionTypeDefinition {
            description: copy_text_opt(&self.description),
            name: self.name.clone(),
            directives: duplicate_directives(&self.directives),
            members: copy_texts(&self.members),
        }
    }
}

impl Duplicate for EnumTypeDefinition {
    fn duplicate(&self) -> (out: Self) {
        EnumTypeDefinition {
            description: copy_text_opt(&self.description),
            name: self.name.clone(),
            directives: duplicate_directives(&self.directives),
            values: duplicate_enum_values(&self.values),
        }
    }
}

impl Duplicate for InputObjectTypeDefinition {
    fn duplicate(&self) -> (out: Self) {
        InputObjectTypeDefinition {
            description: copy_text_opt(&self.description),
            name: self.name.clone(),
            directives: duplicate_directives(&self.directives),
            fields: duplicate_input_values(&self.fields),
        }
    }
}

impl Duplicate for SchemaExtension {
    fn duplicate(&self) -> (out: Self) {
        SchemaExtension {
            directives: duplicate_directives(&self.directives),
            root_operations: copy_root_operations(&self.root_operations),
        }
    }
}

impl Duplicate for ScalarTypeExtension {
    fn duplicate(&self) -> (out: Self) {
        ScalarTypeExtension {
            name: self.name.clone(),
            directives: duplicate_directives(&self.directives),
        }
    }
}

impl Duplicate for ObjectTypeExtension {
    fn duplicate(&self) -> (out: Self) {
        ObjectTypeExtension {
            name: self.name.clone(),
            implements_interfaces: copy_texts(&self.implements_interfaces),
            directives: duplicate_directives(&self.directives),
            fields: duplicate_field_definitions(&self.fields),
        }
    }
}

impl Duplicate for InterfaceTypeExtension {
    fn duplicate(&self) -> (out: Self) {
        InterfaceTypeExtension {
            name: self.name.clone(),
            implements_interfaces: copy_texts(&self.implements_interfaces),
            directives: duplicate_directives(&self.directives),
            fields: duplicate_field_definitions(&self.fields),
        }
    }
}

impl Duplicate for UnionTypeExtension {
    fn duplicate(&self) -> (out: Self) {
        UnionTypeExtension {
            name: self.name.clone(),
            directives: duplicate_directives(&self.directives),
            members: copy_texts(&self.members),
        }
    }
}

impl Duplicate for EnumTypeExtension {
    fn duplicate(&self) -> (out: Self) {
        EnumTypeExtension {
            name: self.name.clone(),
            directives: duplicate_directives(&self.directives),
            values: duplicate_enum_values(&self.values),
        }
    }
}

impl Duplicate for InputObjectTypeExtension {
    fn duplicate(&self) -> (out: Self) {
        InputObjectTypeExtension {
            name: self.name.clone(),
            directives: duplicate_directives(&self.directives),
            fields: duplicate_input_values(&self.fields),
        }
    }
}

impl Duplicate for Definition {
    fn duplicate(&self) -> (out: Self) {
        match self {
            Definition::OperationDefinition(d) => Definition::OperationDefinition(d.duplicate()),
            Definition::FragmentDefinition(d) => Definition::FragmentDefinition(d.duplicate()),
            Definition::DirectiveDefinition(d) => Definition::DirectiveDefinition(d.duplicate()),
            Definition::SchemaDefinition(d) => Definition::SchemaDefinition(d.duplicate()),
            Definition::ScalarTypeDefinition(d) => Definition::ScalarTypeDefinition(d.duplicate()),
            Definition::ObjectTypeDefinition(d) => Definition::ObjectTypeDefinition(d.duplicate()),
            Definition::InterfaceTypeDefinition(d) => Definition::InterfaceTypeDefinition(
                d.duplicate(),
            ),
            Definition::UnionTypeDefinition(d) => Definition::UnionTypeDefinition(d.duplicate()),
            Definition::EnumTypeDefinition(d) => Definition::EnumTypeDefinition(d.duplicate()),
            Definition::InputObjectTypeDefinition(d) => Definition::InputObjectTypeDefinition(
                d.duplicate(),
            ),
            Definition::SchemaExtension(d) => Definition::SchemaExtension(d.duplicate()),
            Definition::ScalarTypeExtension(d) => Definition::ScalarTypeExtension(d.duplicate()),
            Definition::ObjectTypeExtension(d) => Definition::ObjectTypeExtension(d.duplicate()),
            Definition::InterfaceTypeExtension(d) => Definition::InterfaceTypeExtension(
                d.duplicate(),
            ),
            Definition::UnionTypeExtension(d) => Definition::UnionTypeExtension(d.duplicate()),
            Definition::EnumTypeExtension(d) => Definition::EnumTypeExtension(d.duplicate()),
            Definition::InputObjectTypeExtension(d) => Definition::InputObjectTypeExtension(
                d.duplicate(),
            ),
        }
    }
}

impl Duplicate for Document {
    fn duplicate(&self) -> (out: Self) {
        Document { definitions: duplicate_definitions(&self.definitions) }
    }
}

// ---------------------------------------------------------------------------
// Clone

impl Clone for Value {
    /// A copy with the same view.
    fn clone(&self) -> (out: Self)
        ensures
            out@ == self@,
    {
        self.duplicate()
    }
}

impl Clone for Type {
    /// A copy with the same view.
    fn clone(&self) -> (out: Self)
        ensures
            out@ == self@,
    {
        self.duplicate()
    }
}

impl Clone for Argument {
    /// A copy with the same view.
    fn clone(&self) -> (out: Self)
        ensures
            out@ == self@,
    {
        self.duplicate()
    }
}

impl Clone for Directive {
    /// A copy with the same view.
    fn clone(&self) -> (out: Self)
        ensures
            out@ == self@,
    {
        self.duplicate()
    }
}

impl Clone for VariableDefinition {
    /// A copy with the same view.
    fn clone(&self) -> (out: Self)
        ensures
            out@ == self@,
    {
        self.duplicate()
    }
}

impl Clone for InputValueDefinition {
    /// A copy with the same view.
    fn clone(&self) -> (out: Self)
        ensures
            out@ == self@,
    {
        self.duplicate()
    }
}

impl Clone for FieldDefinition {
    /// A copy with the same view.
    fn clone(&self) -> (out: Self)
        ensures
            out@ == self@,
    {
        self.duplicate()
    }
}

impl Clone for EnumValueDefinition {
    /// A copy with the same view.
    fn clone(&self) -> (out: Self)
        ensures
            out@ == self@,
    {
        self.duplicate()
    }
}

impl Clone for Selection {
    /// A copy with the same view.
    fn clone(&self) -> (out: Self)
        ensures
            out@ == self@,
    {
        self.duplicate()
    }
}

impl Clone for Field {
    /// A copy with the same view.
    fn clone(&self) -> (out: Self)
        ensures
            out@ == self@,
    {
        self.duplicate()
    }
}

impl Clone for FragmentSpread {
    /// A copy with the same view.
    fn clone(&self) -> (out: Self)
        ensures
            out@ == self@,
    {
        self.duplicate()
    }
}

impl Clone for InlineFragment {
    /// A copy with the same view.
    fn clone(&self) -> (out: Self)
        ensures
            out@ == self@,
    {
        self.duplicate()
    }
}

impl Clone for OperationDefinition {
    /// A copy with the same view.
    fn clone(&self) -> (out: Self)
        ensures
            out@ == self@,
    {
        self.duplicate()
    }
}

impl Clone for FragmentDefinition {
    /// A copy with the same view.
    fn clone(&self) -> (out: Self)
        ensures
            out@ == self@,
    {
        self.duplicate()
    }
}

impl Clone for DirectiveDefinition {
    /// A copy with the same view.
    fn clone(&self) -> (out: Self)
        ensures
            out@ == self@,
    {
        self.duplicate()
    }
}

impl Clone for SchemaDefinition {
    /// A copy with the same view.
    fn clone(&self) -> (out: Self)
        ensures
            out@ == self@,
    {
        self.duplicate()
    }
}

impl Clone for ScalarTypeDefinition {
    /// A copy with the same view.
    fn clone(&self) -> (out: Self)
        ensures
            out@ == self@,
    {
        self.duplicate()
    }
}

impl Clone for ObjectTypeDefinition {
    /// A copy with the same view.
    fn clone(&self) -> (out: Self)
        ensures
            out@ == self@,
    {
        self.duplicate()
    }
}

impl Clone for InterfaceTypeDefinition {
    /// A copy with the same view.
    fn clone(&self) -> (out: Self)
        ensures
            out@ == self@,
    {
        self.duplicate()
    }
}

impl Clone for UnionTypeDefinition {
    /// A copy with the same view.
    fn clone(&self) -> (out: Self)
        ensures
            out@ == self@,
    {
        self.duplicate()
    }
}

impl Clone for EnumTypeDefinition {
    /// A copy with the same view.
    fn clone(&self) -> (out: Self)
        ensures
            out@ == self@,
    {
        self.duplicate()
    }
}

impl Clone for InputObjectTypeDefinition {
    /// A copy with the same view.
    fn clone(&self) -> (out: Self)
        ensures
            out@ == self@,
    {
        self.duplicate()
    }
}

impl Clone for SchemaExtension {
    /// A copy with the same view.
    fn clone(&self) -> (out: Self)
        ensures
            out@ == self@,
    {
        self.duplicate()
    }
}

impl Clone for ScalarTypeExtension {
    /// A copy with the same view.
    fn clone(&self) -> (out: Self)
        ensures
            out@ == self@,
    {
        self.duplicate()
    }
}

impl Clone for ObjectTypeExtension {
    /// A copy with the same view.
    fn clone(&self) -> (out: Self)
        ensures
            out@ == self@,
    {
        self.duplicate()
    }
}

impl Clone for InterfaceTypeExtension {
    /// A copy with the same view.
    fn clone(&self) -> (out: Self)
        ensures
            out@ == self@,
    {
        self.duplicate()
    }
}

impl Clone for UnionTypeExtension {
    /// A copy with the same view.
    fn clone(&self) -> (out: Self)
        ensures
            out@ == self@,
    {
        self.duplicate()
    }
}

impl Clone for EnumTypeExtension {
    /// A copy with the same view.
    fn clone(&self) -> (out: Self)
        ensures
            out@ == self@,
    {
        self.duplicate()
    }
}

impl Clone for InputObjectTypeExtension {
    /// A copy with the same view.
    fn clone(&self) -> (out: Self)
        ensures
            out@ == self@,
    {
        self.duplicate()
    }
}

impl Clone for Definition {
    /// A copy with the same view.
    fn clone(&self) -> (out: Self)
        ensures
            out@ == self@,
    {
        self.duplicate()
    }
}

impl Clone for Document {
    /// A copy with the same view.
    fn clone(&self) -> (out: Self)
        ensures
            out@ == self@,
    {
        self.duplicate()
    }
}

} // verus!
