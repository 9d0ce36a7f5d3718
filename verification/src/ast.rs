//! The GraphQL document AST that the redactor walks.
//!
//! The shape follows the GraphQL specification's grammar: a document is a
//! list of definitions (executable, type system, and type system extension),
//! and literal values live in arguments, default values and nested lists and
//! objects. Each type has a view in [`crate::model`].

use vstd::prelude::*;

use crate::model::{
    SpecArgument, SpecDefinition, SpecDirective, SpecDirectiveDefinition, SpecDocument,
    SpecEnumTypeDefinition, SpecEnumTypeExtension, SpecEnumValueDefinition, SpecField,
    SpecFieldDefinition, SpecFragmentDefinition, SpecFragmentSpread, SpecInlineFragment,
    SpecInputObjectTypeDefinition, SpecInputObjectTypeExtension, SpecInputValueDefinition,
    SpecInterfaceTypeDefinition, SpecInterfaceTypeExtension, SpecObjectTypeDefinition,
    SpecObjectTypeExtension, SpecOperationDefinition, SpecScalarTypeDefinition,
    SpecScalarTypeExtension, SpecSchemaDefinition, SpecSchemaExtension, SpecSelection, SpecType,
    SpecUnionTypeDefinition, SpecUnionTypeExtension, SpecValue, SpecVariableDefinition, Text,
};

verus! {

/// The kind of an operation, or of a root operation of a schema.
#[derive(Clone, Copy, Debug, PartialEq, Eq, Structural, Hash)]
pub enum OperationType {
    Query,
    Mutation,
    Subscription,
}

/// A location where a directive may be used.
#[derive(Clone, Copy, Debug, PartialEq, Eq, Structural, Hash)]
pub enum DirectiveLocation {
    Query,
    Mutation,
    Subscription,
    Field,
    FragmentDefinition,
    FragmentSpread,
    InlineFragment,
    VariableDefinition,
    Schema,
    Scalar,
    Object,
    FieldDefinition,
    ArgumentDefinition,
    Interface,
    Union,
    Enum,
    EnumValue,
    InputObject,
    InputFieldDefinition,
}

/// A literal value, or a variable reference, as written in a document.
///
/// Numbers keep the text they were written with, so that no range or
/// precision is lost.
#[derive(Debug, PartialEq, Eq, Hash)]
pub enum Value {
    Null,
    Enum(String),
    Variable(String),
    String(String),
    Float(String),
    Int(String),
    Boolean(bool),
    List(Vec<Value>),
    Object(Vec<(String, Value)>),
}

/// A reference to a type: `Foo`, `Foo!`, `[T]` or `[T]!`.
#[derive(Debug, PartialEq, Eq, Hash)]
pub enum Type {
    Named(String),
    NonNullNamed(String),
    List(Box<Type>),
    NonNullList(Box<Type>),
}

/// `name: value` in a field selection or a directive.
#[derive(Debug, PartialEq, Eq, Hash)]
pub struct Argument {
    pub name: String,
    pub value: Value,
}

/// `@name(arguments)`.
#[derive(Debug, PartialEq, Eq, Hash)]
pub struct Directive {
    pub name: String,
    pub arguments: Vec<Argument>,
}

/// `$name: Type = default @directives` in an operation.
#[derive(Debug, PartialEq, Eq, Hash)]
pub struct VariableDefinition {
    pub name: String,
    pub ty: Type,
    pub default_value: Option<Value>,
    pub directives: Vec<Directive>,
}

/// An argument of a field or directive definition, or a field of an input
/// object type.
#[derive(Debug, PartialEq, Eq, Hash)]
pub struct InputValueDefinition {
    pub description: Option<String>,
    pub name: String,
    pub ty: Type,
    pub default_value: Option<Value>,
    pub directives: Vec<Directive>,
}

/// A field of an object or interface type.
#[derive(Debug, PartialEq, Eq, Hash)]
pub struct FieldDefinition {
    pub description: Option<String>,
    pub name: String,
    pub arguments: Vec<InputValueDefinition>,
    pub ty: Type,
    pub directives: Vec<Directive>,
}

/// A value of an enum type definition.
#[derive(Debug, PartialEq, Eq, Hash)]
pub struct EnumValueDefinition {
    pub description: Option<String>,
    pub value: String,
    pub directives: Vec<Directive>,
}

/// One entry of a selection set.
#[derive(Debug, PartialEq, Eq, Hash)]
pub enum Selection {
    Field(Field),
    FragmentSpread(FragmentSpread),
    InlineFragment(InlineFragment),
}

/// `alias: name(arguments) @directives { selection_set }`.
#[derive(Debug, PartialEq, Eq, Hash)]
pub struct Field {
    pub alias: Option<String>,
    pub name: String,
    pub arguments: Vec<Argument>,
    pub directives: Vec<Directive>,
    pub selection_set: Vec<Selection>,
}

/// `...fragment_name @directives`.
#[derive(Debug, PartialEq, Eq, Hash)]
pub struct FragmentSpread {
    pub fragment_name: String,
    pub directives: Vec<Directive>,
}

/// `... on Type @directives { selection_set }`.
#[derive(Debug, PartialEq, Eq, Hash)]
pub struct InlineFragment {
    pub type_condition: Option<String>,
    pub directives: Vec<Directive>,
    pub selection_set: Vec<Selection>,
}

/// A query, mutation or subscription.
#[derive(Debug, PartialEq, Eq, Hash)]
pub struct OperationDefinition {
    pub operation_type: OperationType,
    pub name: Option<String>,
    pub variables: Vec<VariableDefinition>,
    pub directives: Vec<Directive>,
    pub selection_set: Vec<Selection>,
}

/// `fragment name on Type @directives { selection_set }`.
#[derive(Debug, PartialEq, Eq, Hash)]
pub struct FragmentDefinition {
    pub name: String,
    pub type_condition: String,
    pub directives: Vec<Directive>,
    pub selection_set: Vec<Selection>,
}

/// `directive @name(arguments) repeatable on locations`.
#[derive(Debug, PartialEq, Eq, Hash)]
pub struct DirectiveDefinition {
    pub description: Option<String>,
    pub name: String,
    pub arguments: Vec<InputValueDefinition>,
    pub repeatable: bool,
    pub locations: Vec<DirectiveLocation>,
}

/// `schema @directives { root_operations }`.
#[derive(Debug, PartialEq, Eq, Hash)]
pub struct SchemaDefinition {
    pub description: Option<String>,
    pub directives: Vec<Directive>,
    pub root_operations: Vec<(OperationType, String)>,
}

/// `scalar Name @directives`.
#[derive(Debug, PartialEq, Eq, Hash)]
pub struct ScalarTypeDefinition {
    pub description: Option<String>,
    pub name: String,
    pub directives: Vec<Directive>,
}

/// `type Name implements I @directives { fields }`.
#[derive(Debug, PartialEq, Eq, Hash)]
pub struct ObjectTypeDefinition {
    pub description: Option<String>,
    pub name: String,
    pub implements_interfaces: Vec<String>,
    pub directives: Vec<Directive>,
    pub fields: Vec<FieldDefinition>,
}

/// `interface Name implements I @directives { fields }`.
#[derive(Debug, PartialEq, Eq, Hash)]
pub struct InterfaceTypeDefinition {
    pub description: Option<String>,
    pub name: String,
    pub implements_interfaces: Vec<String>,
    pub directives: Vec<Directive>,
    pub fields: Vec<FieldDefinition>,
}

/// `union Name @directives = members`.
#[derive(Debug, PartialEq, Eq, Hash)]
pub struct UnionTypeDefinition {
    pub description: Option<String>,
    pub name: String,
    pub directives: Vec<Directive>,
    pub members: Vec<String>,
}

/// `enum Name @directives { values }`.
#[derive(Debug, PartialEq, Eq, Hash)]
pub struct EnumTypeDefinition {
    pub description: Option<String>,
    pub name: String,
    pub directives: Vec<Directive>,
    pub values: Vec<EnumValueDefinition>,
}

/// `input Name @directives { fields }`.
#[derive(Debug, PartialEq, Eq, Hash)]
pub struct InputObjectTypeDefinition {
    pub description: Option<String>,
    pub name: String,
    pub directives: Vec<Directive>,
    pub fields: Vec<InputValueDefinition>,
}

/// `extend schema @directives { root_operations }`.
#[derive(Debug, PartialEq, Eq, Hash)]
pub struct SchemaExtension {
    pub directives: Vec<Directive>,
    pub root_operations: Vec<(OperationType, String)>,
}

/// `extend scalar Name @directives`.
#[derive(Debug, PartialEq, Eq, Hash)]
pub struct ScalarTypeExtension {
    pub name: String,
    pub directives: Vec<Directive>,
}

/// `extend type Name implements I @directives { fields }`.
#[derive(Debug, PartialEq, Eq, Hash)]
pub struct ObjectTypeExtension {
    pub name: String,
    pub implements_interfaces: Vec<String>,
    pub directives: Vec<Directive>,
    pub fields: Vec<FieldDefinition>,
}

/// `extend interface Name implements I @directives { fields }`.
#[derive(Debug, PartialEq, Eq, Hash)]
pub struct InterfaceTypeExtension {
    pub name: String,
    pub implements_interfaces: Vec<String>,
    pub directives: Vec<Directive>,
    pub fields: Vec<FieldDefinition>,
}

/// `extend union Name @directives = members`.
#[derive(Debug, PartialEq, Eq, Hash)]
pub struct UnionTypeExtension {
    pub name: String,
    pub directives: Vec<Directive>,
    pub members: Vec<String>,
}

/// `extend enum Name @directives { values }`.
#[derive(Debug, PartialEq, Eq, Hash)]
pub struct EnumTypeExtension {
    pub name: String,
    pub directives: Vec<Directive>,
    pub values: Vec<EnumValueDefinition>,
}

/// `extend input Name @directives { fields }`.
#[derive(Debug, PartialEq, Eq, Hash)]
pub struct InputObjectTypeExtension {
    pub name: String,
    pub directives: Vec<Directive>,
    pub fields: Vec<InputValueDefinition>,
}

/// A top-level definition of any kind.
#[derive(Debug, PartialEq, Eq, Hash)]
pub enum Definition {
    OperationDefinition(OperationDefinition),
    FragmentDefinition(FragmentDefinition),
    DirectiveDefinition(DirectiveDefinition),
    SchemaDefinition(SchemaDefinition),
    ScalarTypeDefinition(ScalarTypeDefinition),
    ObjectTypeDefinition(ObjectTypeDefinition),
    InterfaceTypeDefinition(InterfaceTypeDefinition),
    UnionTypeDefinition(UnionTypeDefinition),
    EnumTypeDefinition(EnumTypeDefinition),
    InputObjectTypeDefinition(InputObjectTypeDefinition),
    SchemaExtension(SchemaExtension),
    ScalarTypeExtension(ScalarTypeExtension),
    ObjectTypeExtension(ObjectTypeExtension),
    InterfaceTypeExtension(InterfaceTypeExtension),
    UnionTypeExtension(UnionTypeExtension),
    EnumTypeExtension(EnumTypeExtension),
    InputObjectTypeExtension(InputObjectTypeExtension),
}

/// A GraphQL document: executable definitions, type system definitions, or
/// both.
#[derive(Debug, PartialEq, Eq, Hash)]
pub struct Document {
    pub definitions: Vec<Definition>,
}

// ---------------------------------------------------------------------------
// Views

/// View of optional text.
pub open spec fn text_opt_view(o: Option<String>) -> Option<Text> {
    match o {
        Some(t) => Some(t@),
        None => None,
    }
}

/// View of a list of names.
pub open spec fn texts_view(s: Seq<String>) -> Seq<Text> {
    s.map_values(|t: String| t@)
}

/// View of a value.
pub open spec fn value_view(v: Value) -> SpecValue
    decreases v,
{
    match v {
        Value::Null => SpecValue::Null,
        Value::Enum(n) => SpecValue::Enum(n@),
        Value::Variable(n) => SpecValue::Variable(n@),
        Value::String(s) => SpecValue::String(s@),
        Value::Float(s) => SpecValue::Float(s@),
        Value::Int(s) => SpecValue::Int(s@),
        Value::Boolean(b) => SpecValue::Boolean(b),
        Value::List(items) => SpecValue::List(values_view(items@)),
        Value::Object(fields) => SpecValue::Object(object_fields_view(fields@)),
    }
}

/// View of the items of a list value.
pub open spec fn values_view(s: Seq<Value>) -> Seq<SpecValue>
    decreases s,
{
    Seq::new(s.len(), |i: int| if 0 <= i < s.len() { value_view(s[i]) } else { SpecValue::Null })
}

/// View of the fields of an object value.
pub open spec fn object_fields_view(s: Seq<(String, Value)>) -> Seq<(Text, SpecValue)>
    decreases s,
{
    Seq::new(
        s.len(),
        |i: int|
            if 0 <= i < s.len() {
                (s[i].0@, value_view(s[i].1))
            } else {
                (Seq::empty(), SpecValue::Null)
            },
    )
}

/// View of an optional value.
pub open spec fn value_opt_view(o: Option<Value>) -> Option<SpecValue> {
    match o {
        Some(v) => Some(value_view(v)),
        None => None,
    }
}

/// View of a type reference.
pub open spec fn type_view(t: Type) -> SpecType
    decreases t,
{
    match t {
        Type::Named(n) => SpecType::Named(n@),
        Type::NonNullNamed(n) => SpecType::NonNullNamed(n@),
        Type::List(inner) => SpecType::List(Box::new(type_view(*inner))),
        Type::NonNullList(inner) => SpecType::NonNullList(Box::new(type_view(*inner))),
    }
}

/// View of a selection.
pub open spec fn selection_view(s: Selection) -> SpecSelection
    decreases s,
{
    match s {
        Selection::Field(f) => SpecSelection::Field(field_view(f)),
        Selection::FragmentSpread(f) => SpecSelection::FragmentSpread(f@),
        Selection::InlineFragment(f) => SpecSelection::InlineFragment(inline_fragment_view(f)),
    }
}

/// View of a selection set.
pub open spec fn selections_view(s: Seq<Selection>) -> Seq<SpecSelection>
    decreases s,
{
    Seq::new(
        s.len(),
        |i: int|
            if 0 <= i < s.len() {
                selection_view(s[i])
            } else {
                SpecSelection::FragmentSpread(SpecFragmentSpread { fragment_name: Seq::empty(), directives: Seq::empty() })
            },
    )
}

/// View of a field selection.
pub open spec fn field_view(f: Field) -> SpecField
    decreases f,
{
    SpecField {
        alias: text_opt_view(f.alias),
        name: f.name@,
        arguments: arguments_view(f.arguments@),
        directives: directives_view(f.directives@),
        selection_set: selections_view(f.selection_set@),
    }
}

/// View of an inline fragment.
pub open spec fn inline_fragment_view(f: InlineFragment) -> SpecInlineFragment
    decreases f,
{
    SpecInlineFragment {
        type_condition: text_opt_view(f.type_condition),
        directives: directives_view(f.directives@),
        selection_set: selections_view(f.selection_set@),
    }
}

/// View of a list of arguments.
pub open spec fn arguments_view(s: Seq<Argument>) -> Seq<SpecArgument> {
    s.map_values(|a: Argument| a@)
}

/// View of the variable definitions of an operation.
pub open spec fn variables_view(s: Seq<VariableDefinition>) -> Seq<SpecVariableDefinition> {
    s.map_values(|v: VariableDefinition| v@)
}

/// View of the definitions of a document.
pub open spec fn definitions_view(s: Seq<Definition>) -> Seq<SpecDefinition> {
    s.map_values(|d: Definition| d@)
}

/// View of a list of directives.
pub open spec fn directives_view(s: Seq<Directive>) -> Seq<SpecDirective> {
    s.map_values(|d: Directive| d@)
}

/// View of a list of input value definitions.
pub open spec fn input_values_view(s: Seq<InputValueDefinition>) -> Seq<SpecInputValueDefinition> {
    s.map_values(|d: InputValueDefinition| d@)
}

/// View of a list of field definitions.
pub open spec fn field_definitions_view(s: Seq<FieldDefinition>) -> Seq<SpecFieldDefinition> {
    s.map_values(|d: FieldDefinition| d@)
}

/// View of a list of enum value definitions.
pub open spec fn enum_values_view(s: Seq<EnumValueDefinition>) -> Seq<SpecEnumValueDefinition> {
    s.map_values(|d: EnumValueDefinition| d@)
}

/// View of the root operations of a schema definition or extension.
pub open spec fn root_operations_view(s: Seq<(OperationType, String)>) -> Seq<(OperationType, Text)> {
    s.map_values(|r: (OperationType, String)| (r.0, r.1@))
}

impl View for Value {
    type V = SpecValue;

    open spec fn view(&self) -> SpecValue {
        value_view(*self)
    }
}

impl View for Type {
    type V = SpecType;

    open spec fn view(&self) -> SpecType {
        type_view(*self)
    }
}

impl View for Argument {
    type V = SpecArgument;

    open spec fn view(&self) -> SpecArgument {
        SpecArgument { name: self.name@, value: value_view(self.value) }
    }
}

impl View for Directive {
    type V = SpecDirective;

    open spec fn view(&self) -> SpecDirective {
        SpecDirective { name: self.name@, arguments: arguments_view(self.arguments@) }
    }
}

impl View for VariableDefinition {
    type V = SpecVariableDefinition;

    open spec fn view(&self) -> SpecVariableDefinition {
        SpecVariableDefinition {
            name: self.name@,
            ty: type_view(self.ty),
            default_value: value_opt_view(self.default_value),
            directives: directives_view(self.directives@),
        }
    }
}

impl View for InputValueDefinition {
    type V = SpecInputValueDefinition;

    open spec fn view(&self) -> SpecInputValueDefinition {
        SpecInputValueDefinition {
            description: text_opt_view(self.description),
            name: self.name@,
            ty: type_view(self.ty),
            default_value: value_opt_view(self.default_value),
            directives: directives_view(self.directives@),
        }
    }
}

impl View for FieldDefinition {
    type V = SpecFieldDefinition;

    open spec fn view(&self) -> SpecFieldDefinition {
        SpecFieldDefinition {
            description: text_opt_view(self.description),
            name: self.name@,
            arguments: input_values_view(self.arguments@),
            ty: type_view(self.ty),
            directives: directives_view(self.directives@),
        }
    }
}

impl View for EnumValueDefinition {
    type V = SpecEnumValueDefinition;

    open spec fn view(&self) -> SpecEnumValueDefinition {
        SpecEnumValueDefinition {
            description: text_opt_view(self.description),
            value: self.value@,
            directives: directives_view(self.directives@),
        }
    }
}

impl View for Selection {
    type V = SpecSelection;

    open spec fn view(&self) -> SpecSelection {
        selection_view(*self)
    }
}

impl View for Field {
    type V = SpecField;

    open spec fn view(&self) -> SpecField {
        field_view(*self)
    }
}

impl View for FragmentSpread {
    type V = SpecFragmentSpread;

    open spec fn view(&self) -> SpecFragmentSpread {
        SpecFragmentSpread {
            fragment_name: self.fragment_name@,
            directives: directives_view(self.directives@),
        }
    }
}

impl View for InlineFragment {
    type V = SpecInlineFragment;

    open spec fn view(&self) -> SpecInlineFragment {
        inline_fragment_view(*self)
    }
}

impl View for OperationDefinition {
    type V = SpecOperationDefinition;

    open spec fn view(&self) -> SpecOperationDefinition {
        SpecOperationDefinition {
            operation_type: self.operation_type,
            name: text_opt_view(self.name),
            variables: variables_view(self.variables@),
            directives: directives_view(self.directives@),
            selection_set: selections_view(self.selection_set@),
        }
    }
}

impl View for FragmentDefinition {
    type V = SpecFragmentDefinition;

    open spec fn view(&self) -> SpecFragmentDefinition {
        SpecFragmentDefinition {
            name: self.name@,
            type_condition: self.type_condition@,
            directives: directives_view(self.directives@),
            selection_set: selections_view(self.selection_set@),
        }
    }
}

impl View for DirectiveDefinition {
    type V = SpecDirectiveDefinition;

    open spec fn view(&self) -> SpecDirectiveDefinition {
        SpecDirectiveDefinition {
            description: text_opt_view(self.description),
            name: self.name@,
            arguments: input_values_view(self.arguments@),
            repeatable: self.repeatable,
            locations: self.locations@,
        }
    }
}

impl View for SchemaDefinition {
    type V = SpecSchemaDefinition;

    open spec fn view(&self) -> SpecSchemaDefinition {
        SpecSchemaDefinition {
            description: text_opt_view(self.description),
            directives: directives_view(self.directives@),
            root_operations: root_operations_view(self.root_operations@),
        }
    }
}

impl View for ScalarTypeDefinition {
    type V = SpecScalarTypeDefinition;

    open spec fn view(&self) -> SpecScalarTypeDefinition {
        SpecScalarTypeDefinition {
            description: text_opt_view(self.description),
            name: self.name@,
            directives: directives_view(self.directives@),
        }
    }
}

impl View for ObjectTypeDefinition {
    type V = SpecObjectTypeDefinition;

    open spec fn view(&self) -> SpecObjectTypeDefinition {
        SpecObjectTypeDefinition {
            description: text_opt_view(self.description),
            name: self.name@,
            implements_interfaces: texts_view(self.implements_interfaces@),
            directives: directives_view(self.directives@),
            fields: field_definitions_view(self.fields@),
        }
    }
}

impl View for InterfaceTypeDefinition {
    type V = SpecInterfaceTypeDefinition;

    open spec fn view(&self) -> SpecInterfaceTypeDefinition {
        SpecInterfaceTypeDefinition {
            description: text_opt_view(self.description),
            name: self.name@,
            implements_interfaces: texts_view(self.implements_interfaces@),
            directives: directives_view(self.directives@),
            fields: field_definitions_view(self.fields@),
        }
    }
}

impl View for UnionTypeDefinition {
    type V = SpecUnionTypeDefinition;

    open spec fn view(&self) -> SpecUnionTypeDefinition {
        SpecUnionTypeDefinition {
            description: text_opt_view(self.description),
            name: self.name@,
            directives: directives_view(self.directives@),
            members: texts_view(self.members@),
        }
    }
}

impl View for EnumTypeDefinition {
    type V = SpecEnumTypeDefinition;

    open spec fn view(&self) -> SpecEnumTypeDefinition {
        SpecEnumTypeDefinition {
            description: text_opt_view(self.description),
            name: self.name@,
            directives: directives_view(self.directives@),
            values: enum_values_view(self.values@),
        }
    }
}

impl View for InputObjectTypeDefinition {
    type V = SpecInputObjectTypeDefinition;

    open spec fn view(&self) -> SpecInputObjectTypeDefinition {
        SpecInputObjectTypeDefinition {
            description: text_opt_view(self.description),
            name: self.name@,
            directives: directives_view(self.directives@),
            fields: input_values_view(self.fields@),
        }
    }
}

impl View for SchemaExtension {
    type V = SpecSchemaExtension;

    open spec fn view(&self) -> SpecSchemaExtension {
        SpecSchemaExtension {
            directives: directives_view(self.directives@),
            root_operations: root_operations_view(self.root_operations@),
        }
    }
}

impl View for ScalarTypeExtension {
    type V = SpecScalarTypeExtension;

    open spec fn view(&self) -> SpecScalarTypeExtension {
        SpecScalarTypeExtension { name: self.name@, directives: directives_view(self.directives@) }
    }
}

impl View for ObjectTypeExtension {
    type V = SpecObjectTypeExtension;

    open spec fn view(&self) -> SpecObjectTypeExtension {
        SpecObjectTypeExtension {
            name: self.name@,
            implements_interfaces: texts_view(self.implements_interfaces@),
            directives: directives_view(self.directives@),
            fields: field_definitions_view(self.fields@),
        }
    }
}

impl View for InterfaceTypeExtension {
    type V = SpecInterfaceTypeExtension;

    open spec fn view(&self) -> SpecInterfaceTypeExtension {
        SpecInterfaceTypeExtension {
            name: self.name@,
            implements_interfaces: texts_view(self.implements_interfaces@),
            directives: directives_view(self.directives@),
            fields: field_definitions_view(self.fields@),
        }
    }
}

impl View for UnionTypeExtension {
    type V = SpecUnionTypeExtension;

    open spec fn view(&self) -> SpecUnionTypeExtension {
        SpecUnionTypeExtension {
            name: self.name@,
            directives: directives_view(self.directives@),
            members: texts_view(self.members@),
        }
    }
}

impl View for EnumTypeExtension {
    type V = SpecEnumTypeExtension;

    open spec fn view(&self) -> SpecEnumTypeExtension {
        SpecEnumTypeExtension {
            name: self.name@,
            directives: directives_view(self.directives@),
            values: enum_values_view(self.values@),
        }
    }
}

impl View for InputObjectTypeExtension {
    type V = SpecInputObjectTypeExtension;

    open spec fn view(&self) -> SpecInputObjectTypeExtension {
        SpecInputObjectTypeExtension {
            name: self.name@,
            directives: directives_view(self.directives@),
            fields: input_values_view(self.fields@),
        }
    }
}

impl View for Definition {
    type V = SpecDefinition;

    open spec fn view(&self) -> SpecDefinition {
        match self {
            Definition::OperationDefinition(d) => SpecDefinition::OperationDefinition(d@),
            Definition::FragmentDefinition(d) => SpecDefinition::FragmentDefinition(d@),
            Definition::DirectiveDefinition(d) => SpecDefinition::DirectiveDefinition(d@),
            Definition::SchemaDefinition(d) => SpecDefinition::SchemaDefinition(d@),
            Definition::ScalarTypeDefinition(d) => SpecDefinition::ScalarTypeDefinition(d@),
            Definition::ObjectTypeDefinition(d) => SpecDefinition::ObjectTypeDefinition(d@),
            Definition::InterfaceTypeDefinition(d) => SpecDefinition::InterfaceTypeDefinition(d@),
            Definition::UnionTypeDefinition(d) => SpecDefinition::UnionTypeDefinition(d@),
            Definition::EnumTypeDefinition(d) => SpecDefinition::EnumTypeDefinition(d@),
            Definition::InputObjectTypeDefinition(d) => SpecDefinition::InputObjectTypeDefinition(d@),
            Definition::SchemaExtension(d) => SpecDefinition::SchemaExtension(d@),
            Definition::ScalarTypeExtension(d) => SpecDefinition::ScalarTypeExtension(d@),
            Definition::ObjectTypeExtension(d) => SpecDefinition::ObjectTypeExtension(d@),
            Definition::InterfaceTypeExtension(d) => SpecDefinition::InterfaceTypeExtension(d@),
            Definition::UnionTypeExtension(d) => SpecDefinition::UnionTypeExtension(d@),
            Definition::EnumTypeExtension(d) => SpecDefinition::EnumTypeExtension(d@),
            Definition::InputObjectTypeExtension(d) => SpecDefinition::InputObjectTypeExtension(d@),
        }
    }
}

impl View for Document {
    type V = SpecDocument;

    open spec fn view(&self) -> SpecDocument {
        SpecDocument { definitions: definitions_view(self.definitions@) }
    }
}

} // verus!
