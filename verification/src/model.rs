//! The mathematical model of a GraphQL document.
//!
//! Every executable AST type of [`crate::ast`] has a view here: the same
//! shape, with text as `Seq<char>` and lists as `Seq`. Contracts and laws
//! speak about these values.

use vstd::prelude::*;

use crate::ast::{DirectiveLocation, OperationType};

verus! {

/// Text: a name, a description or the content of a literal.
pub type Text = Seq<char>;

/// View of [`crate::ast::Value`].
pub enum SpecValue {
    Null,
    Enum(Text),
    Variable(Text),
    String(Text),
    Float(Text),
    Int(Text),
    Boolean(bool),
    List(Seq<SpecValue>),
    Object(Seq<(Text, SpecValue)>),
}

/// View of [`crate::ast::Type`].
pub enum SpecType {
    Named(Text),
    NonNullNamed(Text),
    List(Box<SpecType>),
    NonNullList(Box<SpecType>),
}

/// View of [`crate::ast::Argument`].
pub struct SpecArgument {
    pub name: Text,
    pub value: SpecValue,
}

/// View of [`crate::ast::Directive`].
pub struct SpecDirective {
    pub name: Text,
    pub arguments: Seq<SpecArgument>,
}

/// View of [`crate::ast::VariableDefinition`].
pub struct SpecVariableDefinition {
    pub name: Text,
    pub ty: SpecType,
    pub default_value: Option<SpecValue>,
    pub directives: Seq<SpecDirective>,
}

/// View of [`crate::ast::InputValueDefinition`].
pub struct SpecInputValueDefinition {
    pub description: Option<Text>,
    pub name: Text,
    pub ty: SpecType,
    pub default_value: Option<SpecValue>,
    pub directives: Seq<SpecDirective>,
}

/// View of [`crate::ast::FieldDefinition`].
pub struct SpecFieldDefinition {
    pub description: Option<Text>,
    pub name: Text,
    pub arguments: Seq<SpecInputValueDefinition>,
    pub ty: SpecType,
    pub directives: Seq<SpecDirective>,
}

/// View of [`crate::ast::EnumValueDefinition`].
pub struct SpecEnumValueDefinition {
    pub description: Option<Text>,
    pub value: Text,
    pub directives: Seq<SpecDirective>,
}

/// View of [`crate::ast::Selection`].
pub enum SpecSelection {
    Field(SpecField),
    FragmentSpread(SpecFragmentSpread),
    InlineFragment(SpecInlineFragment),
}

/// View of [`crate::ast::Field`].
pub struct SpecField {
    pub alias: Option<Text>,
    pub name: Text,
    pub arguments: Seq<SpecArgument>,
    pub directives: Seq<SpecDirective>,
    pub selection_set: Seq<SpecSelection>,
}

/// View of [`crate::ast::FragmentSpread`].
pub struct SpecFragmentSpread {
    pub fragment_name: Text,
    pub directives: Seq<SpecDirective>,
}

/// View of [`crate::ast::InlineFragment`].
pub struct SpecInlineFragment {
    pub type_condition: Option<Text>,
    pub directives: Seq<SpecDirective>,
    pub selection_set: Seq<SpecSelection>,
}

/// View of [`crate::ast::OperationDefinition`].
pub struct SpecOperationDefinition {
    pub operation_type: OperationType,
    pub name: Option<Text>,
    pub variables: Seq<SpecVariableDefinition>,
    pub directives: Seq<SpecDirective>,
    pub selection_set: Seq<SpecSelection>,
}

/// View of [`crate::ast::FragmentDefinition`].
pub struct SpecFragmentDefinition {
    pub name: Text,
    pub type_condition: Text,
    pub directives: Seq<SpecDirective>,
    pub selection_set: Seq<SpecSelection>,
}

/// View of [`crate::ast::DirectiveDefinition`].
pub struct SpecDirectiveDefinition {
    pub description: Option<Text>,
    pub name: Text,
    pub arguments: Seq<SpecInputValueDefinition>,
    pub repeatable: bool,
    pub locations: Seq<DirectiveLocation>,
}

/// View of [`crate::ast::SchemaDefinition`].
pub struct SpecSchemaDefinition {
    pub description: Option<Text>,
    pub directives: Seq<SpecDirective>,
    pub root_operations: Seq<(OperationType, Text)>,
}

/// View of [`crate::ast::ScalarTypeDefinition`].
pub struct SpecScalarTypeDefinition {
    pub description: Option<Text>,
    pub name: Text,
    pub directives: Seq<SpecDirective>,
}

/// View of [`crate::ast::ObjectTypeDefinition`].
pub struct SpecObjectTypeDefinition {
    pub description: Option<Text>,
    pub name: Text,
    pub implements_interfaces: Seq<Text>,
    pub directives: Seq<SpecDirective>,
    pub fields: Seq<SpecFieldDefinition>,
}

/// View of [`crate::ast::InterfaceTypeDefinition`].
pub struct SpecInterfaceTypeDefinition {
    pub description: Option<Text>,
    pub name: Text,
    pub implements_interfaces: Seq<Text>,
    pub directives: Seq<SpecDirective>,
    pub fields: Seq<SpecFieldDefinition>,
}

/// View of [`crate::ast::UnionTypeDefinition`].
pub struct SpecUnionTypeDefinition {
    pub description: Option<Text>,
    pub name: Text,
    pub directives: Seq<SpecDirective>,
    pub members: Seq<Text>,
}

/// View of [`crate::ast::EnumTypeDefinition`].
pub struct SpecEnumTypeDefinition {
    pub description: Option<Text>,
    pub name: Text,
    pub directives: Seq<SpecDirective>,
    pub values: Seq<SpecEnumValueDefinition>,
}

/// View of [`crate::ast::InputObjectTypeDefinition`].
pub struct SpecInputObjectTypeDefinition {
    pub description: Option<Text>,
    pub name: Text,
    pub directives: Seq<SpecDirective>,
    pub fields: Seq<SpecInputValueDefinition>,
}

/// View of [`crate::ast::SchemaExtension`].
pub struct SpecSchemaExtension {
    pub directives: Seq<SpecDirective>,
    pub root_operations: Seq<(OperationType, Text)>,
}

/// View of [`crate::ast::ScalarTypeExtension`].
pub struct SpecScalarTypeExtension {
    pub name: Text,
    pub directives: Seq<SpecDirective>,
}

/// View of [`crate::ast::ObjectTypeExtension`].
pub struct SpecObjectTypeExtension {
    pub name: Text,
    pub implements_interfaces: Seq<Text>,
    pub directives: Seq<SpecDirective>,
    pub fields: Seq<SpecFieldDefinition>,
}

/// View of [`crate::ast::InterfaceTypeExtension`].
pub struct SpecInterfaceTypeExtension {
    pub name: Text,
    pub implements_interfaces: Seq<Text>,
    pub directives: Seq<SpecDirective>,
    pub fields: Seq<SpecFieldDefinition>,
}

/// View of [`crate::ast::UnionTypeExtension`].
pub struct SpecUnionTypeExtension {
    pub name: Text,
    pub directives: Seq<SpecDirective>,
    pub members: Seq<Text>,
}

/// View of [`crate::ast::EnumTypeExtension`].
pub struct SpecEnumTypeExtension {
    pub name: Text,
    pub directives: Seq<SpecDirective>,
    pub values: Seq<SpecEnumValueDefinition>,
}

/// View of [`crate::ast::InputObjectTypeExtension`].
pub struct SpecInputObjectTypeExtension {
    pub name: Text,
    pub directives: Seq<SpecDirective>,
    pub fields: Seq<SpecInputValueDefinition>,
}

/// View of [`crate::ast::Definition`].
pub enum SpecDefinition {
    OperationDefinition(SpecOperationDefinition),
    FragmentDefinition(SpecFragmentDefinition),
    DirectiveDefinition(SpecDirectiveDefinition),
    SchemaDefinition(SpecSchemaDefinition),
    ScalarTypeDefinition(SpecScalarTypeDefinition),
    ObjectTypeDefinition(SpecObjectTypeDefinition),
    InterfaceTypeDefinition(SpecInterfaceTypeDefinition),
    UnionTypeDefinition(SpecUnionTypeDefinition),
    EnumTypeDefinition(SpecEnumTypeDefinition),
    InputObjectTypeDefinition(SpecInputObjectTypeDefinition),
    SchemaExtension(SpecSchemaExtension),
    ScalarTypeExtension(SpecScalarTypeExtension),
    ObjectTypeExtension(SpecObjectTypeExtension),
    InterfaceTypeExtension(SpecInterfaceTypeExtension),
    UnionTypeExtension(SpecUnionTypeExtension),
    EnumTypeExtension(SpecEnumTypeExtension),
    InputObjectTypeExtension(SpecInputObjectTypeExtension),
}

/// View of [`crate::ast::Document`].
pub struct SpecDocument {
    pub definitions: Seq<SpecDefinition>,
}

} // verus!
