//! The nodes of the syntax tree, and what each of them is as a mathematical
//! value.
//!
//! Every node type has a deep view: strings become sequences of characters,
//! vectors become sequences of views, and wrappers around a single name
//! become that name. The parser's contracts are stated over these views.

use crate::error::{ParseError, ParseErrorView, ParseResult, result_view};
use crate::token::{Token, TokenKind, TokenView};
use std::rc::Rc;
use vstd::prelude::*;

pub mod object_type_extension;

verus! {

/// The name that a token carries, or the error for a token that is no name.
pub open spec fn name_of(t: TokenView) -> Result<Seq<char>, ParseErrorView> {
    if t.kind == TokenKind::Name {
        Ok(t.text)
    } else {
        Err(
            ParseErrorView::UnexpectedToken {
                expected: "Token<Name>"@,
                received: t.render(),
                location: t.location,
            },
        )
    }
}

/// The string that a token carries, or the error for a token that is no
/// string.
pub open spec fn string_of(t: TokenView) -> Result<StringValueView, ParseErrorView> {
    if t.kind == TokenKind::Str {
        Ok(StringValueView { value: t.text, block: false })
    } else if t.kind == TokenKind::BlockStr {
        Ok(StringValueView { value: t.text, block: true })
    } else {
        Err(
            ParseErrorView::UnexpectedToken {
                expected: "Token<Str> or Token<BlockStr>"@,
                received: t.render(),
                location: t.location,
            },
        )
    }
}

/// A name.
#[derive(Debug, PartialEq)]
pub struct NameNode {
    pub value: String,
}

impl DeepView for NameNode {
    type V = Seq<char>;

    open spec fn deep_view(&self) -> Seq<char> {
        self.value@
    }
}

impl NameNode {
    /// The name that a `Name` token carries. Any other token is refused.
    pub fn new(token: Token) -> (r: ParseResult<NameNode>)
        ensures
            result_view(r) == name_of(token@),
    {
        match token {
            Token::Name(_, value) => Ok(NameNode { value: String::from_str(value) }),
            _ => Err(
                ParseError::UnexpectedToken {
                    expected: String::from_str("Token<Name>"),
                    received: token.to_string(),
                    location: token.location(),
                },
            ),
        }
    }

    /// The name written by `name`.
    pub fn from(name: &str) -> (r: NameNode)
        ensures
            r.deep_view() == name@,
    {
        NameNode { value: String::from_str(name) }
    }
}

/// A string value, and whether it was written as a block string.
#[derive(Debug, PartialEq)]
pub struct StringValueNode {
    pub value: String,
    pub block: bool,
}

/// A [`StringValueNode`] as a mathematical value.
pub struct StringValueView {
    pub value: Seq<char>,
    pub block: bool,
}

impl DeepView for StringValueNode {
    type V = StringValueView;

    open spec fn deep_view(&self) -> StringValueView {
        StringValueView { value: self.value@, block: self.block }
    }
}

impl StringValueNode {
    /// The string that a `Str` or `BlockStr` token carries. Any other token
    /// is refused.
    pub fn new(token: Token) -> (r: ParseResult<StringValueNode>)
        ensures
            result_view(r) == string_of(token@),
    {
        match token {
            Token::Str(_, val) => Ok(StringValueNode { value: String::from_str(val), block: false }),
            Token::BlockStr(_, val) => Ok(
                StringValueNode { value: String::from_str(val), block: true },
            ),
            _ => Err(
                ParseError::UnexpectedToken {
                    expected: String::from_str("Token<Str> or Token<BlockStr>"),
                    received: token.to_string(),
                    location: token.location(),
                },
            ),
        }
    }

    /// The string value with the given content.
    pub fn from(content: &str, block: bool) -> (r: StringValueNode)
        ensures
            r.deep_view() == (StringValueView { value: content@, block }),
    {
        StringValueNode { value: String::from_str(content), block }
    }
}

/// A reference to a type by its name.
#[derive(Debug, PartialEq)]
pub struct NamedTypeNode {
    pub name: NameNode,
}

impl DeepView for NamedTypeNode {
    type V = Seq<char>;

    open spec fn deep_view(&self) -> Seq<char> {
        self.name.deep_view()
    }
}

impl NamedTypeNode {
    /// The named type that a `Name` token names.
    pub fn new(tok: Token) -> (r: ParseResult<NamedTypeNode>)
        ensures
            result_view(r) == name_of(tok@),
    {
        match NameNode::new(tok) {
            Ok(name) => Ok(NamedTypeNode { name }),
            Err(e) => Err(e),
        }
    }

    /// The named type called `name`.
    pub fn from(name: &str) -> (r: NamedTypeNode)
        ensures
            r.deep_view() == name@,
    {
        NamedTypeNode { name: NameNode::from(name) }
    }
}

/// A list type; its view is the view of its element type.
#[derive(Debug, PartialEq)]
pub struct ListTypeNode {
    pub list_type: Rc<TypeNode>,
}

/// A reference to a type: a name, a list of a type, or a type that excludes
/// null. Nothing keeps a type that excludes null from wrapping another one;
/// the parser makes no such type (see `grammar::lemma_types_wrap_once`).
#[derive(Debug, PartialEq)]
pub enum TypeNode {
    Named(NamedTypeNode),
    List(ListTypeNode),
    NonNull(Rc<TypeNode>),
}

/// A [`TypeNode`] as a mathematical value.
pub enum TypeView {
    Named(Seq<char>),
    List(Box<TypeView>),
    NonNull(Box<TypeView>),
}

/// The view of a type reference.
pub open spec fn type_view(t: TypeNode) -> TypeView
    decreases t,
{
    match t {
        TypeNode::Named(n) => TypeView::Named(n.deep_view()),
        TypeNode::List(l) => TypeView::List(Box::new(type_view(*l.list_type))),
        TypeNode::NonNull(inner) => TypeView::NonNull(Box::new(type_view(*inner))),
    }
}

impl DeepView for TypeNode {
    type V = TypeView;

    open spec fn deep_view(&self) -> TypeView {
        type_view(*self)
    }
}

impl DeepView for ListTypeNode {
    type V = TypeView;

    open spec fn deep_view(&self) -> TypeView {
        type_view(*self.list_type)
    }
}

impl ListTypeNode {
    /// The list type whose elements are of type `list_type`.
    pub fn new(list_type: TypeNode) -> (r: ListTypeNode)
        ensures
            r.deep_view() == list_type.deep_view(),
    {
        ListTypeNode { list_type: Rc::new(list_type) }
    }
}

/// A variable, written `$name`.
#[derive(Debug, PartialEq)]
pub struct VariableNode {
    pub name: NameNode,
}

impl DeepView for VariableNode {
    type V = Seq<char>;

    open spec fn deep_view(&self) -> Seq<char> {
        self.name.deep_view()
    }
}

impl VariableNode {
    /// The variable that a `Name` token names.
    pub fn new(tok: Token) -> (r: ParseResult<VariableNode>)
        ensures
            result_view(r) == name_of(tok@),
    {
        match NameNode::new(tok) {
            Ok(name) => Ok(VariableNode { name }),
            Err(e) => Err(e),
        }
    }

    /// The variable called `name`.
    pub fn from(name: &str) -> (r: VariableNode)
        ensures
            r.deep_view() == name@,
    {
        VariableNode { name: NameNode::from(name) }
    }
}

/// An integer value.
#[derive(Debug, PartialEq)]
pub struct IntValueNode {
    pub value: i64,
}

impl DeepView for IntValueNode {
    type V = int;

    open spec fn deep_view(&self) -> int {
        self.value as int
    }
}

/// A value with a fractional part, kept as the numeral that was written.
#[derive(Debug, PartialEq)]
pub struct FloatValueNode {
    pub value: String,
}

impl DeepView for FloatValueNode {
    type V = Seq<char>;

    open spec fn deep_view(&self) -> Seq<char> {
        self.value@
    }
}

/// `true` or `false`.
#[derive(Debug, PartialEq)]
pub struct BooleanValueNode {
    pub value: bool,
}

impl DeepView for BooleanValueNode {
    type V = bool;

    open spec fn deep_view(&self) -> bool {
        self.value
    }
}

/// A value of an enum, written as a bare name.
#[derive(Debug, PartialEq)]
pub struct EnumValueNode {
    pub value: String,
}

impl DeepView for EnumValueNode {
    type V = Seq<char>;

    open spec fn deep_view(&self) -> Seq<char> {
        self.value@
    }
}

/// A list of values.
#[derive(Debug, PartialEq)]
pub struct ListValueNode {
    pub values: Vec<ValueNode>,
}

/// A field of an object value.
#[derive(Debug, PartialEq)]
pub struct ObjectFieldNode {
    pub name: NameNode,
    pub value: ValueNode,
}

/// An object value: named fields between braces.
#[derive(Debug, PartialEq)]
pub struct ObjectValueNode {
    pub fields: Vec<ObjectFieldNode>,
}

/// A value.
#[derive(Debug, PartialEq)]
pub enum ValueNode {
    Variable(VariableNode),
    Int(IntValueNode),
    Float(FloatValueNode),
    Str(StringValueNode),
    Bool(BooleanValueNode),
    Null,
    Enum(EnumValueNode),
    List(ListValueNode),
    Object(ObjectValueNode),
}

/// A [`ValueNode`] as a mathematical value.
pub enum ValueView {
    Variable(Seq<char>),
    Int(int),
    Float(Seq<char>),
    Str(StringValueView),
    Bool(bool),
    Null,
    Enum(Seq<char>),
    List(Seq<ValueView>),
    Object(Seq<ObjectFieldView>),
}

/// An [`ObjectFieldNode`] as a mathematical value.
pub struct ObjectFieldView {
    pub name: Seq<char>,
    pub value: ValueView,
}

/// The view of a value.
pub open spec fn value_view(v: ValueNode) -> ValueView
    decreases v,
{
    match v {
        ValueNode::Variable(n) => ValueView::Variable(n.deep_view()),
        ValueNode::Int(n) => ValueView::Int(n.deep_view()),
        ValueNode::Float(n) => ValueView::Float(n.deep_view()),
        ValueNode::Str(n) => ValueView::Str(n.deep_view()),
        ValueNode::Bool(n) => ValueView::Bool(n.deep_view()),
        ValueNode::Null => ValueView::Null,
        ValueNode::Enum(n) => ValueView::Enum(n.deep_view()),
        ValueNode::List(l) => ValueView::List(
            Seq::new(
                l.values@.len(),
                |i: int|
                    if 0 <= i < l.values@.len() {
                        value_view(l.values@[i])
                    } else {
                        ValueView::Null
                    },
            ),
        ),
        ValueNode::Object(o) => ValueView::Object(
            Seq::new(
                o.fields@.len(),
                |i: int|
                    if 0 <= i < o.fields@.len() {
                        ObjectFieldView {
                            name: o.fields@[i].name.deep_view(),
                            value: value_view(o.fields@[i].value),
                        }
                    } else {
                        ObjectFieldView { name: Seq::empty(), value: ValueView::Null }
                    },
            ),
        ),
    }
}

impl DeepView for ValueNode {
    type V = ValueView;

    open spec fn deep_view(&self) -> ValueView {
        value_view(*self)
    }
}

impl DeepView for ObjectFieldNode {
    type V = ObjectFieldView;

    open spec fn deep_view(&self) -> ObjectFieldView {
        ObjectFieldView { name: self.name.deep_view(), value: self.value.deep_view() }
    }
}

impl DeepView for ListValueNode {
    type V = Seq<ValueView>;

    open spec fn deep_view(&self) -> Seq<ValueView> {
        self.values.deep_view()
    }
}

impl DeepView for ObjectValueNode {
    type V = Seq<ObjectFieldView>;

    open spec fn deep_view(&self) -> Seq<ObjectFieldView> {
        self.fields.deep_view()
    }
}

/// The view of a list value is the list of the views of its values.
pub proof fn lemma_list_value_view(l: ListValueNode)
    ensures
        value_view(ValueNode::List(l)) == ValueView::List(l.values.deep_view()),
{
    assert(value_view(ValueNode::List(l))->List_0 =~= l.values.deep_view());
}

/// The view of an object value is the list of the views of its fields.
pub proof fn lemma_object_value_view(o: ObjectValueNode)
    ensures
        value_view(ValueNode::Object(o)) == ValueView::Object(o.fields.deep_view()),
{
    assert(value_view(ValueNode::Object(o))->Object_0 =~= o.fields.deep_view());
}

/// An argument: a name and the value given to it.
#[derive(Debug, PartialEq)]
pub struct Argument {
    pub name: NameNode,
    pub value: ValueNode,
}

/// An [`Argument`] as a mathematical value.
pub struct ArgumentView {
    pub name: Seq<char>,
    pub value: ValueView,
}

impl DeepView for Argument {
    type V = ArgumentView;

    open spec fn deep_view(&self) -> ArgumentView {
        ArgumentView { name: self.name.deep_view(), value: self.value.deep_view() }
    }
}

pub type Description = Option<StringValueNode>;

pub type Arguments = Vec<Argument>;

pub type ArgumentDefinitions = Vec<InputValueDefinitionNode>;

pub type Directives = Vec<DirectiveNode>;

pub type Variables = Vec<VariableDefinitionNode>;

pub type Selections = Vec<Selection>;

/// A directive: `@name`, with or without arguments.
#[derive(Debug, PartialEq)]
pub struct DirectiveNode {
    pub name: NameNode,
    pub arguments: Option<Arguments>,
}

/// A [`DirectiveNode`] as a mathematical value.
pub struct DirectiveView {
    pub name: Seq<char>,
    pub arguments: Option<Seq<ArgumentView>>,
}

impl DeepView for DirectiveNode {
    type V = DirectiveView;

    open spec fn deep_view(&self) -> DirectiveView {
        DirectiveView { name: self.name.deep_view(), arguments: self.arguments.deep_view() }
    }
}

/// The directive that a name token and a list of arguments make.
pub open spec fn directive_of(name: TokenView, arguments: Option<Seq<ArgumentView>>) -> Result<
    DirectiveView,
    ParseErrorView,
> {
    match name_of(name) {
        Ok(n) => Ok(DirectiveView { name: n, arguments }),
        Err(e) => Err(e),
    }
}

impl DirectiveNode {
    /// The directive named by a `Name` token.
    pub fn new(name: Token, arguments: Option<Arguments>) -> (r: ParseResult<DirectiveNode>)
        ensures
            result_view(r) == directive_of(name@, arguments.deep_view()),
    {
        match NameNode::new(name) {
            Ok(name) => Ok(DirectiveNode { name, arguments }),
            Err(e) => Err(e),
        }
    }
}

/// The definition of an argument or of a field of an input type.
#[derive(Debug, PartialEq)]
pub struct InputValueDefinitionNode {
    pub description: Description,
    pub name: NameNode,
    pub input_type: TypeNode,
    pub default_value: Option<ValueNode>,
    pub directives: Option<Directives>,
}

/// An [`InputValueDefinitionNode`] as a mathematical value.
pub struct InputValueDefinitionView {
    pub description: Option<StringValueView>,
    pub name: Seq<char>,
    pub input_type: TypeView,
    pub default_value: Option<ValueView>,
    pub directives: Option<Seq<DirectiveView>>,
}

impl DeepView for InputValueDefinitionNode {
    type V = InputValueDefinitionView;

    open spec fn deep_view(&self) -> InputValueDefinitionView {
        InputValueDefinitionView {
            description: self.description.deep_view(),
            name: self.name.deep_view(),
            input_type: self.input_type.deep_view(),
            default_value: self.default_value.deep_view(),
            directives: self.directives.deep_view(),
        }
    }
}

/// The input value, without default and directives, that a name token, a
/// type and a description make.
pub open spec fn input_value_of(
    name: TokenView,
    input_type: TypeView,
    description: Option<StringValueView>,
) -> Result<InputValueDefinitionView, ParseErrorView> {
    match name_of(name) {
        Ok(n) => Ok(
            InputValueDefinitionView {
                description,
                name: n,
                input_type,
                default_value: None,
                directives: None,
            },
        ),
        Err(e) => Err(e),
    }
}

impl InputValueDefinitionNode {
    /// An input value without a default value and without directives.
    pub fn new(name: Token, input_type: TypeNode, description: Description) -> (r: ParseResult<
        InputValueDefinitionNode,
    >)
        ensures
            result_view(r) == input_value_of(
                name@,
                input_type.deep_view(),
                description.deep_view(),
            ),
    {
        match NameNode::new(name) {
            Ok(name) => Ok(
                InputValueDefinitionNode {
                    description,
                    name,
                    input_type,
                    default_value: None,
                    directives: None,
                },
            ),
            Err(e) => Err(e),
        }
    }

    /// Sets the default value.
    pub fn with_default_value(&mut self, default_value: Option<ValueNode>) -> (r: &mut Self)
        ensures
            r.deep_view() == (InputValueDefinitionView {
                default_value: default_value.deep_view(),
                ..old(self).deep_view()
            }),
            *final(self) == *final(r),
    {
        self.default_value = default_value;
        self
    }

    /// Sets the directives.
    pub fn with_directives(&mut self, directives: Option<Directives>) -> (r: &mut Self)
        ensures
            r.deep_view() == (InputValueDefinitionView {
                directives: directives.deep_view(),
                ..old(self).deep_view()
            }),
            *final(self) == *final(r),
    {
        self.directives = directives;
        self
    }
}

/// The definition of a variable of a query.
#[derive(Debug, PartialEq)]
pub struct VariableDefinitionNode {
    pub variable: VariableNode,
    pub variable_type: TypeNode,
    pub default_value: Option<ValueNode>,
}

/// A [`VariableDefinitionNode`] as a mathematical value.
pub struct VariableDefinitionView {
    pub variable: Seq<char>,
    pub variable_type: TypeView,
    pub default_value: Option<ValueView>,
}

impl DeepView for VariableDefinitionNode {
    type V = VariableDefinitionView;

    open spec fn deep_view(&self) -> VariableDefinitionView {
        VariableDefinitionView {
            variable: self.variable.deep_view(),
            variable_type: self.variable_type.deep_view(),
            default_value: self.default_value.deep_view(),
        }
    }
}

/// The definition of a field of an object or interface type.
#[derive(Debug, PartialEq)]
pub struct FieldDefinitionNode {
    pub description: Description,
    pub name: NameNode,
    pub arguments: Option<ArgumentDefinitions>,
    pub field_type: TypeNode,
}

/// A [`FieldDefinitionNode`] as a mathematical value.
pub struct FieldDefinitionView {
    pub description: Option<StringValueView>,
    pub name: Seq<char>,
    pub arguments: Option<Seq<InputValueDefinitionView>>,
    pub field_type: TypeView,
}

impl DeepView for FieldDefinitionNode {
    type V = FieldDefinitionView;

    open spec fn deep_view(&self) -> FieldDefinitionView {
        FieldDefinitionView {
            description: self.description.deep_view(),
            name: self.name.deep_view(),
            arguments: self.arguments.deep_view(),
            field_type: self.field_type.deep_view(),
        }
    }
}

/// The field definition that a name token and its parts make.
pub open spec fn field_definition_of(
    name: TokenView,
    field_type: TypeView,
    description: Option<StringValueView>,
    arguments: Option<Seq<InputValueDefinitionView>>,
) -> Result<FieldDefinitionView, ParseErrorView> {
    match name_of(name) {
        Ok(n) => Ok(FieldDefinitionView { description, name: n, arguments, field_type }),
        Err(e) => Err(e),
    }
}

impl FieldDefinitionNode {
    /// The definition of the field named by a `Name` token.
    pub fn new(
        name: Token,
        field_type: TypeNode,
        description: Description,
        arguments: Option<ArgumentDefinitions>,
    ) -> (r: ParseResult<FieldDefinitionNode>)
        ensures
            result_view(r) == field_definition_of(
                name@,
                field_type.deep_view(),
                description.deep_view(),
                arguments.deep_view(),
            ),
    {
        match NameNode::new(name) {
            Ok(name) => Ok(FieldDefinitionNode { description, name, arguments, field_type }),
            Err(e) => Err(e),
        }
    }
}

/// The definition of a value of an enum type.
#[derive(Debug, PartialEq)]
pub struct EnumValueDefinitionNode {
    pub description: Description,
    pub name: NameNode,
    pub directives: Option<Directives>,
}

/// An [`EnumValueDefinitionNode`] as a mathematical value.
pub struct EnumValueDefinitionView {
    pub description: Option<StringValueView>,
    pub name: Seq<char>,
    pub directives: Option<Seq<DirectiveView>>,
}

impl DeepView for EnumValueDefinitionNode {
    type V = EnumValueDefinitionView;

    open spec fn deep_view(&self) -> EnumValueDefinitionView {
        EnumValueDefinitionView {
            description: self.description.deep_view(),
            name: self.name.deep_view(),
            directives: self.directives.deep_view(),
        }
    }
}

/// The enum value definition that a name token and its parts make.
pub open spec fn enum_value_of(
    name: TokenView,
    description: Option<StringValueView>,
    directives: Option<Seq<DirectiveView>>,
) -> Result<EnumValueDefinitionView, ParseErrorView> {
    match name_of(name) {
        Ok(n) => Ok(EnumValueDefinitionView { description, name: n, directives }),
        Err(e) => Err(e),
    }
}

impl EnumValueDefinitionNode {
    /// The definition of the enum value named by a `Name` token.
    pub fn new(name: Token, description: Description, directives: Option<Directives>) -> (r:
        ParseResult<EnumValueDefinitionNode>)
        ensures
            result_view(r) == enum_value_of(
                name@,
                description.deep_view(),
                directives.deep_view(),
            ),
    {
        match NameNode::new(name) {
            Ok(name) => Ok(EnumValueDefinitionNode { description, name, directives }),
            Err(e) => Err(e),
        }
    }
}

/// The definition of a schema.
#[derive(Debug, PartialEq)]
pub struct SchemaDefinitionNode {
    pub kind: &'static str,
    pub description: Description,
}

/// A [`SchemaDefinitionNode`] as a mathematical value.
pub struct SchemaDefinitionView {
    pub kind: Seq<char>,
    pub description: Option<StringValueView>,
}

impl DeepView for SchemaDefinitionNode {
    type V = SchemaDefinitionView;

    open spec fn deep_view(&self) -> SchemaDefinitionView {
        SchemaDefinitionView { kind: self.kind@, description: self.description.deep_view() }
    }
}

impl SchemaDefinitionNode {
    /// A schema definition without a description.
    pub fn new() -> (r: SchemaDefinitionNode)
        ensures
            r.deep_view() == (SchemaDefinitionView {
                kind: "SchemaDefinition"@,
                description: None,
            }),
    {
        SchemaDefinitionNode { kind: "SchemaDefinition", description: None }
    }
}

/// The definition of a scalar type.
#[derive(Debug, PartialEq)]
pub struct ScalarTypeDefinitionNode {
    pub description: Description,
    pub name: NameNode,
    pub directives: Option<Directives>,
}

/// A [`ScalarTypeDefinitionNode`] as a mathematical value.
pub struct ScalarTypeDefinitionView {
    pub description: Option<StringValueView>,
    pub name: Seq<char>,
    pub directives: Option<Seq<DirectiveView>>,
}

impl DeepView for ScalarTypeDefinitionNode {
    type V = ScalarTypeDefinitionView;

    open spec fn deep_view(&self) -> ScalarTypeDefinitionView {
        ScalarTypeDefinitionView {
            description: self.description.deep_view(),
            name: self.name.deep_view(),
            directives: self.directives.deep_view(),
        }
    }
}

/// The scalar type, without directives, that a name token makes.
pub open spec fn scalar_type_of(name: TokenView, description: Option<StringValueView>) -> Result<
    ScalarTypeDefinitionView,
    ParseErrorView,
> {
    match name_of(name) {
        Ok(n) => Ok(ScalarTypeDefinitionView { description, name: n, directives: None }),
        Err(e) => Err(e),
    }
}

impl ScalarTypeDefinitionNode {
    /// A scalar type without directives.
    pub fn new(tok: Token, description: Description) -> (r: ParseResult<ScalarTypeDefinitionNode>)
        ensures
            result_view(r) == scalar_type_of(tok@, description.deep_view()),
    {
        match NameNode::new(tok) {
            Ok(name) => Ok(ScalarTypeDefinitionNode { description, name, directives: None }),
            Err(e) => Err(e),
        }
    }

    /// Sets the directives.
    pub fn with_directives(&mut self, directives: Option<Directives>) -> (r: &mut Self)
        ensures
            r.deep_view() == (ScalarTypeDefinitionView {
                directives: directives.deep_view(),
                ..old(self).deep_view()
            }),
            *final(self) == *final(r),
    {
        self.directives = directives;
        self
    }
}

/// The definition of an object type. It has at least one field.
#[derive(Debug, PartialEq)]
pub struct ObjectTypeDefinitionNode {
    pub description: Description,
    pub name: NameNode,
    pub interfaces: Option<Vec<NamedTypeNode>>,
    pub directives: Option<Directives>,
    pub fields: Vec<FieldDefinitionNode>,
}

/// An [`ObjectTypeDefinitionNode`] as a mathematical value.
pub struct ObjectTypeDefinitionView {
    pub description: Option<StringValueView>,
    pub name: Seq<char>,
    pub interfaces: Option<Seq<Seq<char>>>,
    pub directives: Option<Seq<DirectiveView>>,
    pub fields: Seq<FieldDefinitionView>,
}

impl DeepView for ObjectTypeDefinitionNode {
    type V = ObjectTypeDefinitionView;

    open spec fn deep_view(&self) -> ObjectTypeDefinitionView {
        ObjectTypeDefinitionView {
            description: self.description.deep_view(),
            name: self.name.deep_view(),
            interfaces: self.interfaces.deep_view(),
            directives: self.directives.deep_view(),
            fields: self.fields.deep_view(),
        }
    }
}

/// The object type, without interfaces and directives, that a name token
/// and a list of fields make. An empty list of fields is refused, with the
/// location of the token.
pub open spec fn object_type_of(
    name: TokenView,
    description: Option<StringValueView>,
    fields: Seq<FieldDefinitionView>,
) -> Result<ObjectTypeDefinitionView, ParseErrorView> {
    if fields.len() == 0 {
        Err(ParseErrorView::ObjectEmpty(name.location))
    } else {
        match name_of(name) {
            Ok(n) => Ok(
                ObjectTypeDefinitionView {
                    description,
                    name: n,
                    interfaces: None,
                    directives: None,
                    fields,
                },
            ),
            Err(e) => Err(e),
        }
    }
}

impl ObjectTypeDefinitionNode {
    /// An object type without interfaces and directives. It is refused as
    /// empty when `fields` is.
    pub fn new(tok: Token, description: Description, fields: Vec<FieldDefinitionNode>) -> (r:
        ParseResult<Self>)
        ensures
            result_view(r) == object_type_of(tok@, description.deep_view(), fields.deep_view()),
    {
        if fields.len() > 0 {
            match NameNode::new(tok) {
                Ok(name) => Ok(
                    ObjectTypeDefinitionNode {
                        description,
                        name,
                        interfaces: None,
                        directives: None,
                        fields,
                    },
                ),
                Err(e) => Err(e),
            }
        } else {
            Err(ParseError::ObjectEmpty(tok.location()))
        }
    }

    /// Sets the interfaces.
    pub fn with_interfaces(&mut self, interfaces: Option<Vec<NamedTypeNode>>) -> (r: &mut Self)
        ensures
            r.deep_view() == (ObjectTypeDefinitionView {
                interfaces: interfaces.deep_view(),
                ..old(self).deep_view()
            }),
            *final(self) == *final(r),
    {
        self.interfaces = interfaces;
        self
    }

    /// Sets the directives.
    pub fn with_directives(&mut self, directives: Option<Directives>) -> (r: &mut Self)
        ensures
            r.deep_view() == (ObjectTypeDefinitionView {
                directives: directives.deep_view(),
                ..old(self).deep_view()
            }),
            *final(self) == *final(r),
    {
        self.directives = directives;
        self
    }

    /// Sets the fields.
    pub fn with_fields(&mut self, fields: Vec<FieldDefinitionNode>) -> (r: &mut Self)
        ensures
            r.deep_view() == (ObjectTypeDefinitionView {
                fields: fields.deep_view(),
                ..old(self).deep_view()
            }),
            r.fields == fields,
            *final(self) == *final(r),
    {
        self.fields = fields;
        self
    }
}

/// The definition of an input type.
#[derive(Debug, PartialEq)]
pub struct InputTypeDefinitionNode {
    pub description: Description,
    pub name: NameNode,
    pub fields: Vec<InputValueDefinitionNode>,
}

/// An [`InputTypeDefinitionNode`] as a mathematical value.
pub struct InputTypeDefinitionView {
    pub description: Option<StringValueView>,
    pub name: Seq<char>,
    pub fields: Seq<InputValueDefinitionView>,
}

impl DeepView for InputTypeDefinitionNode {
    type V = InputTypeDefinitionView;

    open spec fn deep_view(&self) -> InputTypeDefinitionView {
        InputTypeDefinitionView {
            description: self.description.deep_view(),
            name: self.name.deep_view(),
            fields: self.fields.deep_view(),
        }
    }
}

/// The input type, without fields, that a name token makes.
pub open spec fn input_type_of(name: TokenView, description: Option<StringValueView>) -> Result<
    InputTypeDefinitionView,
    ParseErrorView,
> {
    match name_of(name) {
        Ok(n) => Ok(InputTypeDefinitionView { description, name: n, fields: Seq::empty() }),
        Err(e) => Err(e),
    }
}

impl InputTypeDefinitionNode {
    /// An input type that has no fields yet.
    pub fn new(name_tok: Token, description: Description) -> (r: ParseResult<
        InputTypeDefinitionNode,
    >)
        ensures
            result_view(r) == input_type_of(name_tok@, description.deep_view()),
    {
        match NameNode::new(name_tok) {
            Ok(name) => {
                let fields: Vec<InputValueDefinitionNode> = Vec::new();
                assert(fields.deep_view() =~= Seq::empty());
                Ok(InputTypeDefinitionNode { name, description, fields })
            },
            Err(e) => Err(e),
        }
    }

    /// Sets the fields.
    pub fn with_fields(&mut self, fields: Vec<InputValueDefinitionNode>) -> (r: &mut Self)
        ensures
            r.deep_view() == (InputTypeDefinitionView {
                fields: fields.deep_view(),
                ..old(self).deep_view()
            }),
            *final(self) == *final(r),
    {
        self.fields = fields;
        self
    }
}

/// The definition of an interface type. It may have no fields.
#[derive(Debug, PartialEq)]
pub struct InterfaceTypeDefinitionNode {
    pub description: Description,
    pub name: NameNode,
    pub directives: Option<Directives>,
    pub fields: Vec<FieldDefinitionNode>,
}

/// An [`InterfaceTypeDefinitionNode`] as a mathematical value.
pub struct InterfaceTypeDefinitionView {
    pub description: Option<StringValueView>,
    pub name: Seq<char>,
    pub directives: Option<Seq<DirectiveView>>,
    pub fields: Seq<FieldDefinitionView>,
}

impl DeepView for InterfaceTypeDefinitionNode {
    type V = InterfaceTypeDefinitionView;

    open spec fn deep_view(&self) -> InterfaceTypeDefinitionView {
        InterfaceTypeDefinitionView {
            description: self.description.deep_view(),
            name: self.name.deep_view(),
            directives: self.directives.deep_view(),
            fields: self.fields.deep_view(),
        }
    }
}

/// The interface type, without directives and fields, that a name token
/// makes.
pub open spec fn interface_type_of(
    name: TokenView,
    description: Option<StringValueView>,
) -> Result<InterfaceTypeDefinitionView, ParseErrorView> {
    match name_of(name) {
        Ok(n) => Ok(
            InterfaceTypeDefinitionView {
                description,
                name: n,
                directives: None,
                fields: Seq::empty(),
            },
        ),
        Err(e) => Err(e),
    }
}

impl InterfaceTypeDefinitionNode {
    /// An interface type that has no directives and no fields yet.
    pub fn new(tok: Token, description: Description) -> (r: ParseResult<
        InterfaceTypeDefinitionNode,
    >)
        ensures
            result_view(r) == interface_type_of(tok@, description.deep_view()),
    {
        match NameNode::new(tok) {
            Ok(name) => {
                let fields: Vec<FieldDefinitionNode> = Vec::new();
                assert(fields.deep_view() =~= Seq::empty());
                Ok(InterfaceTypeDefinitionNode { name, description, directives: None, fields })
            },
            Err(e) => Err(e),
        }
    }

    /// Sets the fields.
    pub fn with_fields(&mut self, fields: Vec<FieldDefinitionNode>) -> (r: &mut Self)
        ensures
            r.deep_view() == (InterfaceTypeDefinitionView {
                fields: fields.deep_view(),
                ..old(self).deep_view()
            }),
            *final(self) == *final(r),
    {
        self.fields = fields;
        self
    }

    /// Sets the directives.
    pub fn with_directives(&mut self, directives: Option<Directives>) -> (r: &mut Self)
        ensures
            r.deep_view() == (InterfaceTypeDefinitionView {
                directives: directives.deep_view(),
                ..old(self).deep_view()
            }),
            *final(self) == *final(r),
    {
        self.directives = directives;
        self
    }
}

/// The definition of an enum type.
#[derive(Debug, PartialEq)]
pub struct EnumTypeDefinitionNode {
    pub description: Description,
    pub name: NameNode,
    pub directives: Option<Directives>,
    pub values: Vec<EnumValueDefinitionNode>,
}

/// An [`EnumTypeDefinitionNode`] as a mathematical value.
pub struct EnumTypeDefinitionView {
    pub description: Option<StringValueView>,
    pub name: Seq<char>,
    pub directives: Option<Seq<DirectiveView>>,
    pub values: Seq<EnumValueDefinitionView>,
}

impl DeepView for EnumTypeDefinitionNode {
    type V = EnumTypeDefinitionView;

    open spec fn deep_view(&self) -> EnumTypeDefinitionView {
        EnumTypeDefinitionView {
            description: self.description.deep_view(),
            name: self.name.deep_view(),
            directives: self.directives.deep_view(),
            values: self.values.deep_view(),
        }
    }
}

/// The enum type that a name token and its parts make.
pub open spec fn enum_type_of(
    name: TokenView,
    description: Option<StringValueView>,
    directives: Option<Seq<DirectiveView>>,
    values: Seq<EnumValueDefinitionView>,
) -> Result<EnumTypeDefinitionView, ParseErrorView> {
    match name_of(name) {
        Ok(n) => Ok(EnumTypeDefinitionView { description, name: n, directives, values }),
        Err(e) => Err(e),
    }
}

impl EnumTypeDefinitionNode {
    /// The enum type named by a `Name` token.
    pub fn new(
        tok: Token,
        description: Description,
        directives: Option<Directives>,
        values: Vec<EnumValueDefinitionNode>,
    ) -> (r: ParseResult<EnumTypeDefinitionNode>)
        ensures
            result_view(r) == enum_type_of(
                tok@,
                description.deep_view(),
                directives.deep_view(),
                values.deep_view(),
            ),
    {
        match NameNode::new(tok) {
            Ok(name) => Ok(EnumTypeDefinitionNode { description, name, directives, values }),
            Err(e) => Err(e),
        }
    }
}

/// The definition of a union type.
#[derive(Debug, PartialEq)]
pub struct UnionTypeDefinitionNode {
    pub description: Description,
    pub name: NameNode,
    pub directives: Option<Directives>,
    pub types: Vec<NamedTypeNode>,
}

/// A [`UnionTypeDefinitionNode`] as a mathematical value.
pub struct UnionTypeDefinitionView {
    pub description: Option<StringValueView>,
    pub name: Seq<char>,
    pub directives: Option<Seq<DirectiveView>>,
    pub types: Seq<Seq<char>>,
}

impl DeepView for UnionTypeDefinitionNode {
    type V = UnionTypeDefinitionView;

    open spec fn deep_view(&self) -> UnionTypeDefinitionView {
        UnionTypeDefinitionView {
            description: self.description.deep_view(),
            name: self.name.deep_view(),
            directives: self.directives.deep_view(),
            types: self.types.deep_view(),
        }
    }
}

/// The union type that a name token and its parts make.
pub open spec fn union_type_of(
    name: TokenView,
    description: Option<StringValueView>,
    directives: Option<Seq<DirectiveView>>,
    types: Seq<Seq<char>>,
) -> Result<UnionTypeDefinitionView, ParseErrorView> {
    match name_of(name) {
        Ok(n) => Ok(UnionTypeDefinitionView { description, name: n, directives, types }),
        Err(e) => Err(e),
    }
}

impl UnionTypeDefinitionNode {
    /// The union type named by a `Name` token.
    pub fn new(
        tok: Token,
        description: Description,
        directives: Option<Directives>,
        types: Vec<NamedTypeNode>,
    ) -> (r: ParseResult<UnionTypeDefinitionNode>)
        ensures
            result_view(r) == union_type_of(
                tok@,
                description.deep_view(),
                directives.deep_view(),
                types.deep_view(),
            ),
    {
        match NameNode::new(tok) {
            Ok(name) => Ok(UnionTypeDefinitionNode { description, name, directives, types }),
            Err(e) => Err(e),
        }
    }
}

/// The definition of a type.
#[derive(Debug, PartialEq)]
pub enum TypeDefinitionNode {
    Scalar(ScalarTypeDefinitionNode),
    Object(ObjectTypeDefinitionNode),
    Interface(InterfaceTypeDefinitionNode),
    Union(UnionTypeDefinitionNode),
    Enum(EnumTypeDefinitionNode),
    Input(InputTypeDefinitionNode),
}

/// A [`TypeDefinitionNode`] as a mathematical value.
pub enum TypeDefinitionView {
    Scalar(ScalarTypeDefinitionView),
    Object(ObjectTypeDefinitionView),
    Interface(InterfaceTypeDefinitionView),
    Union(UnionTypeDefinitionView),
    Enum(EnumTypeDefinitionView),
    Input(InputTypeDefinitionView),
}

impl DeepView for TypeDefinitionNode {
    type V = TypeDefinitionView;

    open spec fn deep_view(&self) -> TypeDefinitionView {
        match self {
            TypeDefinitionNode::Scalar(n) => TypeDefinitionView::Scalar(n.deep_view()),
            TypeDefinitionNode::Object(n) => TypeDefinitionView::Object(n.deep_view()),
            TypeDefinitionNode::Interface(n) => TypeDefinitionView::Interface(n.deep_view()),
            TypeDefinitionNode::Union(n) => TypeDefinitionView::Union(n.deep_view()),
            TypeDefinitionNode::Enum(n) => TypeDefinitionView::Enum(n.deep_view()),
            TypeDefinitionNode::Input(n) => TypeDefinitionView::Input(n.deep_view()),
        }
    }
}

/// A definition of the type system.
#[derive(Debug, PartialEq)]
pub enum TypeSystemDefinitionNode {
    Schema(SchemaDefinitionNode),
    Type(TypeDefinitionNode),
}

/// A [`TypeSystemDefinitionNode`] as a mathematical value.
pub enum TypeSystemDefinitionView {
    Schema(SchemaDefinitionView),
    Type(TypeDefinitionView),
}

impl DeepView for TypeSystemDefinitionNode {
    type V = TypeSystemDefinitionView;

    open spec fn deep_view(&self) -> TypeSystemDefinitionView {
        match self {
            TypeSystemDefinitionNode::Schema(n) => TypeSystemDefinitionView::Schema(n.deep_view()),
            TypeSystemDefinitionNode::Type(n) => TypeSystemDefinitionView::Type(n.deep_view()),
        }
    }
}

/// An extension of the type system; its view is that of the object type
/// extension it holds.
#[derive(Debug, PartialEq)]
pub enum TypeSystemExtensionNode {
    Object(object_type_extension::ObjectTypeExtensionNode),
}

impl DeepView for TypeSystemExtensionNode {
    type V = object_type_extension::ObjectTypeExtensionView;

    open spec fn deep_view(&self) -> object_type_extension::ObjectTypeExtensionView {
        match self {
            TypeSystemExtensionNode::Object(n) => n.deep_view(),
        }
    }
}

/// A field of a selection set.
#[derive(Debug, PartialEq)]
pub struct FieldNode {
    pub name: NameNode,
    pub alias: Option<NameNode>,
    pub arguments: Option<Arguments>,
    pub directives: Option<Directives>,
    pub selections: Option<Selections>,
}

/// The use of a named fragment: `...Name`.
#[derive(Debug, PartialEq)]
pub struct FragmentSpreadNode {
    pub name: NameNode,
    pub directives: Option<Directives>,
}

/// A fragment written in place: `... on Type { .. }` or `... { .. }`.
#[derive(Debug, PartialEq)]
pub struct InlineFragmentSpreadNode {
    pub node_type: Option<NamedTypeNode>,
    pub directives: Option<Directives>,
    pub selections: Selections,
}

/// A fragment spread, named or in place.
#[derive(Debug, PartialEq)]
pub enum FragmentSpread {
    Node(FragmentSpreadNode),
    Inline(InlineFragmentSpreadNode),
}

/// An item of a selection set.
#[derive(Debug, PartialEq)]
pub enum Selection {
    Field(FieldNode),
    Fragment(FragmentSpread),
}

/// A [`FieldNode`] as a mathematical value.
pub struct FieldView {
    pub name: Seq<char>,
    pub alias: Option<Seq<char>>,
    pub arguments: Option<Seq<ArgumentView>>,
    pub directives: Option<Seq<DirectiveView>>,
    pub selections: Option<Seq<SelectionView>>,
}

/// A [`FragmentSpreadNode`] as a mathematical value.
pub struct FragmentSpreadView {
    pub name: Seq<char>,
    pub directives: Option<Seq<DirectiveView>>,
}

/// An [`InlineFragmentSpreadNode`] as a mathematical value.
pub struct InlineFragmentView {
    pub node_type: Option<Seq<char>>,
    pub directives: Option<Seq<DirectiveView>>,
    pub selections: Seq<SelectionView>,
}

/// A [`Selection`] as a mathematical value.
pub enum SelectionView {
    Field(FieldView),
    Spread(FragmentSpreadView),
    Inline(InlineFragmentView),
}

/// The view of a selection.
pub open spec fn selection_view(s: Selection) -> SelectionView
    decreases s,
{
    match s {
        Selection::Field(f) => SelectionView::Field(
            FieldView {
                name: f.name.deep_view(),
                alias: f.alias.deep_view(),
                arguments: f.arguments.deep_view(),
                directives: f.directives.deep_view(),
                selections: match f.selections {
                    Some(v) => Some(
                        Seq::new(
                            v@.len(),
                            |i: int|
                                if 0 <= i < v@.len() {
                                    selection_view(v@[i])
                                } else {
                                    arbitrary()
                                },
                        ),
                    ),
                    None => None,
                },
            },
        ),
        Selection::Fragment(FragmentSpread::Node(n)) => SelectionView::Spread(
            FragmentSpreadView { name: n.name.deep_view(), directives: n.directives.deep_view() },
        ),
        Selection::Fragment(FragmentSpread::Inline(n)) => SelectionView::Inline(
            InlineFragmentView {
                node_type: n.node_type.deep_view(),
                directives: n.directives.deep_view(),
                selections: Seq::new(
                    n.selections@.len(),
                    |i: int|
                        if 0 <= i < n.selections@.len() {
                            selection_view(n.selections@[i])
                        } else {
                            arbitrary()
                        },
                ),
            },
        ),
    }
}

impl DeepView for Selection {
    type V = SelectionView;

    open spec fn deep_view(&self) -> SelectionView {
        selection_view(*self)
    }
}

impl DeepView for FieldNode {
    type V = FieldView;

    open spec fn deep_view(&self) -> FieldView {
        FieldView {
            name: self.name.deep_view(),
            alias: self.alias.deep_view(),
            arguments: self.arguments.deep_view(),
            directives: self.directives.deep_view(),
            selections: self.selections.deep_view(),
        }
    }
}

impl DeepView for FragmentSpreadNode {
    type V = FragmentSpreadView;

    open spec fn deep_view(&self) -> FragmentSpreadView {
        FragmentSpreadView { name: self.name.deep_view(), directives: self.directives.deep_view() }
    }
}

impl DeepView for InlineFragmentSpreadNode {
    type V = InlineFragmentView;

    open spec fn deep_view(&self) -> InlineFragmentView {
        InlineFragmentView {
            node_type: self.node_type.deep_view(),
            directives: self.directives.deep_view(),
            selections: self.selections.deep_view(),
        }
    }
}

impl DeepView for FragmentSpread {
    type V = SelectionView;

    open spec fn deep_view(&self) -> SelectionView {
        match self {
            FragmentSpread::Node(n) => SelectionView::Spread(n.deep_view()),
            FragmentSpread::Inline(n) => SelectionView::Inline(n.deep_view()),
        }
    }
}

/// The view of a selection is built from the views of its parts.
pub proof fn lemma_selection_view(s: Selection)
    ensures
        selection_view(s) == match s {
            Selection::Field(f) => SelectionView::Field(f.deep_view()),
            Selection::Fragment(f) => f.deep_view(),
        },
{
    match s {
        Selection::Field(f) => {
            match f.selections {
                Some(v) => {
                    assert(selection_view(s)->Field_0.selections->0 =~= v.deep_view());
                },
                None => {},
            }
        },
        Selection::Fragment(FragmentSpread::Node(n)) => {},
        Selection::Fragment(FragmentSpread::Inline(n)) => {
            assert(selection_view(s)->Inline_0.selections =~= n.selections.deep_view());
        },
    }
}

/// The field, without alias, arguments, directives and selections, that a
/// name token makes.
pub open spec fn field_of(name: TokenView) -> Result<FieldView, ParseErrorView> {
    match name_of(name) {
        Ok(n) => Ok(
            FieldView { name: n, alias: None, arguments: None, directives: None, selections: None },
        ),
        Err(e) => Err(e),
    }
}

impl FieldNode {
    /// The bare field named by a `Name` token.
    pub fn new(name: Token) -> (r: ParseResult<FieldNode>)
        ensures
            result_view(r) == field_of(name@),
    {
        match NameNode::new(name) {
            Ok(name) => Ok(
                FieldNode { name, alias: None, arguments: None, directives: None, selections: None },
            ),
            Err(e) => Err(e),
        }
    }

    /// The bare field called `name`.
    pub fn from(name: &str) -> (r: FieldNode)
        ensures
            r.deep_view() == (FieldView {
                name: name@,
                alias: None,
                arguments: None,
                directives: None,
                selections: None,
            }),
    {
        FieldNode {
            name: NameNode::from(name),
            alias: None,
            arguments: None,
            directives: None,
            selections: None,
        }
    }

    /// Sets the alias to the name that a `Name` token carries. On any other
    /// token the field is left as it was.
    pub fn with_alias(&mut self, alias: Token) -> (r: ParseResult<&Self>)
        ensures
            match name_of(alias@) {
                Ok(n) => r is Ok && *r->Ok_0 == *final(self) && final(self).deep_view() == (FieldView {
                    alias: Some(n),
                    ..old(self).deep_view()
                }),
                Err(e) => r is Err && r->Err_0.deep_view() == e && final(self).deep_view() == old(self).deep_view(),
            },
    {
        match NameNode::new(alias) {
            Ok(name) => {
                self.alias = Some(name);
                Ok(self)
            },
            Err(e) => Err(e),
        }
    }

    /// Sets the arguments.
    pub fn with_arguments(&mut self, arguments: Option<Arguments>) -> (r: &Self)
        ensures
            r.deep_view() == (FieldView {
                arguments: arguments.deep_view(),
                ..old(self).deep_view()
            }),
            *final(self) == *r,
    {
        self.arguments = arguments;
        self
    }

    /// Sets the directives.
    pub fn with_directives(&mut self, directives: Option<Directives>) -> (r: &Self)
        ensures
            r.deep_view() == (FieldView {
                directives: directives.deep_view(),
                ..old(self).deep_view()
            }),
            *final(self) == *r,
    {
        self.directives = directives;
        self
    }

    /// Sets the selections.
    pub fn with_selections(&mut self, selections: Selections) -> (r: &Self)
        ensures
            r.deep_view() == (FieldView {
                selections: Some(selections.deep_view()),
                ..old(self).deep_view()
            }),
            *final(self) == *r,
    {
        self.selections = Some(selections);
        self
    }
}

/// The definition of a query.
#[derive(Debug, PartialEq)]
pub struct QueryDefinitionNode {
    pub name: Option<NameNode>,
    pub variables: Variables,
    pub selections: Selections,
}

/// A [`QueryDefinitionNode`] as a mathematical value.
pub struct QueryDefinitionView {
    pub name: Option<Seq<char>>,
    pub variables: Seq<VariableDefinitionView>,
    pub selections: Seq<SelectionView>,
}

impl DeepView for QueryDefinitionNode {
    type V = QueryDefinitionView;

    open spec fn deep_view(&self) -> QueryDefinitionView {
        QueryDefinitionView {
            name: self.name.deep_view(),
            variables: self.variables.deep_view(),
            selections: self.selections.deep_view(),
        }
    }
}

/// An operation; its view is that of the query it holds.
#[derive(Debug, PartialEq)]
pub enum OperationTypeNode {
    Query(QueryDefinitionNode),
}

impl DeepView for OperationTypeNode {
    type V = QueryDefinitionView;

    open spec fn deep_view(&self) -> QueryDefinitionView {
        match self {
            OperationTypeNode::Query(q) => q.deep_view(),
        }
    }
}

/// The definition of a fragment: `fragment Name on Type { .. }`.
#[derive(Debug, PartialEq)]
pub struct FragmentDefinitionNode {
    pub name: NameNode,
    pub node_type: NamedTypeNode,
    pub directives: Option<Directives>,
    pub selections: Selections,
}

/// A [`FragmentDefinitionNode`] as a mathematical value.
pub struct FragmentDefinitionView {
    pub name: Seq<char>,
    pub node_type: Seq<char>,
    pub directives: Option<Seq<DirectiveView>>,
    pub selections: Seq<SelectionView>,
}

impl DeepView for FragmentDefinitionNode {
    type V = FragmentDefinitionView;

    open spec fn deep_view(&self) -> FragmentDefinitionView {
        FragmentDefinitionView {
            name: self.name.deep_view(),
            node_type: self.node_type.deep_view(),
            directives: self.directives.deep_view(),
            selections: self.selections.deep_view(),
        }
    }
}

/// The fragment, without directives and selections, that two name tokens
/// make. The name is looked at before the type.
pub open spec fn fragment_of(name: TokenView, node_type: TokenView) -> Result<
    FragmentDefinitionView,
    ParseErrorView,
> {
    match name_of(name) {
        Ok(n) => match name_of(node_type) {
            Ok(t) => Ok(
                FragmentDefinitionView {
                    name: n,
                    node_type: t,
                    directives: None,
                    selections: Seq::empty(),
                },
            ),
            Err(e) => Err(e),
        },
        Err(e) => Err(e),
    }
}

impl FragmentDefinitionNode {
    /// A fragment that has no directives and no selections yet.
    pub fn new(name: Token, node_type: Token) -> (r: ParseResult<FragmentDefinitionNode>)
        ensures
            result_view(r) == fragment_of(name@, node_type@),
    {
        match NameNode::new(name) {
            Ok(name) => match NamedTypeNode::new(node_type) {
                Ok(node_type) => {
                    let selections: Vec<Selection> = Vec::new();
                    assert(selections.deep_view() =~= Seq::empty());
                    Ok(FragmentDefinitionNode { name, node_type, directives: None, selections })
                },
                Err(e) => Err(e),
            },
            Err(e) => Err(e),
        }
    }

    /// The fragment with the given directives.
    pub fn with_directives(self, directives: Option<Directives>) -> (r: Self)
        ensures
            r.deep_view() == (FragmentDefinitionView {
                directives: directives.deep_view(),
                ..self.deep_view()
            }),
    {
        FragmentDefinitionNode {
            name: self.name,
            node_type: self.node_type,
            directives,
            selections: self.selections,
        }
    }

    /// The fragment with the given selections.
    pub fn with_selections(self, selections: Selections) -> (r: Self)
        ensures
            r.deep_view() == (FragmentDefinitionView {
                selections: selections.deep_view(),
                ..self.deep_view()
            }),
    {
        FragmentDefinitionNode {
            name: self.name,
            node_type: self.node_type,
            directives: self.directives,
            selections,
        }
    }
}

/// A definition that can be executed: a query or a fragment.
#[derive(Debug, PartialEq)]
pub enum ExecutableDefinitionNode {
    Operation(OperationTypeNode),
    Fragment(FragmentDefinitionNode),
}

/// An [`ExecutableDefinitionNode`] as a mathematical value.
pub enum ExecutableDefinitionView {
    Operation(QueryDefinitionView),
    Fragment(FragmentDefinitionView),
}

impl DeepView for ExecutableDefinitionNode {
    type V = ExecutableDefinitionView;

    open spec fn deep_view(&self) -> ExecutableDefinitionView {
        match self {
            ExecutableDefinitionNode::Operation(n) => ExecutableDefinitionView::Operation(
                n.deep_view(),
            ),
            ExecutableDefinitionNode::Fragment(n) => ExecutableDefinitionView::Fragment(
                n.deep_view(),
            ),
        }
    }
}

/// A definition of a document.
#[derive(Debug, PartialEq)]
pub enum DefinitionNode {
    Executable(ExecutableDefinitionNode),
    TypeSystem(TypeSystemDefinitionNode),
    Extension(TypeSystemExtensionNode),
}

/// A [`DefinitionNode`] as a mathematical value.
pub enum DefinitionView {
    Executable(ExecutableDefinitionView),
    TypeSystem(TypeSystemDefinitionView),
    Extension(object_type_extension::ObjectTypeExtensionView),
}

impl DeepView for DefinitionNode {
    type V = DefinitionView;

    open spec fn deep_view(&self) -> DefinitionView {
        match self {
            DefinitionNode::Executable(n) => DefinitionView::Executable(n.deep_view()),
            DefinitionNode::TypeSystem(n) => DefinitionView::TypeSystem(n.deep_view()),
            DefinitionNode::Extension(n) => DefinitionView::Extension(n.deep_view()),
        }
    }
}

} // verus!
