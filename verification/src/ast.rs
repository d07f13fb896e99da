//! The parser: a recursive descent over the tokens of a lexer, with one
//! token of lookahead.
//!
//! Every function takes the tokens it needs off the stream and returns the
//! node they make, or the first error. Its contract says that the result and
//! the stream that is left are those that the function of the same name in
//! [`crate::grammar`] gives for the stream it started with.

use crate::document::Document;
use crate::error::{ParseError, ParseErrorView, ParseResult, result_view};
use crate::grammar;
use crate::grammar::Stream;
use crate::lexer::{Lexer, LexerItem, item_view, token_stream};
use crate::nodes::object_type_extension::ObjectTypeExtensionNode;
use crate::nodes::{
    ArgumentView, DefinitionView, EnumValueDefinitionView, FieldDefinitionView,
    InputValueDefinitionView, SelectionView, VariableDefinitionView, ObjectFieldView, ValueView,
    Argument, ArgumentDefinitions, Arguments, BooleanValueNode, DefinitionNode, Description,
    DirectiveNode, EnumTypeDefinitionNode, EnumValueDefinitionNode, EnumValueNode,
    ExecutableDefinitionNode, FieldDefinitionNode, FieldNode, FloatValueNode,
    FragmentDefinitionNode, FragmentSpread, FragmentSpreadNode, InlineFragmentSpreadNode,
    InputTypeDefinitionNode, InputValueDefinitionNode, IntValueNode, InterfaceTypeDefinitionNode,
    ListTypeNode, ListValueNode, NameNode, NamedTypeNode, ObjectFieldNode,
    ObjectTypeDefinitionNode, ObjectValueNode, OperationTypeNode, QueryDefinitionNode,
    ScalarTypeDefinitionNode, Selection, StringValueNode, TypeDefinitionNode, TypeNode,
    TypeSystemDefinitionNode, TypeSystemExtensionNode, UnionTypeDefinitionNode, ValueNode,
    VariableDefinitionNode, VariableNode, Variables, lemma_list_value_view,
    lemma_object_value_view, lemma_selection_view,
};
use crate::text::{push_deep, str_eq};
use crate::token::{Location, Token, TokenKind, TokenView};
use std::rc::Rc;
use vstd::prelude::*;

verus! {

/// A parser over the tokens of a text.
#[derive(Debug)]
pub struct AST<'i> {
    lexer: Lexer<'i>,
    peeked: Option<Option<LexerItem<'i>>>,
}

impl<'i> AST<'i> {
    /// The invariant of the parser.
    pub closed spec fn wf(&self) -> bool {
        &&& self.lexer.wf()
        &&& self.peeked == Some(None::<LexerItem<'i>>) ==> self.lexer.remaining().len() == 0
    }

    /// The items that the parser has yet to read: the token it has looked
    /// at but not taken, if there is one, and those that the lexer has yet to
    /// yield.
    pub closed spec fn remaining(&self) -> Stream {
        match self.peeked {
            None => self.lexer.remaining(),
            Some(None) => Seq::empty(),
            Some(Some(item)) => seq![item_view(item)] + self.lexer.remaining(),
        }
    }

    /// A parser at the start of `input`. It never fails.
    pub fn new(input: &'i str) -> (r: ParseResult<AST<'i>>)
        requires
            input@.len() < usize::MAX,
        ensures
            r is Ok,
            r->Ok_0.wf(),
            r->Ok_0.remaining() == token_stream(input@),
    {
        Ok(AST { lexer: Lexer::new(input), peeked: None })
    }

    /// Looks at the next item without taking it.
    fn fill(&mut self)
        requires
            old(self).wf(),
        ensures
            final(self).wf(),
            final(self).remaining() == old(self).remaining(),
            final(self).peeked is Some,
            final(self).peeked == Some(None::<LexerItem<'i>>) ==> final(self).remaining().len() == 0,
            final(self).peeked matches Some(Some(item)) ==> final(self).remaining().len() > 0
                && item_view(item) == final(self).remaining()[0],
    {
        match self.peeked {
            Some(_) => {},
            None => {
                let item = self.lexer.next();
                self.peeked = Some(item);
                assert(self.remaining() =~= old(self).remaining());
            },
        }
    }

    /// The next token, which stays in the stream.
    pub fn unwrap_peeked_token(&mut self) -> (r: ParseResult<Token<'i>>)
        requires
            old(self).wf(),
        ensures
            final(self).wf(),
            final(self).remaining() == old(self).remaining(),
            result_view(r) == grammar::peek_token(old(self).remaining()),
    {
        self.fill();
        match self.peeked {
            Some(Some(Ok(tok))) => Ok(tok),
            Some(Some(Err(lex_error))) => Err(ParseError::LexError(lex_error)),
            _ => Err(ParseError::EOF),
        }
    }

    /// Takes the next token off the stream.
    pub fn unwrap_next_token(&mut self) -> (r: ParseResult<Token<'i>>)
        requires
            old(self).wf(),
        ensures
            final(self).wf(),
            final(self).remaining() == grammar::after_next(old(self).remaining()),
            final(self).remaining().len() <= old(self).remaining().len(),
            r is Ok ==> final(self).remaining().len() < old(self).remaining().len(),
            result_view(r) == grammar::peek_token(old(self).remaining()),
    {
        self.fill();
        match self.peeked {
            Some(Some(item)) => {
                self.peeked = None;
                assert(self.remaining() =~= old(self).remaining().drop_first());
                match item {
                    Ok(tok) => Ok(tok),
                    Err(lex_error) => Err(ParseError::LexError(lex_error)),
                }
            },
            _ => Err(ParseError::EOF),
        }
    }

    /// Takes the next token off the stream and asks that it is of the kind
    /// of `tok`.
    pub fn expect_token(&mut self, tok: Token<'i>) -> (r: ParseResult<Token<'i>>)
        requires
            old(self).wf(),
        ensures
            final(self).wf(),
            final(self).remaining().len() <= old(self).remaining().len(),
            r is Ok ==> final(self).remaining().len() < old(self).remaining().len(),
            (result_view(r), final(self).remaining()) == grammar::expect(
                old(self).remaining(),
                tok@,
            ),
    {
        match self.unwrap_next_token() {
            Ok(actual) => {
                if actual.is_same_type(&tok) {
                    Ok(actual)
                } else {
                    Err(
                        ParseError::UnexpectedToken {
                            expected: tok.to_string(),
                            received: actual.to_string(),
                            location: actual.location(),
                        },
                    )
                }
            },
            Err(e) => Err(e),
        }
    }

    /// Takes the next token off the stream if it is of the kind of `tok`.
    pub fn expect_optional_token(&mut self, tok: &Token<'i>) -> (r: Option<Token<'i>>)
        requires
            old(self).wf(),
        ensures
            final(self).wf(),
            final(self).remaining().len() <= old(self).remaining().len(),
            r is Some ==> final(self).remaining().len() < old(self).remaining().len(),
            r is Some == grammar::next_is(old(self).remaining(), tok@.kind),
            (r.deep_view(), final(self).remaining()) == grammar::expect_optional(
                old(self).remaining(),
                tok@.kind,
            ),
    {
        self.fill();
        match self.peeked {
            Some(Some(Ok(actual))) => {
                if actual.is_same_type(tok) {
                    self.peeked = None;
                    assert(self.remaining() =~= old(self).remaining().drop_first());
                    Some(actual)
                } else {
                    None
                }
            },
            _ => None,
        }
    }

    /// Parses an optional description. See [`grammar::description`].
    pub fn parse_description(&mut self) -> (r: ParseResult<Description>)
        requires
            old(self).wf(),
        ensures
            final(self).wf(),
            final(self).remaining().len() <= old(self).remaining().len(),
            (result_view(r), final(self).remaining()) == grammar::description(
                old(self).remaining(),
            ),
    {
        let peeked = self.unwrap_peeked_token()?;
        match peeked {
            Token::BlockStr(_, _) | Token::Str(_, _) => {
                let tok = self.unwrap_next_token()?;
                Ok(Some(StringValueNode::new(tok)?))
            },
            _ => Ok(None),
        }
    }

    /// Parses a type reference. See [`grammar::field_type`].
    pub fn parse_field_type(&mut self) -> (r: ParseResult<TypeNode>)
        requires
            old(self).wf(),
        ensures
            final(self).wf(),
            final(self).remaining().len() <= old(self).remaining().len(),
            r is Ok ==> final(self).remaining().len() < old(self).remaining().len(),
            (result_view(r), final(self).remaining()) == grammar::field_type(
                old(self).remaining(),
            ),
        decreases old(self).remaining().len(),
    {
        proof {
            reveal_with_fuel(crate::nodes::type_view, 2);
        }
        let mut field_type: TypeNode;
        if let Some(_) = self.expect_optional_token(&Token::OpenSquare(Location::ignored())) {
            field_type = TypeNode::List(ListTypeNode::new(self.parse_field_type()?));
            self.expect_token(Token::CloseSquare(Location::ignored()))?;
        } else {
            field_type =
            TypeNode::Named(
                NamedTypeNode::new(self.expect_token(Token::Name(Location::ignored(), ""))?)?,
            );
        }
        if let Some(_) = self.expect_optional_token(&Token::Bang(Location::ignored())) {
            field_type = TypeNode::NonNull(Rc::new(field_type));
        }
        Ok(field_type)
    }

    /// Parses a variable. See [`grammar::variable`].
    pub fn parse_variable(&mut self) -> (r: ParseResult<VariableNode>)
        requires
            old(self).wf(),
        ensures
            final(self).wf(),
            final(self).remaining().len() <= old(self).remaining().len(),
            r is Ok ==> final(self).remaining().len() < old(self).remaining().len(),
            (result_view(r), final(self).remaining()) == grammar::variable(old(self).remaining()),
    {
        self.expect_token(Token::Dollar(Location::ignored()))?;
        let name = self.unwrap_next_token()?;
        Ok(VariableNode { name: NameNode::new(name)? })
    }

    /// Parses a value. See [`grammar::value`].
    pub fn parse_value(&mut self) -> (r: ParseResult<ValueNode>)
        requires
            old(self).wf(),
        ensures
            final(self).wf(),
            final(self).remaining().len() <= old(self).remaining().len(),
            r is Ok ==> final(self).remaining().len() < old(self).remaining().len(),
            (result_view(r), final(self).remaining()) == grammar::value(old(self).remaining()),
        decreases old(self).remaining().len(), 1int,
    {
        let tok = self.unwrap_peeked_token()?;
        match tok {
            Token::Name(_, value) => {
                self.unwrap_next_token()?;
                if str_eq(value, "true") {
                    Ok(ValueNode::Bool(BooleanValueNode { value: true }))
                } else if str_eq(value, "false") {
                    Ok(ValueNode::Bool(BooleanValueNode { value: false }))
                } else if str_eq(value, "null") {
                    Ok(ValueNode::Null)
                } else {
                    Ok(ValueNode::Enum(EnumValueNode { value: String::from_str(value) }))
                }
            },
            Token::Int(_, value) => {
                self.unwrap_next_token()?;
                Ok(ValueNode::Int(IntValueNode { value }))
            },
            Token::Float(_, value) => {
                self.unwrap_next_token()?;
                Ok(ValueNode::Float(FloatValueNode { value: String::from_str(value) }))
            },
            Token::Str(_, _) | Token::BlockStr(_, _) => {
                let str_tok = self.unwrap_next_token()?;
                Ok(ValueNode::Str(StringValueNode::new(str_tok)?))
            },
            Token::Dollar(_) => {
                let variable = self.parse_variable()?;
                Ok(ValueNode::Variable(variable))
            },
            Token::OpenSquare(_) => {
                let list_value = self.parse_list_value()?;
                proof {
                    lemma_list_value_view(list_value);
                }
                Ok(ValueNode::List(list_value))
            },
            Token::OpenBrace(_) => {
                let obj_value = self.parse_object_value()?;
                proof {
                    lemma_object_value_view(obj_value);
                }
                Ok(ValueNode::Object(obj_value))
            },
            _ => Err(
                ParseError::UnexpectedToken {
                    expected: String::from_str(
                        "One of (Name, Int, Float, Str, Dollar, OpenSquare, OpenBrace)",
                    ),
                    received: tok.to_string(),
                    location: tok.location(),
                },
            ),
        }
    }

    /// Parses a list value. See [`grammar::list_value`].
    pub fn parse_list_value(&mut self) -> (r: ParseResult<ListValueNode>)
        requires
            old(self).wf(),
        ensures
            final(self).wf(),
            final(self).remaining().len() <= old(self).remaining().len(),
            r is Ok ==> final(self).remaining().len() < old(self).remaining().len(),
            (result_view(r), final(self).remaining()) == grammar::list_value(
                old(self).remaining(),
            ),
        decreases old(self).remaining().len(), 0int,
    {
        self.expect_token(Token::OpenSquare(Location::ignored()))?;
        let mut values: Vec<ValueNode> = Vec::new();
        let ghost start = self.remaining();
        assert(values.deep_view() =~= Seq::empty());
        loop
            invariant_except_break
                grammar::list_items(self.remaining(), values.deep_view()) == grammar::list_items(
                    start,
                    Seq::empty(),
                ),
            invariant
                self.wf(),
                self.remaining().len() <= start.len(),
                start.len() < old(self).remaining().len(),
                grammar::list_value(old(self).remaining()) == grammar::list_items(
                    start,
                    Seq::empty(),
                ),
            ensures
                (Ok::<Seq<ValueView>, ParseErrorView>(values.deep_view()), self.remaining())
                    == grammar::list_items(start, Seq::empty()),
            decreases self.remaining().len(),
        {
            if let Some(_) = self.expect_optional_token(&Token::CloseSquare(Location::ignored())) {
                break ;
            }
            let value = self.parse_value()?;
            push_deep(&mut values, value);
        }
        Ok(ListValueNode { values })
    }

    /// Parses an object value. See [`grammar::object_value`].
    pub fn parse_object_value(&mut self) -> (r: ParseResult<ObjectValueNode>)
        requires
            old(self).wf(),
        ensures
            final(self).wf(),
            final(self).remaining().len() <= old(self).remaining().len(),
            r is Ok ==> final(self).remaining().len() < old(self).remaining().len(),
            (result_view(r), final(self).remaining()) == grammar::object_value(
                old(self).remaining(),
            ),
        decreases old(self).remaining().len(), 0int,
    {
        self.expect_token(Token::OpenBrace(Location::ignored()))?;
        let mut fields: Vec<ObjectFieldNode> = Vec::new();
        let ghost start = self.remaining();
        assert(fields.deep_view() =~= Seq::empty());
        loop
            invariant_except_break
                grammar::object_fields(self.remaining(), fields.deep_view())
                    == grammar::object_fields(start, Seq::empty()),
            invariant
                self.wf(),
                self.remaining().len() <= start.len(),
                start.len() < old(self).remaining().len(),
                grammar::object_value(old(self).remaining()) == grammar::object_fields(
                    start,
                    Seq::empty(),
                ),
            ensures
                (Ok::<Seq<ObjectFieldView>, ParseErrorView>(fields.deep_view()), self.remaining())
                    == grammar::object_fields(start, Seq::empty()),
            decreases self.remaining().len(),
        {
            if let Some(_) = self.expect_optional_token(&Token::CloseBrace(Location::ignored())) {
                break ;
            }
            let name = self.unwrap_next_token()?;
            self.expect_token(Token::Colon(Location::ignored()))?;
            let value = self.parse_value()?;
            push_deep(&mut fields, ObjectFieldNode { name: NameNode::new(name)?, value });
        }
        Ok(ObjectValueNode { fields })
    }

    /// Parses an argument. See [`grammar::argument`].
    pub fn parse_argument(&mut self) -> (r: ParseResult<Argument>)
        requires
            old(self).wf(),
        ensures
            final(self).wf(),
            final(self).remaining().len() <= old(self).remaining().len(),
            r is Ok ==> final(self).remaining().len() < old(self).remaining().len(),
            (result_view(r), final(self).remaining()) == grammar::argument(old(self).remaining()),
    {
        let name = self.unwrap_next_token()?;
        self.expect_token(Token::Colon(Location::ignored()))?;
        let value = self.parse_value()?;
        Ok(Argument { name: NameNode::new(name)?, value })
    }

    /// Parses an optional list of arguments. See [`grammar::arguments`].
    pub fn parse_arguments(&mut self) -> (r: ParseResult<Option<Arguments>>)
        requires
            old(self).wf(),
        ensures
            final(self).wf(),
            final(self).remaining().len() <= old(self).remaining().len(),
            (result_view(r), final(self).remaining()) == grammar::arguments(old(self).remaining()),
    {
        match self.expect_optional_token(&Token::OpenParen(Location::ignored())) {
            Some(_) => {
                let mut args: Arguments = Vec::new();
                let ghost start = self.remaining();
                assert(args.deep_view() =~= Seq::empty());
                loop
                    invariant_except_break
                        grammar::argument_items(self.remaining(), args.deep_view())
                            == grammar::argument_items(start, Seq::empty()),
                    invariant
                        self.wf(),
                        self.remaining().len() <= start.len(),
                        grammar::next_is(old(self).remaining(), TokenKind::OpenParen),
                        start == old(self).remaining().drop_first(),
                    ensures
                        (Ok::<Seq<ArgumentView>, ParseErrorView>(args.deep_view()), self.remaining())
                            == grammar::argument_items(start, Seq::empty()),
                    decreases self.remaining().len(),
                {
                    if let Some(token) = self.expect_optional_token(
                        &Token::CloseParen(Location::ignored()),
                    ) {
                        if args.len() == 0 {
                            return Err(ParseError::ArgumentEmpty(token.location()));
                        }
                        break ;
                    }
                    let argument = self.parse_argument()?;
                    push_deep(&mut args, argument);
                }
                Ok(Some(args))
            },
            None => Ok(None),
        }
    }

    /// Parses a directive. See [`grammar::directive`].
    pub fn parse_directive(&mut self) -> (r: ParseResult<DirectiveNode>)
        requires
            old(self).wf(),
        ensures
            final(self).wf(),
            final(self).remaining().len() <= old(self).remaining().len(),
            r is Ok ==> final(self).remaining().len() < old(self).remaining().len(),
            (result_view(r), final(self).remaining()) == grammar::directive(old(self).remaining()),
    {
        self.expect_token(Token::At(Location::ignored()))?;
        let name = self.unwrap_next_token()?;
        let arguments = self.parse_arguments()?;
        Ok(DirectiveNode::new(name, arguments)?)
    }

    /// Parses the directives that follow; none at all is no list. See
    /// [`grammar::directives`].
    pub fn parse_directives(&mut self) -> (r: ParseResult<Option<Vec<DirectiveNode>>>)
        requires
            old(self).wf(),
        ensures
            final(self).wf(),
            final(self).remaining().len() <= old(self).remaining().len(),
            (result_view(r), final(self).remaining()) == grammar::directives(
                old(self).remaining(),
            ),
    {
        let mut directives: Vec<DirectiveNode> = Vec::new();
        let ghost start = self.remaining();
        assert(directives.deep_view() =~= Seq::empty());
        loop
            invariant
                self.wf(),
                self.remaining().len() <= start.len(),
                start == old(self).remaining(),
                grammar::directive_items(self.remaining(), directives.deep_view())
                    == grammar::directive_items(start, Seq::empty()),
            ensures
                grammar::peek_token(self.remaining()) is Ok,
                grammar::peek_token(self.remaining())->Ok_0.kind != TokenKind::At,
            decreases self.remaining().len(),
        {
            let tok = self.unwrap_peeked_token()?;
            if let Token::At(_) = tok {
                let directive = self.parse_directive()?;
                push_deep(&mut directives, directive);
            } else {
                break ;
            }
        }
        if directives.len() > 0 {
            Ok(Some(directives))
        } else {
            Ok(None)
        }
    }

    /// Parses an optional default value. See [`grammar::default_value`].
    pub fn parse_default_value(&mut self) -> (r: ParseResult<Option<ValueNode>>)
        requires
            old(self).wf(),
        ensures
            final(self).wf(),
            final(self).remaining().len() <= old(self).remaining().len(),
            (result_view(r), final(self).remaining()) == grammar::default_value(
                old(self).remaining(),
            ),
    {
        match self.expect_optional_token(&Token::Equals(Location::ignored())) {
            Some(_) => Ok(Some(self.parse_value()?)),
            None => Ok(None),
        }
    }

    /// Parses an input value. See [`grammar::input_value`].
    pub fn parse_input_value(&mut self) -> (r: ParseResult<InputValueDefinitionNode>)
        requires
            old(self).wf(),
        ensures
            final(self).wf(),
            final(self).remaining().len() <= old(self).remaining().len(),
            r is Ok ==> final(self).remaining().len() < old(self).remaining().len(),
            (result_view(r), final(self).remaining()) == grammar::input_value(
                old(self).remaining(),
            ),
    {
        let description = self.parse_description()?;
        let name_tok = self.unwrap_next_token()?;
        self.expect_token(Token::Colon(Location::ignored()))?;
        let type_node = self.parse_field_type()?;
        let default_value = self.parse_default_value()?;
        let directives = self.parse_directives()?;
        let mut input_value = InputValueDefinitionNode::new(name_tok, type_node, description)?;
        input_value.with_default_value(default_value);
        input_value.with_directives(directives);
        Ok(input_value)
    }

    /// Parses an optional list of argument definitions. See
    /// [`grammar::arguments_definition`].
    pub fn parse_arguments_definition(&mut self) -> (r: ParseResult<Option<ArgumentDefinitions>>)
        requires
            old(self).wf(),
        ensures
            final(self).wf(),
            final(self).remaining().len() <= old(self).remaining().len(),
            (result_view(r), final(self).remaining()) == grammar::arguments_definition(
                old(self).remaining(),
            ),
    {
        match self.expect_optional_token(&Token::OpenParen(Location::ignored())) {
            Some(_) => {
                let ghost start = self.remaining();
                if let Some(token) = self.expect_optional_token(
                    &Token::CloseParen(Location::ignored()),
                ) {
                    return Err(ParseError::ArgumentEmpty(token.location()));
                }
                let mut args: ArgumentDefinitions = Vec::new();
                assert(args.deep_view() =~= Seq::empty());
                loop
                    invariant_except_break
                        grammar::argument_definition_items(self.remaining(), args.deep_view())
                            == grammar::argument_definition_items(start, Seq::empty()),
                    invariant
                        self.wf(),
                        self.remaining().len() <= start.len(),
                        grammar::next_is(old(self).remaining(), TokenKind::OpenParen),
                        start == old(self).remaining().drop_first(),
                        !grammar::next_is(start, TokenKind::CloseParen),
                    ensures
                        (
                            Ok::<Seq<InputValueDefinitionView>, ParseErrorView>(args.deep_view()),
                            self.remaining(),
                        ) == grammar::argument_definition_items(start, Seq::empty()),
                    decreases self.remaining().len(),
                {
                    let input_value = self.parse_input_value()?;
                    push_deep(&mut args, input_value);
                    if let Some(_) = self.expect_optional_token(
                        &Token::CloseParen(Location::ignored()),
                    ) {
                        break ;
                    }
                }
                Ok(Some(args))
            },
            None => Ok(None),
        }
    }

    /// Parses a field definition. See [`grammar::field`].
    pub fn parse_field(&mut self) -> (r: ParseResult<FieldDefinitionNode>)
        requires
            old(self).wf(),
        ensures
            final(self).wf(),
            final(self).remaining().len() <= old(self).remaining().len(),
            r is Ok ==> final(self).remaining().len() < old(self).remaining().len(),
            (result_view(r), final(self).remaining()) == grammar::field(old(self).remaining()),
    {
        let description = self.parse_description()?;
        let name = self.expect_token(Token::Name(Location::ignored(), ""))?;
        let arguments = self.parse_arguments_definition()?;
        self.expect_token(Token::Colon(Location::ignored()))?;
        let field_type = self.parse_field_type()?;
        FieldDefinitionNode::new(name, field_type, description, arguments)
    }

    /// Parses a block of field definitions. See [`grammar::fields`].
    pub fn parse_fields(&mut self) -> (r: ParseResult<Vec<FieldDefinitionNode>>)
        requires
            old(self).wf(),
        ensures
            final(self).wf(),
            final(self).remaining().len() <= old(self).remaining().len(),
            r is Ok ==> final(self).remaining().len() < old(self).remaining().len(),
            (result_view(r), final(self).remaining()) == grammar::fields(old(self).remaining()),
    {
        let mut fields: Vec<FieldDefinitionNode> = Vec::new();
        self.expect_token(Token::OpenBrace(Location::ignored()))?;
        let ghost start = self.remaining();
        assert(fields.deep_view() =~= Seq::empty());
        loop
            invariant_except_break
                grammar::field_items(self.remaining(), fields.deep_view()) == grammar::field_items(
                    start,
                    Seq::empty(),
                ),
            invariant
                self.wf(),
                self.remaining().len() <= start.len(),
                start.len() < old(self).remaining().len(),
                grammar::fields(old(self).remaining()) == grammar::field_items(start, Seq::empty()),
            ensures
                (Ok::<Seq<FieldDefinitionView>, ParseErrorView>(fields.deep_view()), self.remaining())
                    == grammar::field_items(start, Seq::empty()),
            decreases self.remaining().len(),
        {
            if let Some(_) = self.expect_optional_token(&Token::CloseBrace(Location::ignored())) {
                break ;
            }
            let field = self.parse_field()?;
            push_deep(&mut fields, field);
        }
        Ok(fields)
    }

    /// Parses a block of input values that is not empty. See
    /// [`grammar::input_fields`].
    pub fn parse_input_fields(&mut self) -> (r: ParseResult<Vec<InputValueDefinitionNode>>)
        requires
            old(self).wf(),
        ensures
            final(self).wf(),
            final(self).remaining().len() <= old(self).remaining().len(),
            r is Ok ==> final(self).remaining().len() < old(self).remaining().len(),
            (result_view(r), final(self).remaining()) == grammar::input_fields(
                old(self).remaining(),
            ),
    {
        let mut fields: Vec<InputValueDefinitionNode> = Vec::new();
        let tok = self.expect_token(Token::OpenBrace(Location::ignored()))?;
        let ghost start = self.remaining();
        assert(fields.deep_view() =~= Seq::empty());
        loop
            invariant_except_break
                grammar::input_field_items(self.remaining(), fields.deep_view())
                    == grammar::input_field_items(start, Seq::empty()),
            invariant
                self.wf(),
                self.remaining().len() <= start.len(),
                start.len() < old(self).remaining().len(),
                grammar::expect(old(self).remaining(), grammar::mark(TokenKind::OpenBrace)) == (
                    Ok::<TokenView, ParseErrorView>(tok@),
                    start,
                ),
            ensures
                (
                    Ok::<Seq<InputValueDefinitionView>, ParseErrorView>(fields.deep_view()),
                    self.remaining(),
                ) == grammar::input_field_items(start, Seq::empty()),
            decreases self.remaining().len(),
        {
            if let Some(_) = self.expect_optional_token(&Token::CloseBrace(Location::ignored())) {
                break ;
            }
            let field = self.parse_input_value()?;
            push_deep(&mut fields, field);
        }
        if fields.len() > 0 {
            Ok(fields)
        } else {
            Err(ParseError::ObjectEmpty(tok.location()))
        }
    }

    /// Parses the block of values of an enum. See [`grammar::enum_values`].
    pub fn parse_enum_values(&mut self) -> (r: ParseResult<Vec<EnumValueDefinitionNode>>)
        requires
            old(self).wf(),
        ensures
            final(self).wf(),
            final(self).remaining().len() <= old(self).remaining().len(),
            r is Ok ==> final(self).remaining().len() < old(self).remaining().len(),
            (result_view(r), final(self).remaining()) == grammar::enum_values(
                old(self).remaining(),
            ),
    {
        let mut values: Vec<EnumValueDefinitionNode> = Vec::new();
        let tok = self.expect_token(Token::OpenBrace(Location::ignored()))?;
        let ghost start = self.remaining();
        assert(values.deep_view() =~= Seq::empty());
        loop
            invariant_except_break
                grammar::enum_value_items(self.remaining(), values.deep_view())
                    == grammar::enum_value_items(start, Seq::empty()),
            invariant
                self.wf(),
                self.remaining().len() <= start.len(),
                start.len() < old(self).remaining().len(),
                grammar::expect(old(self).remaining(), grammar::mark(TokenKind::OpenBrace)) == (
                    Ok::<TokenView, ParseErrorView>(tok@),
                    start,
                ),
            ensures
                (
                    Ok::<Seq<EnumValueDefinitionView>, ParseErrorView>(values.deep_view()),
                    self.remaining(),
                ) == grammar::enum_value_items(start, Seq::empty()),
            decreases self.remaining().len(),
        {
            if let Some(_) = self.expect_optional_token(&Token::CloseBrace(Location::ignored())) {
                break ;
            }
            let description = self.parse_description()?;
            let name = self.expect_token(Token::Name(Location::ignored(), ""))?;
            if is_value_keyword(&name) {
                return Err(ParseError::BadValue);
            }
            let directives = self.parse_directives()?;
            let value = EnumValueDefinitionNode::new(name, description, directives)?;
            push_deep(&mut values, value);
        }
        if values.len() > 0 {
            Ok(values)
        } else {
            Err(ParseError::ObjectEmpty(tok.location()))
        }
    }

    /// Parses the members of a union. See [`grammar::union_types`].
    pub fn parse_union_types(&mut self) -> (r: ParseResult<Vec<NamedTypeNode>>)
        requires
            old(self).wf(),
        ensures
            final(self).wf(),
            final(self).remaining().len() <= old(self).remaining().len(),
            r is Ok ==> final(self).remaining().len() < old(self).remaining().len(),
            (result_view(r), final(self).remaining()) == grammar::union_types(
                old(self).remaining(),
            ),
    {
        let mut types: Vec<NamedTypeNode> = Vec::new();
        assert(types.deep_view() =~= Seq::empty());
        self.expect_optional_token(&Token::Pipe(Location::ignored()));
        let first = NamedTypeNode::new(self.unwrap_next_token()?)?;
        push_deep(&mut types, first);
        let ghost start = self.remaining();
        let ghost head = types.deep_view();
        loop
            invariant
                self.wf(),
                self.remaining().len() <= start.len(),
                start.len() < old(self).remaining().len(),
                grammar::union_types(old(self).remaining()) == grammar::union_member_items(
                    start,
                    head,
                ),
                grammar::union_member_items(self.remaining(), types.deep_view())
                    == grammar::union_member_items(start, head),
            ensures
                !grammar::next_is(self.remaining(), TokenKind::Pipe),
            decreases self.remaining().len(),
        {
            if let Some(_) = self.expect_optional_token(&Token::Pipe(Location::ignored())) {
                let member = NamedTypeNode::new(self.unwrap_next_token()?)?;
                push_deep(&mut types, member);
            } else {
                break ;
            }
        }
        Ok(types)
    }

    /// Parses the interfaces of an object. See [`grammar::object_interfaces`].
    pub fn parse_object_interfaces(&mut self) -> (r: ParseResult<Option<Vec<NamedTypeNode>>>)
        requires
            old(self).wf(),
        ensures
            final(self).wf(),
            final(self).remaining().len() <= old(self).remaining().len(),
            (result_view(r), final(self).remaining()) == grammar::object_interfaces(
                old(self).remaining(),
            ),
    {
        if let Some(name_tok) = self.expect_optional_token(&Token::Name(Location::ignored(), "")) {
            match name_tok {
                Token::Name(location, keyword) => {
                    if str_eq(keyword, "implements") {
                        let mut interface_names: Vec<NamedTypeNode> = Vec::new();
                        let ghost start = self.remaining();
                        assert(interface_names.deep_view() =~= Seq::empty());
                        loop
                            invariant_except_break
                                grammar::interface_items(
                                    self.remaining(),
                                    interface_names.deep_view(),
                                ) == grammar::interface_items(start, Seq::empty()),
                            invariant
                                self.wf(),
                                self.remaining().len() <= start.len(),
                                grammar::next_is(old(self).remaining(), TokenKind::Name),
                                old(self).remaining()[0]->Ok_0.text == "implements"@,
                                start == old(self).remaining().drop_first(),
                            ensures
                                (
                                    Ok::<Seq<Seq<char>>, ParseErrorView>(
                                        interface_names.deep_view(),
                                    ),
                                    self.remaining(),
                                ) == grammar::interface_items(start, Seq::empty()),
                            decreases self.remaining().len(),
                        {
                            let interface_name = self.expect_token(
                                Token::Name(Location::ignored(), ""),
                            )?;
                            let interface = NamedTypeNode::new(interface_name)?;
                            push_deep(&mut interface_names, interface);
                            if let None = self.expect_optional_token(
                                &Token::Amp(Location::ignored()),
                            ) {
                                break ;
                            }
                        }
                        Ok(Some(interface_names))
                    } else {
                        Err(
                            ParseError::UnexpectedKeyword {
                                expected: String::from_str("implements"),
                                received: String::from_str(keyword),
                                location,
                            },
                        )
                    }
                },
                tok => Err(
                    ParseError::UnexpectedToken {
                        expected: String::from_str("Token<Name>"),
                        received: tok.to_string(),
                        location: tok.location(),
                    },
                ),
            }
        } else {
            Ok(None)
        }
    }

    /// Parses an object type, behind its keyword. See [`grammar::object_type`].
    pub fn parse_object_type(&mut self, description: Description) -> (r: ParseResult<
        ObjectTypeDefinitionNode,
    >)
        requires
            old(self).wf(),
        ensures
            final(self).wf(),
            final(self).remaining().len() <= old(self).remaining().len(),
            r is Ok ==> final(self).remaining().len() < old(self).remaining().len(),
            (result_view(r), final(self).remaining()) == grammar::object_type(
                old(self).remaining(),
                description.deep_view(),
            ),
    {
        let name_tok = self.expect_token(Token::Name(Location::ignored(), ""))?;
        let interfaces = self.parse_object_interfaces()?;
        let directives = self.parse_directives()?;
        let fields = self.parse_fields()?;
        let mut obj = ObjectTypeDefinitionNode::new(name_tok, description, fields)?;
        obj.with_interfaces(interfaces);
        obj.with_directives(directives);
        Ok(obj)
    }

    /// Parses an extension of an object type, behind its keywords. See
    /// [`grammar::object_type_extension`].
    pub fn parse_object_type_extension(&mut self, description: Description) -> (r: ParseResult<
        ObjectTypeExtensionNode,
    >)
        requires
            old(self).wf(),
        ensures
            final(self).wf(),
            final(self).remaining().len() <= old(self).remaining().len(),
            r is Ok ==> final(self).remaining().len() < old(self).remaining().len(),
            (result_view(r), final(self).remaining()) == grammar::object_type_extension(
                old(self).remaining(),
                description.deep_view(),
            ),
    {
        let name_tok = self.unwrap_next_token()?;
        let interfaces = self.parse_object_interfaces()?;
        let directives = self.parse_directives()?;
        let mut type_extension = ObjectTypeExtensionNode::new(name_tok, description)?;
        type_extension.with_interfaces(interfaces);
        type_extension.with_directives(directives);
        if let Token::OpenBrace(_) = self.unwrap_peeked_token()? {
            let fields = self.parse_fields()?;
            type_extension.with_fields(fields);
        }
        Ok(type_extension)
    }

    /// Parses an interface type, behind its keyword. See
    /// [`grammar::interface_type`].
    pub fn parse_interface_type(&mut self, description: Description) -> (r: ParseResult<
        InterfaceTypeDefinitionNode,
    >)
        requires
            old(self).wf(),
        ensures
            final(self).wf(),
            final(self).remaining().len() <= old(self).remaining().len(),
            r is Ok ==> final(self).remaining().len() < old(self).remaining().len(),
            (result_view(r), final(self).remaining()) == grammar::interface_type(
                old(self).remaining(),
                description.deep_view(),
            ),
    {
        let name_tok = self.expect_token(Token::Name(Location::ignored(), ""))?;
        let directives = self.parse_directives()?;
        let fields = self.parse_fields()?;
        let mut interface = InterfaceTypeDefinitionNode::new(name_tok, description)?;
        interface.with_directives(directives);
        interface.with_fields(fields);
        Ok(interface)
    }

    /// Parses an input type, behind its keyword. See [`grammar::input_type`].
    pub fn parse_input_type(&mut self, description: Description) -> (r: ParseResult<
        InputTypeDefinitionNode,
    >)
        requires
            old(self).wf(),
        ensures
            final(self).wf(),
            final(self).remaining().len() <= old(self).remaining().len(),
            r is Ok ==> final(self).remaining().len() < old(self).remaining().len(),
            (result_view(r), final(self).remaining()) == grammar::input_type(
                old(self).remaining(),
                description.deep_view(),
            ),
    {
        let name_tok = self.expect_token(Token::Name(Location::ignored(), ""))?;
        let mut input_type = InputTypeDefinitionNode::new(name_tok, description)?;
        let fields = self.parse_input_fields()?;
        input_type.with_fields(fields);
        Ok(input_type)
    }

    /// Parses a scalar type, behind its keyword. See [`grammar::scalar_type`].
    pub fn parse_scalar_type(&mut self, description: Description) -> (r: ParseResult<
        ScalarTypeDefinitionNode,
    >)
        requires
            old(self).wf(),
        ensures
            final(self).wf(),
            final(self).remaining().len() <= old(self).remaining().len(),
            r is Ok ==> final(self).remaining().len() < old(self).remaining().len(),
            (result_view(r), final(self).remaining()) == grammar::scalar_type(
                old(self).remaining(),
                description.deep_view(),
            ),
    {
        let name_tok = self.expect_token(Token::Name(Location::ignored(), ""))?;
        let directives = self.parse_directives()?;
        let mut scalar_type = ScalarTypeDefinitionNode::new(name_tok, description)?;
        scalar_type.with_directives(directives);
        Ok(scalar_type)
    }

    /// Parses an enum type, behind its keyword. See [`grammar::enum_type`].
    pub fn parse_enum_type(&mut self, description: Description) -> (r: ParseResult<
        EnumTypeDefinitionNode,
    >)
        requires
            old(self).wf(),
        ensures
            final(self).wf(),
            final(self).remaining().len() <= old(self).remaining().len(),
            r is Ok ==> final(self).remaining().len() < old(self).remaining().len(),
            (result_view(r), final(self).remaining()) == grammar::enum_type(
                old(self).remaining(),
                description.deep_view(),
            ),
    {
        let name_tok = self.expect_token(Token::Name(Location::ignored(), "enum"))?;
        if is_value_keyword(&name_tok) {
            return Err(ParseError::BadValue);
        }
        let directives = self.parse_directives()?;
        let values = self.parse_enum_values()?;
        Ok(EnumTypeDefinitionNode::new(name_tok, description, directives, values)?)
    }

    /// Parses a union type, behind its keyword. See [`grammar::union_type`].
    pub fn parse_union_type(&mut self, description: Description) -> (r: ParseResult<
        UnionTypeDefinitionNode,
    >)
        requires
            old(self).wf(),
        ensures
            final(self).wf(),
            final(self).remaining().len() <= old(self).remaining().len(),
            r is Ok ==> final(self).remaining().len() < old(self).remaining().len(),
            (result_view(r), final(self).remaining()) == grammar::union_type(
                old(self).remaining(),
                description.deep_view(),
            ),
    {
        let name_tok = self.expect_token(Token::Name(Location::ignored(), "union"))?;
        let directives = self.parse_directives()?;
        self.expect_token(Token::Equals(Location::ignored()))?;
        let types = self.parse_union_types()?;
        Ok(UnionTypeDefinitionNode::new(name_tok, description, directives, types)?)
    }

    /// Parses a type definition. See [`grammar::type_definition`].
    pub fn parse_type(&mut self, description: Description) -> (r: ParseResult<TypeDefinitionNode>)
        requires
            old(self).wf(),
        ensures
            final(self).wf(),
            final(self).remaining().len() <= old(self).remaining().len(),
            r is Ok ==> final(self).remaining().len() < old(self).remaining().len(),
            (result_view(r), final(self).remaining()) == grammar::type_definition(
                old(self).remaining(),
                description.deep_view(),
            ),
    {
        let tok = self.unwrap_next_token()?;
        if let Token::Name(_, val) = tok {
            if str_eq(val, "type") {
                Ok(TypeDefinitionNode::Object(self.parse_object_type(description)?))
            } else if str_eq(val, "enum") {
                Ok(TypeDefinitionNode::Enum(self.parse_enum_type(description)?))
            } else if str_eq(val, "union") {
                Ok(TypeDefinitionNode::Union(self.parse_union_type(description)?))
            } else if str_eq(val, "interface") {
                Ok(TypeDefinitionNode::Interface(self.parse_interface_type(description)?))
            } else if str_eq(val, "input") {
                Ok(TypeDefinitionNode::Input(self.parse_input_type(description)?))
            } else if str_eq(val, "scalar") {
                Ok(TypeDefinitionNode::Scalar(self.parse_scalar_type(description)?))
            } else {
                Err(ParseError::BadValue)
            }
        } else {
            Err(
                ParseError::UnexpectedToken {
                    expected: String::from_str("Token::Name"),
                    received: tok.to_string(),
                    location: tok.location(),
                },
            )
        }
    }

    /// Parses a type extension. See [`grammar::type_extension`].
    pub fn parse_type_extension(&mut self, description: Description) -> (r: ParseResult<
        TypeSystemExtensionNode,
    >)
        requires
            old(self).wf(),
        ensures
            final(self).wf(),
            final(self).remaining().len() <= old(self).remaining().len(),
            r is Ok ==> final(self).remaining().len() < old(self).remaining().len(),
            (result_view(r), final(self).remaining()) == grammar::type_extension(
                old(self).remaining(),
                description.deep_view(),
            ),
    {
        self.unwrap_next_token()?;
        let tok = self.unwrap_next_token()?;
        match tok {
            Token::Name(_, keyword) => {
                if str_eq(keyword, "type") {
                    return Ok(
                        TypeSystemExtensionNode::Object(
                            self.parse_object_type_extension(description)?,
                        ),
                    );
                }
            },
            _ => {},
        }
        Err(
            ParseError::UnexpectedToken {
                expected: String::from_str("Token::Name"),
                received: tok.to_string(),
                location: tok.location(),
            },
        )
    }

    /// Parses the definition of a variable. See
    /// [`grammar::variable_definition`].
    pub fn parse_variable_definition(&mut self) -> (r: ParseResult<VariableDefinitionNode>)
        requires
            old(self).wf(),
        ensures
            final(self).wf(),
            final(self).remaining().len() <= old(self).remaining().len(),
            r is Ok ==> final(self).remaining().len() < old(self).remaining().len(),
            (result_view(r), final(self).remaining()) == grammar::variable_definition(
                old(self).remaining(),
            ),
    {
        let variable = self.parse_variable()?;
        self.expect_token(Token::Colon(Location::ignored()))?;
        let variable_type = self.parse_field_type()?;
        let default_value = self.parse_default_value()?;
        Ok(VariableDefinitionNode { variable, variable_type, default_value })
    }

    /// Parses the definitions of the variables of a query. See
    /// [`grammar::variables`].
    pub fn parse_variables(&mut self) -> (r: ParseResult<Variables>)
        requires
            old(self).wf(),
        ensures
            final(self).wf(),
            final(self).remaining().len() <= old(self).remaining().len(),
            (result_view(r), final(self).remaining()) == grammar::variables(old(self).remaining()),
    {
        let mut variables: Variables = Vec::new();
        assert(variables.deep_view() =~= Seq::empty());
        if let Some(_) = self.expect_optional_token(&Token::OpenParen(Location::ignored())) {
            let ghost start = self.remaining();
            loop
                invariant_except_break
                    grammar::variable_items(self.remaining(), variables.deep_view())
                        == grammar::variable_items(start, Seq::empty()),
                invariant
                    self.wf(),
                    self.remaining().len() <= start.len(),
                    grammar::next_is(old(self).remaining(), TokenKind::OpenParen),
                    start == old(self).remaining().drop_first(),
                ensures
                    (
                        Ok::<Seq<VariableDefinitionView>, ParseErrorView>(variables.deep_view()),
                        self.remaining(),
                    ) == grammar::variable_items(start, Seq::empty()),
                decreases self.remaining().len(),
            {
                if let Some(_) = self.expect_optional_token(
                    &Token::CloseParen(Location::ignored()),
                ) {
                    break ;
                }
                let variable = self.parse_variable_definition()?;
                push_deep(&mut variables, variable);
            }
        }
        Ok(variables)
    }

    /// Parses a selection set. See [`grammar::selection_set`].
    pub fn parse_selection_set(&mut self) -> (r: ParseResult<Vec<Selection>>)
        requires
            old(self).wf(),
        ensures
            final(self).wf(),
            final(self).remaining().len() <= old(self).remaining().len(),
            r is Ok ==> final(self).remaining().len() < old(self).remaining().len(),
            (result_view(r), final(self).remaining()) == grammar::selection_set(
                old(self).remaining(),
            ),
        decreases old(self).remaining().len(), 0int,
    {
        self.expect_token(Token::OpenBrace(Location::ignored()))?;
        let mut selections: Vec<Selection> = Vec::new();
        let ghost start = self.remaining();
        assert(selections.deep_view() =~= Seq::empty());
        loop
            invariant_except_break
                grammar::selection_items(self.remaining(), selections.deep_view())
                    == grammar::selection_items(start, Seq::empty()),
            invariant
                self.wf(),
                self.remaining().len() <= start.len(),
                start.len() < old(self).remaining().len(),
                grammar::selection_set(old(self).remaining()) == grammar::selection_items(
                    start,
                    Seq::empty(),
                ),
            ensures
                (Ok::<Seq<SelectionView>, ParseErrorView>(selections.deep_view()), self.remaining())
                    == grammar::selection_items(start, Seq::empty()),
            decreases self.remaining().len(),
        {
            if let Some(_) = self.expect_optional_token(&Token::CloseBrace(Location::ignored())) {
                break ;
            }
            let selection = self.parse_selection()?;
            push_deep(&mut selections, selection);
        }
        Ok(selections)
    }

    /// Parses a selection. See [`grammar::selection`].
    pub fn parse_selection(&mut self) -> (r: ParseResult<Selection>)
        requires
            old(self).wf(),
        ensures
            final(self).wf(),
            final(self).remaining().len() <= old(self).remaining().len(),
            r is Ok ==> final(self).remaining().len() < old(self).remaining().len(),
            (result_view(r), final(self).remaining()) == grammar::selection(old(self).remaining()),
        decreases old(self).remaining().len(), 3int,
    {
        match self.unwrap_peeked_token()? {
            Token::Name(_, _) => {
                let selection = Selection::Field(self.parse_field_node()?);
                proof {
                    lemma_selection_view(selection);
                }
                Ok(selection)
            },
            Token::Spread(_) => {
                let selection = Selection::Fragment(self.parse_fragment_spread()?);
                proof {
                    lemma_selection_view(selection);
                }
                Ok(selection)
            },
            _ => Err(ParseError::NotImplemented),
        }
    }

    /// Parses a field of a selection set. See [`grammar::field_node`].
    pub fn parse_field_node(&mut self) -> (r: ParseResult<FieldNode>)
        requires
            old(self).wf(),
        ensures
            final(self).wf(),
            final(self).remaining().len() <= old(self).remaining().len(),
            r is Ok ==> final(self).remaining().len() < old(self).remaining().len(),
            (result_view(r), final(self).remaining()) == grammar::field_node(
                old(self).remaining(),
            ),
        decreases old(self).remaining().len(), 2int,
    {
        let mut field: FieldNode;
        let name = self.unwrap_next_token()?;
        if let Some(_) = self.expect_optional_token(&Token::Colon(Location::ignored())) {
            let root = self.unwrap_next_token()?;
            field = FieldNode::new(root)?;
            field.with_alias(name)?;
        } else {
            field = FieldNode::new(name)?;
        }
        let arguments = self.parse_arguments()?;
        field.with_arguments(arguments);
        let directives = self.parse_directives()?;
        field.with_directives(directives);
        if let Token::OpenBrace(_) = self.unwrap_peeked_token()? {
            let selections = self.parse_selection_set()?;
            field.with_selections(selections);
        }
        Ok(field)
    }

    /// Parses a fragment spread. See [`grammar::fragment_spread`].
    pub fn parse_fragment_spread(&mut self) -> (r: ParseResult<FragmentSpread>)
        requires
            old(self).wf(),
        ensures
            final(self).wf(),
            final(self).remaining().len() <= old(self).remaining().len(),
            r is Ok ==> final(self).remaining().len() < old(self).remaining().len(),
            (result_view(r), final(self).remaining()) == grammar::fragment_spread(
                old(self).remaining(),
            ),
        decreases old(self).remaining().len(), 2int,
    {
        self.expect_token(Token::Spread(Location::ignored()))?;
        let tok = self.unwrap_peeked_token()?;
        match tok {
            Token::Name(_, keyword) => {
                if str_eq(keyword, "on") {
                    Ok(FragmentSpread::Inline(self.parse_inline_fragment_spread()?))
                } else {
                    Ok(FragmentSpread::Node(self.parse_fragment_spread_node()?))
                }
            },
            Token::At(_) => Ok(
                FragmentSpread::Inline(self.parse_anonymous_inline_fragmen_spread()?),
            ),
            _ => Err(
                ParseError::UnexpectedToken {
                    location: tok.location(),
                    expected: String::from_str("One of Token::Name or Token::At"),
                    received: tok.to_string(),
                },
            ),
        }
    }

    /// Parses the use of a named fragment. See
    /// [`grammar::fragment_spread_node`].
    pub fn parse_fragment_spread_node(&mut self) -> (r: ParseResult<FragmentSpreadNode>)
        requires
            old(self).wf(),
        ensures
            final(self).wf(),
            final(self).remaining().len() <= old(self).remaining().len(),
            r is Ok ==> final(self).remaining().len() < old(self).remaining().len(),
            (result_view(r), final(self).remaining()) == grammar::fragment_spread_node(
                old(self).remaining(),
            ),
    {
        let name = self.unwrap_next_token()?;
        let directives = self.parse_directives()?;
        Ok(FragmentSpreadNode { name: NameNode::new(name)?, directives })
    }

    /// Parses an inline fragment on a type. See
    /// [`grammar::inline_fragment_spread`].
    pub fn parse_inline_fragment_spread(&mut self) -> (r: ParseResult<InlineFragmentSpreadNode>)
        requires
            old(self).wf(),
        ensures
            final(self).wf(),
            final(self).remaining().len() <= old(self).remaining().len(),
            r is Ok ==> final(self).remaining().len() < old(self).remaining().len(),
            (result_view(r), final(self).remaining()) == grammar::inline_fragment_spread(
                old(self).remaining(),
            ),
        decreases old(self).remaining().len(), 1int,
    {
        let _on_tok = self.unwrap_next_token()?;
        let name = self.unwrap_next_token()?;
        let directives = self.parse_directives()?;
        let selections = self.parse_selection_set()?;
        Ok(
            InlineFragmentSpreadNode {
                node_type: Some(NamedTypeNode::new(name)?),
                directives,
                selections,
            },
        )
    }

    /// Parses an inline fragment without a type. See
    /// [`grammar::anonymous_inline_fragment_spread`].
    pub fn parse_anonymous_inline_fragmen_spread(&mut self) -> (r: ParseResult<
        InlineFragmentSpreadNode,
    >)
        requires
            old(self).wf(),
        ensures
            final(self).wf(),
            final(self).remaining().len() <= old(self).remaining().len(),
            r is Ok ==> final(self).remaining().len() < old(self).remaining().len(),
            (result_view(r), final(self).remaining())
                == grammar::anonymous_inline_fragment_spread(old(self).remaining()),
        decreases old(self).remaining().len(), 1int,
    {
        let directives = self.parse_directives()?;
        let selections = self.parse_selection_set()?;
        Ok(InlineFragmentSpreadNode { node_type: None, directives, selections })
    }

    /// Parses a query, behind its keyword. See [`grammar::query`].
    pub fn parse_query(&mut self) -> (r: ParseResult<QueryDefinitionNode>)
        requires
            old(self).wf(),
        ensures
            final(self).wf(),
            final(self).remaining().len() <= old(self).remaining().len(),
            r is Ok ==> final(self).remaining().len() < old(self).remaining().len(),
            (result_view(r), final(self).remaining()) == grammar::query(old(self).remaining()),
    {
        let name = match self.expect_optional_token(&Token::Name(Location::ignored(), "")) {
            Some(Token::Name(_, value)) => Some(NameNode::from(value)),
            _ => None,
        };
        let variables = self.parse_variables()?;
        let selections = self.parse_selection_set()?;
        Ok(QueryDefinitionNode { name, variables, selections })
    }

    /// Parses a query without a keyword. See [`grammar::anonymous_query`].
    pub fn parse_anonymous_query(&mut self) -> (r: ParseResult<QueryDefinitionNode>)
        requires
            old(self).wf(),
        ensures
            final(self).wf(),
            final(self).remaining().len() <= old(self).remaining().len(),
            r is Ok ==> final(self).remaining().len() < old(self).remaining().len(),
            (result_view(r), final(self).remaining()) == grammar::anonymous_query(
                old(self).remaining(),
            ),
    {
        let selections = self.parse_selection_set()?;
        let variables: Variables = Vec::new();
        assert(variables.deep_view() =~= Seq::empty());
        Ok(QueryDefinitionNode { name: None, variables, selections })
    }

    /// Parses an operation. See [`grammar::operation_type`].
    pub fn parse_operation_type(&mut self) -> (r: ParseResult<OperationTypeNode>)
        requires
            old(self).wf(),
        ensures
            final(self).wf(),
            final(self).remaining().len() <= old(self).remaining().len(),
            r is Ok ==> final(self).remaining().len() < old(self).remaining().len(),
            (result_view(r), final(self).remaining()) == grammar::operation_type(
                old(self).remaining(),
            ),
    {
        let keyword = self.unwrap_next_token()?;
        if let Token::Name(loc, name) = keyword {
            if str_eq(name, "query") {
                Ok(OperationTypeNode::Query(self.parse_query()?))
            } else {
                Err(
                    ParseError::UnexpectedKeyword {
                        expected: String::from_str("One of 'query'"),
                        received: String::from_str(name),
                        location: loc,
                    },
                )
            }
        } else {
            Err(
                ParseError::UnexpectedToken {
                    expected: String::from_str("Token<Name>"),
                    received: keyword.to_string(),
                    location: keyword.location(),
                },
            )
        }
    }

    /// Parses the definition of a fragment. See
    /// [`grammar::fragment_definition`].
    pub fn parse_fragment_definition(&mut self) -> (r: ParseResult<FragmentDefinitionNode>)
        requires
            old(self).wf(),
        ensures
            final(self).wf(),
            final(self).remaining().len() <= old(self).remaining().len(),
            r is Ok ==> final(self).remaining().len() < old(self).remaining().len(),
            (result_view(r), final(self).remaining()) == grammar::fragment_definition(
                old(self).remaining(),
            ),
    {
        let keyword = self.unwrap_next_token()?;
        if let Token::Name(loc, name) = keyword {
            if str_eq(name, "fragment") {
                let name = self.unwrap_next_token()?;
                let on = self.unwrap_next_token()?;
                if let Token::Name(on_loc, on_name) = on {
                    if !str_eq(on_name, "on") {
                        return Err(
                            ParseError::UnexpectedKeyword {
                                expected: String::from_str("on"),
                                received: String::from_str(on_name),
                                location: on_loc,
                            },
                        );
                    }
                } else {
                    return Err(
                        ParseError::UnexpectedToken {
                            expected: String::from_str("Token<Name>"),
                            received: on.to_string(),
                            location: on.location(),
                        },
                    );
                }
                let node_type = self.unwrap_next_token()?;
                let frag_def = FragmentDefinitionNode::new(name, node_type)?;
                let directives = self.parse_directives()?;
                let frag_def = frag_def.with_directives(directives);
                let selections = self.parse_selection_set()?;
                Ok(frag_def.with_selections(selections))
            } else {
                Err(
                    ParseError::UnexpectedKeyword {
                        expected: String::from_str("fragment"),
                        received: String::from_str(name),
                        location: loc,
                    },
                )
            }
        } else {
            Err(
                ParseError::UnexpectedToken {
                    expected: String::from_str("Token<Name>"),
                    received: keyword.to_string(),
                    location: keyword.location(),
                },
            )
        }
    }

    /// Parses an executable definition. See [`grammar::executable`].
    pub fn parse_executable(&mut self) -> (r: ParseResult<ExecutableDefinitionNode>)
        requires
            old(self).wf(),
        ensures
            final(self).wf(),
            final(self).remaining().len() <= old(self).remaining().len(),
            r is Ok ==> final(self).remaining().len() < old(self).remaining().len(),
            (result_view(r), final(self).remaining()) == grammar::executable(
                old(self).remaining(),
            ),
    {
        let tok = self.unwrap_peeked_token()?;
        match tok {
            Token::Name(_, val) => {
                if str_eq(val, "query") {
                    Ok(ExecutableDefinitionNode::Operation(self.parse_operation_type()?))
                } else if str_eq(val, "fragment") {
                    Ok(ExecutableDefinitionNode::Fragment(self.parse_fragment_definition()?))
                } else {
                    Err(ParseError::BadValue)
                }
            },
            Token::OpenBrace(_) => Ok(
                ExecutableDefinitionNode::Operation(
                    OperationTypeNode::Query(self.parse_anonymous_query()?),
                ),
            ),
            _ => Err(
                ParseError::UnexpectedToken {
                    expected: String::from_str(
                        "One of 'query', 'mutation', 'subscription', 'fragment', or anonymous query",
                    ),
                    received: tok.to_string(),
                    location: tok.location(),
                },
            ),
        }
    }

    /// Parses a definition. See [`grammar::definition`].
    pub fn parse_definition(&mut self) -> (r: ParseResult<DefinitionNode>)
        requires
            old(self).wf(),
        ensures
            final(self).wf(),
            final(self).remaining().len() <= old(self).remaining().len(),
            r is Ok ==> final(self).remaining().len() < old(self).remaining().len(),
            (result_view(r), final(self).remaining()) == grammar::definition(
                old(self).remaining(),
            ),
    {
        let description = self.parse_description()?;
        let tok = self.unwrap_peeked_token()?;
        match tok {
            Token::Name(_, val) => {
                if is_type_keyword(val) {
                    Ok(
                        DefinitionNode::TypeSystem(
                            TypeSystemDefinitionNode::Type(self.parse_type(description)?),
                        ),
                    )
                } else if str_eq(val, "extend") {
                    Ok(DefinitionNode::Extension(self.parse_type_extension(description)?))
                } else if str_eq(val, "query") || str_eq(val, "fragment") {
                    Ok(DefinitionNode::Executable(self.parse_executable()?))
                } else {
                    Err(ParseError::BadValue)
                }
            },
            Token::OpenBrace(_) => Ok(DefinitionNode::Executable(self.parse_executable()?)),
            _ => Err(
                ParseError::UnexpectedToken {
                    expected: String::from_str("Token<Name> or Token<OpenBrace>"),
                    received: tok.to_string(),
                    location: tok.location(),
                },
            ),
        }
    }

    /// Parses the definitions of a document. See [`grammar::definitions`].
    pub fn parse_definitions(&mut self) -> (r: ParseResult<Vec<DefinitionNode>>)
        requires
            old(self).wf(),
        ensures
            final(self).wf(),
            final(self).remaining().len() <= old(self).remaining().len(),
            (result_view(r), final(self).remaining()) == grammar::definitions(
                old(self).remaining(),
            ),
    {
        self.expect_token(Token::Start)?;
        let ghost start = self.remaining();
        if let Some(_) = self.expect_optional_token(&Token::End) {
            Err(ParseError::DocumentEmpty)
        } else {
            let mut nodes: Vec<DefinitionNode> = Vec::new();
            assert(nodes.deep_view() =~= Seq::empty());
            loop
                invariant_except_break
                    grammar::definition_items(self.remaining(), nodes.deep_view())
                        == grammar::definition_items(start, Seq::empty()),
                invariant
                    self.wf(),
                    self.remaining().len() <= start.len(),
                    start.len() < old(self).remaining().len(),
                    !grammar::next_is(start, TokenKind::End),
                    grammar::definitions(old(self).remaining()) == grammar::definition_items(
                        start,
                        Seq::empty(),
                    ),
                ensures
                    (Ok::<Seq<DefinitionView>, ParseErrorView>(nodes.deep_view()), self.remaining())
                        == grammar::definition_items(start, Seq::empty()),
                decreases self.remaining().len(),
            {
                let node = self.parse_definition()?;
                push_deep(&mut nodes, node);
                if let Some(_) = self.expect_optional_token(&Token::End) {
                    break ;
                }
            }
            Ok(nodes)
        }
    }

    /// Parses the whole text: its definitions, or the first error.
    pub fn parse(&mut self) -> (r: ParseResult<Document>)
        requires
            old(self).wf(),
        ensures
            final(self).wf(),
            (result_view(r), final(self).remaining()) == grammar::definitions(
                old(self).remaining(),
            ),
    {
        let definitions = self.parse_definitions()?;
        Ok(Document::new(definitions))
    }
}

/// Whether a name token carries one of the words `true`, `false`, `null`.
fn is_value_keyword(tok: &Token) -> (r: bool)
    ensures
        tok@.kind == TokenKind::Name ==> r == grammar::is_value_keyword(tok@.text),
{
    match tok {
        Token::Name(_, value) => str_eq(value, "true") || str_eq(value, "false") || str_eq(
            value,
            "null",
        ),
        _ => false,
    }
}

/// Whether a name is one of the keywords that open a type definition.
fn is_type_keyword(val: &str) -> (r: bool)
    ensures
        r == grammar::is_type_keyword(val@),
{
    str_eq(val, "type") || str_eq(val, "enum") || str_eq(val, "union") || str_eq(val, "interface")
        || str_eq(val, "input") || str_eq(val, "scalar")
}

} // verus!
