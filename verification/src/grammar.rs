//! The grammar of the language, stated as functions on token streams.
//!
//! A stream is the sequence of items that the lexer has yet to yield. Each
//! function here takes a stream and gives the value that the construct parses
//! to, or the first error, together with the stream that is left. The parser
//! in [`crate::ast`] is proved to compute exactly these functions.
//!
//! Where a function goes on after another one has read from the stream, it
//! first asks that the stream has become shorter, so that the definitions
//! are seen to terminate. The lemmas at the end of this file show that no
//! function here lengthens a stream, and that those which take a token
//! shorten it: the question is always answered with yes.

use crate::error::{ParseErrorView};
use crate::lexer::{LexItemView, token_stream};
use crate::nodes::object_type_extension::{ObjectTypeExtensionView, extension_of};
use crate::nodes::{
    ArgumentView, DefinitionView, DirectiveView, EnumTypeDefinitionView, EnumValueDefinitionView,
    ExecutableDefinitionView, FieldDefinitionView, FieldView, FragmentDefinitionView,
    FragmentSpreadView, InlineFragmentView, InputTypeDefinitionView, InputValueDefinitionView,
    InterfaceTypeDefinitionView, ObjectFieldView, ObjectTypeDefinitionView, QueryDefinitionView,
    ScalarTypeDefinitionView, SelectionView, StringValueView, TypeDefinitionView,
    TypeSystemDefinitionView, TypeView, UnionTypeDefinitionView, ValueView,
    VariableDefinitionView, directive_of, enum_type_of, enum_value_of, field_definition_of,
    field_of, fragment_of, input_type_of, input_value_of, interface_type_of, name_of,
    object_type_of, scalar_type_of, string_of, union_type_of,
};
use crate::token::{Location, TokenKind, TokenView};
use vstd::prelude::*;

verus! {

/// What is left of a token stream.
pub type Stream = Seq<LexItemView>;

/// A parsed value or the first error, and the stream that is left.
pub type Parsed<T> = (Result<T, ParseErrorView>, Stream);

/// A mark of the given kind at no location: what the parser asks for when it
/// expects punctuation.
pub open spec fn mark(kind: TokenKind) -> TokenView {
    TokenView::mark(kind, Location::spec_ignored())
}

/// A name token at no location: what the parser asks for when it expects a
/// name.
pub open spec fn named(text: Seq<char>) -> TokenView {
    TokenView::word(TokenKind::Name, Location::spec_ignored(), text)
}

/// The next token, if the stream has one: the end of the stream and an error
/// of the lexer are both errors of the parser.
pub open spec fn peek_token(s: Stream) -> Result<TokenView, ParseErrorView> {
    if s.len() == 0 {
        Err(ParseErrorView::EOF)
    } else {
        match s[0] {
            Ok(t) => Ok(t),
            Err(e) => Err(ParseErrorView::LexError(e)),
        }
    }
}

/// The stream after its first item.
pub open spec fn after_next(s: Stream) -> Stream {
    if s.len() == 0 {
        s
    } else {
        s.drop_first()
    }
}

/// Takes the next item off the stream.
pub open spec fn next_token(s: Stream) -> Parsed<TokenView> {
    (peek_token(s), after_next(s))
}

/// Whether the next item is a token of the given kind.
pub open spec fn next_is(s: Stream, kind: TokenKind) -> bool {
    s.len() > 0 && s[0] is Ok && s[0]->Ok_0.kind == kind
}

/// The error for a token of another kind than the expected one.
pub open spec fn unexpected(expected: Seq<char>, received: TokenView) -> ParseErrorView {
    ParseErrorView::UnexpectedToken {
        expected,
        received: received.render(),
        location: received.location,
    }
}

/// Takes the next item off the stream and asks that it is a token of the
/// kind of `expected`.
pub open spec fn expect(s: Stream, expected: TokenView) -> Parsed<TokenView> {
    match peek_token(s) {
        Ok(t) => if t.kind == expected.kind {
            (Ok(t), after_next(s))
        } else {
            (Err(unexpected(expected.render(), t)), after_next(s))
        },
        Err(e) => (Err(e), after_next(s)),
    }
}

/// Takes the next item off the stream if it is a token of the given kind.
pub open spec fn expect_optional(s: Stream, kind: TokenKind) -> (Option<TokenView>, Stream) {
    if next_is(s, kind) {
        (Some(s[0]->Ok_0), s.drop_first())
    } else {
        (None, s)
    }
}

/// Whether a name is one of the three words that are values.
pub open spec fn is_value_keyword(text: Seq<char>) -> bool {
    text == "true"@ || text == "false"@ || text == "null"@
}

/// An optional description: a string or block string, if one comes next.
pub open spec fn description(s: Stream) -> Parsed<Option<StringValueView>> {
    match peek_token(s) {
        Err(e) => (Err(e), s),
        Ok(t) => if t.kind == TokenKind::Str || t.kind == TokenKind::BlockStr {
            match string_of(t) {
                Ok(v) => (Ok(Some(v)), after_next(s)),
                Err(e) => (Err(e), after_next(s)),
            }
        } else {
            (Ok(None), s)
        },
    }
}

/// A type wrapped as non-null if a `!` follows it.
pub open spec fn non_null(t: TypeView, s: Stream) -> Parsed<TypeView> {
    if next_is(s, TokenKind::Bang) {
        (Ok(TypeView::NonNull(Box::new(t))), s.drop_first())
    } else {
        (Ok(t), s)
    }
}

/// A type reference: `[` type `]` or a name, each with an optional `!`
/// behind it. The `!` binds to the type that it follows directly: in
/// `[Int!]` to the element, in `[Int]!` to the list. One `!` is taken at
/// most; a second one is left in the stream.
pub open spec fn field_type(s: Stream) -> Parsed<TypeView>
    decreases s.len(),
{
    if next_is(s, TokenKind::OpenSquare) {
        let (inner, s2) = field_type(s.drop_first());
        match inner {
            Err(e) => (Err(e), s2),
            Ok(t) => {
                let (close, s3) = expect(s2, mark(TokenKind::CloseSquare));
                match close {
                    Err(e) => (Err(e), s3),
                    Ok(_) => non_null(TypeView::List(Box::new(t)), s3),
                }
            },
        }
    } else {
        let (tok, s1) = expect(s, named(""@));
        match tok {
            Err(e) => (Err(e), s1),
            Ok(t) => match name_of(t) {
                Err(e) => (Err(e), s1),
                Ok(n) => non_null(TypeView::Named(n), s1),
            },
        }
    }
}

/// A variable: `$` and a name.
pub open spec fn variable(s: Stream) -> Parsed<Seq<char>> {
    let (dollar, s1) = expect(s, mark(TokenKind::Dollar));
    match dollar {
        Err(e) => (Err(e), s1),
        Ok(_) => {
            let (name, s2) = next_token(s1);
            match name {
                Err(e) => (Err(e), s2),
                Ok(t) => (name_of(t), s2),
            }
        },
    }
}

/// The value that a name stands for: `true`, `false`, `null`, or a value of
/// an enum.
pub open spec fn name_value(text: Seq<char>) -> ValueView {
    if text == "true"@ {
        ValueView::Bool(true)
    } else if text == "false"@ {
        ValueView::Bool(false)
    } else if text == "null"@ {
        ValueView::Null
    } else {
        ValueView::Enum(text)
    }
}

/// The text that names what may start a value.
pub open spec fn value_start_names() -> Seq<char> {
    "One of (Name, Int, Float, Str, Dollar, OpenSquare, OpenBrace)"@
}

/// A value: a name, a number, a string, a variable, a list or an object.
pub open spec fn value(s: Stream) -> Parsed<ValueView>
    decreases s.len(), 1int,
{
    match peek_token(s) {
        Err(e) => (Err(e), s),
        Ok(t) => if t.kind == TokenKind::Name {
            (Ok(name_value(t.text)), after_next(s))
        } else if t.kind == TokenKind::Int {
            (Ok(ValueView::Int(t.number)), after_next(s))
        } else if t.kind == TokenKind::Float {
            (Ok(ValueView::Float(t.text)), after_next(s))
        } else if t.kind == TokenKind::Str || t.kind == TokenKind::BlockStr {
            match string_of(t) {
                Ok(v) => (Ok(ValueView::Str(v)), after_next(s)),
                Err(e) => (Err(e), after_next(s)),
            }
        } else if t.kind == TokenKind::Dollar {
            let (v, s1) = variable(s);
            match v {
                Ok(n) => (Ok(ValueView::Variable(n)), s1),
                Err(e) => (Err(e), s1),
            }
        } else if t.kind == TokenKind::OpenSquare {
            let (v, s1) = list_value(s);
            match v {
                Ok(l) => (Ok(ValueView::List(l)), s1),
                Err(e) => (Err(e), s1),
            }
        } else if t.kind == TokenKind::OpenBrace {
            let (v, s1) = object_value(s);
            match v {
                Ok(o) => (Ok(ValueView::Object(o)), s1),
                Err(e) => (Err(e), s1),
            }
        } else {
            (Err(unexpected(value_start_names(), t)), s)
        },
    }
}

/// A list value: values between `[` and `]`.
pub open spec fn list_value(s: Stream) -> Parsed<Seq<ValueView>>
    decreases s.len(), 0int,
{
    let (open, s1) = expect(s, mark(TokenKind::OpenSquare));
    match open {
        Err(e) => (Err(e), s1),
        Ok(_) => list_items(s1, Seq::empty()),
    }
}

/// The values of a list up to its `]`, behind those of `acc`.
pub open spec fn list_items(s: Stream, acc: Seq<ValueView>) -> Parsed<Seq<ValueView>>
    decreases s.len(), 2int,
{
    if next_is(s, TokenKind::CloseSquare) {
        (Ok(acc), s.drop_first())
    } else {
        let (v, s1) = value(s);
        match v {
            Err(e) => (Err(e), s1),
            Ok(v) => if s1.len() < s.len() {
                list_items(s1, acc.push(v))
            } else {
                (Err(ParseErrorView::EOF), s1)
            },
        }
    }
}

/// An object value: fields between `{` and `}`.
pub open spec fn object_value(s: Stream) -> Parsed<Seq<ObjectFieldView>>
    decreases s.len(), 0int,
{
    let (open, s1) = expect(s, mark(TokenKind::OpenBrace));
    match open {
        Err(e) => (Err(e), s1),
        Ok(_) => object_fields(s1, Seq::empty()),
    }
}

/// The fields of an object value up to its `}`, behind those of `acc`. A
/// field is a name, `:` and a value.
pub open spec fn object_fields(s: Stream, acc: Seq<ObjectFieldView>) -> Parsed<
    Seq<ObjectFieldView>,
>
    decreases s.len(), 2int,
{
    if next_is(s, TokenKind::CloseBrace) {
        (Ok(acc), s.drop_first())
    } else {
        let (name, s1) = next_token(s);
        match name {
            Err(e) => (Err(e), s1),
            Ok(name) => {
                let (colon, s2) = expect(s1, mark(TokenKind::Colon));
                match colon {
                    Err(e) => (Err(e), s2),
                    Ok(_) => {
                        let (v, s3) = value(s2);
                        match v {
                            Err(e) => (Err(e), s3),
                            Ok(v) => match name_of(name) {
                                Err(e) => (Err(e), s3),
                                Ok(n) => if s3.len() < s.len() {
                                    object_fields(
                                        s3,
                                        acc.push(ObjectFieldView { name: n, value: v }),
                                    )
                                } else {
                                    (Err(ParseErrorView::EOF), s3)
                                },
                            },
                        }
                    },
                }
            },
        }
    }
}

/// An argument: a name, `:` and a value.
pub open spec fn argument(s: Stream) -> Parsed<ArgumentView> {
    let (name, s1) = next_token(s);
    match name {
        Err(e) => (Err(e), s1),
        Ok(name) => {
            let (colon, s2) = expect(s1, mark(TokenKind::Colon));
            match colon {
                Err(e) => (Err(e), s2),
                Ok(_) => {
                    let (v, s3) = value(s2);
                    match v {
                        Err(e) => (Err(e), s3),
                        Ok(v) => match name_of(name) {
                            Err(e) => (Err(e), s3),
                            Ok(n) => (Ok(ArgumentView { name: n, value: v }), s3),
                        },
                    }
                },
            }
        },
    }
}

/// The arguments of a list up to its `)`, behind those of `acc`. A list
/// that closes without an argument is refused.
pub open spec fn argument_items(s: Stream, acc: Seq<ArgumentView>) -> Parsed<Seq<ArgumentView>>
    decreases s.len(),
{
    if next_is(s, TokenKind::CloseParen) {
        if acc.len() == 0 {
            (Err(ParseErrorView::ArgumentEmpty(s[0]->Ok_0.location)), s.drop_first())
        } else {
            (Ok(acc), s.drop_first())
        }
    } else {
        let (a, s1) = argument(s);
        match a {
            Err(e) => (Err(e), s1),
            Ok(a) => if s1.len() < s.len() {
                argument_items(s1, acc.push(a))
            } else {
                (Err(ParseErrorView::EOF), s1)
            },
        }
    }
}

/// An optional list of arguments between `(` and `)`.
pub open spec fn arguments(s: Stream) -> Parsed<Option<Seq<ArgumentView>>> {
    if next_is(s, TokenKind::OpenParen) {
        let (items, s1) = argument_items(s.drop_first(), Seq::empty());
        match items {
            Ok(items) => (Ok(Some(items)), s1),
            Err(e) => (Err(e), s1),
        }
    } else {
        (Ok(None), s)
    }
}

/// A directive: `@`, a name and optional arguments.
pub open spec fn directive(s: Stream) -> Parsed<DirectiveView> {
    let (at, s1) = expect(s, mark(TokenKind::At));
    match at {
        Err(e) => (Err(e), s1),
        Ok(_) => {
            let (name, s2) = next_token(s1);
            match name {
                Err(e) => (Err(e), s2),
                Ok(name) => {
                    let (args, s3) = arguments(s2);
                    match args {
                        Err(e) => (Err(e), s3),
                        Ok(args) => (directive_of(name, args), s3),
                    }
                },
            }
        },
    }
}

/// The directives that follow, behind those of `acc`: none at all is no
/// list.
pub open spec fn directive_items(s: Stream, acc: Seq<DirectiveView>) -> Parsed<
    Option<Seq<DirectiveView>>,
>
    decreases s.len(),
{
    match peek_token(s) {
        Err(e) => (Err(e), s),
        Ok(t) => if t.kind == TokenKind::At {
            let (d, s1) = directive(s);
            match d {
                Err(e) => (Err(e), s1),
                Ok(d) => if s1.len() < s.len() {
                    directive_items(s1, acc.push(d))
                } else {
                    (Err(ParseErrorView::EOF), s1)
                },
            }
        } else if acc.len() > 0 {
            (Ok(Some(acc)), s)
        } else {
            (Ok(None), s)
        },
    }
}

/// The directives that follow, as long as the next token is `@`.
pub open spec fn directives(s: Stream) -> Parsed<Option<Seq<DirectiveView>>> {
    directive_items(s, Seq::empty())
}

/// An optional default value: `=` and a value.
pub open spec fn default_value(s: Stream) -> Parsed<Option<ValueView>> {
    if next_is(s, TokenKind::Equals) {
        let (v, s1) = value(s.drop_first());
        match v {
            Ok(v) => (Ok(Some(v)), s1),
            Err(e) => (Err(e), s1),
        }
    } else {
        (Ok(None), s)
    }
}

/// An input value: an optional description, a name, `:`, a type, an
/// optional default value and optional directives.
pub open spec fn input_value(s: Stream) -> Parsed<InputValueDefinitionView> {
    let (desc, s1) = description(s);
    match desc {
        Err(e) => (Err(e), s1),
        Ok(desc) => {
            let (name, s2) = next_token(s1);
            match name {
                Err(e) => (Err(e), s2),
                Ok(name) => {
                    let (colon, s3) = expect(s2, mark(TokenKind::Colon));
                    match colon {
                        Err(e) => (Err(e), s3),
                        Ok(_) => {
                            let (ty, s4) = field_type(s3);
                            match ty {
                                Err(e) => (Err(e), s4),
                                Ok(ty) => {
                                    let (default, s5) = default_value(s4);
                                    match default {
                                        Err(e) => (Err(e), s5),
                                        Ok(default) => {
                                            let (dirs, s6) = directives(s5);
                                            match dirs {
                                                Err(e) => (Err(e), s6),
                                                Ok(dirs) => match input_value_of(name, ty, desc) {
                                                    Err(e) => (Err(e), s6),
                                                    Ok(v) => (
                                                        Ok(
                                                            InputValueDefinitionView {
                                                                default_value: default,
                                                                directives: dirs,
                                                                ..v
                                                            },
                                                        ),
                                                        s6,
                                                    ),
                                                },
                                            }
                                        },
                                    }
                                },
                            }
                        },
                    }
                },
            }
        },
    }
}

/// The input values of a list of argument definitions up to its `)`, behind
/// those of `acc`. At least one input value comes before the `)`.
pub open spec fn argument_definition_items(s: Stream, acc: Seq<InputValueDefinitionView>) -> Parsed<
    Seq<InputValueDefinitionView>,
>
    decreases s.len(),
{
    let (v, s1) = input_value(s);
    match v {
        Err(e) => (Err(e), s1),
        Ok(v) => if next_is(s1, TokenKind::CloseParen) {
            (Ok(acc.push(v)), s1.drop_first())
        } else if s1.len() < s.len() {
            argument_definition_items(s1, acc.push(v))
        } else {
            (Err(ParseErrorView::EOF), s1)
        },
    }
}

/// An optional list of argument definitions between `(` and `)`. A list
/// that is opened and closed at once is refused.
pub open spec fn arguments_definition(s: Stream) -> Parsed<Option<Seq<InputValueDefinitionView>>> {
    if next_is(s, TokenKind::OpenParen) {
        let s1 = s.drop_first();
        if next_is(s1, TokenKind::CloseParen) {
            (Err(ParseErrorView::ArgumentEmpty(s1[0]->Ok_0.location)), s1.drop_first())
        } else {
            let (items, s2) = argument_definition_items(s1, Seq::empty());
            match items {
                Ok(items) => (Ok(Some(items)), s2),
                Err(e) => (Err(e), s2),
            }
        }
    } else {
        (Ok(None), s)
    }
}

/// A field definition: an optional description, a name, optional argument
/// definitions, `:` and a type.
pub open spec fn field(s: Stream) -> Parsed<FieldDefinitionView> {
    let (desc, s1) = description(s);
    match desc {
        Err(e) => (Err(e), s1),
        Ok(desc) => {
            let (name, s2) = expect(s1, named(""@));
            match name {
                Err(e) => (Err(e), s2),
                Ok(name) => {
                    let (args, s3) = arguments_definition(s2);
                    match args {
                        Err(e) => (Err(e), s3),
                        Ok(args) => {
                            let (colon, s4) = expect(s3, mark(TokenKind::Colon));
                            match colon {
                                Err(e) => (Err(e), s4),
                                Ok(_) => {
                                    let (ty, s5) = field_type(s4);
                                    match ty {
                                        Err(e) => (Err(e), s5),
                                        Ok(ty) => (field_definition_of(name, ty, desc, args), s5),
                                    }
                                },
                            }
                        },
                    }
                },
            }
        },
    }
}

/// The field definitions of a block up to its `}`, behind those of `acc`.
pub open spec fn field_items(s: Stream, acc: Seq<FieldDefinitionView>) -> Parsed<
    Seq<FieldDefinitionView>,
>
    decreases s.len(),
{
    if next_is(s, TokenKind::CloseBrace) {
        (Ok(acc), s.drop_first())
    } else {
        let (f, s1) = field(s);
        match f {
            Err(e) => (Err(e), s1),
            Ok(f) => if s1.len() < s.len() {
                field_items(s1, acc.push(f))
            } else {
                (Err(ParseErrorView::EOF), s1)
            },
        }
    }
}

/// A block of field definitions between `{` and `}`; it may be empty.
pub open spec fn fields(s: Stream) -> Parsed<Seq<FieldDefinitionView>> {
    let (open, s1) = expect(s, mark(TokenKind::OpenBrace));
    match open {
        Err(e) => (Err(e), s1),
        Ok(_) => field_items(s1, Seq::empty()),
    }
}

/// The input values of a block up to its `}`, behind those of `acc`.
pub open spec fn input_field_items(s: Stream, acc: Seq<InputValueDefinitionView>) -> Parsed<
    Seq<InputValueDefinitionView>,
>
    decreases s.len(),
{
    if next_is(s, TokenKind::CloseBrace) {
        (Ok(acc), s.drop_first())
    } else {
        let (f, s1) = input_value(s);
        match f {
            Err(e) => (Err(e), s1),
            Ok(f) => if s1.len() < s.len() {
                input_field_items(s1, acc.push(f))
            } else {
                (Err(ParseErrorView::EOF), s1)
            },
        }
    }
}

/// A block of input values between `{` and `}`. An empty block is refused,
/// with the location of its `{`.
pub open spec fn input_fields(s: Stream) -> Parsed<Seq<InputValueDefinitionView>> {
    let (open, s1) = expect(s, mark(TokenKind::OpenBrace));
    match open {
        Err(e) => (Err(e), s1),
        Ok(open) => {
            let (items, s2) = input_field_items(s1, Seq::empty());
            match items {
                Err(e) => (Err(e), s2),
                Ok(items) => if items.len() > 0 {
                    (Ok(items), s2)
                } else {
                    (Err(ParseErrorView::ObjectEmpty(open.location)), s2)
                },
            }
        },
    }
}

/// The values of an enum up to the `}` of their block, behind those of
/// `acc`. A value is an optional description, a name and optional
/// directives; `true`, `false` and `null` are refused as names.
pub open spec fn enum_value_items(s: Stream, acc: Seq<EnumValueDefinitionView>) -> Parsed<
    Seq<EnumValueDefinitionView>,
>
    decreases s.len(),
{
    if next_is(s, TokenKind::CloseBrace) {
        (Ok(acc), s.drop_first())
    } else {
        let (desc, s1) = description(s);
        match desc {
            Err(e) => (Err(e), s1),
            Ok(desc) => {
                let (name, s2) = expect(s1, named(""@));
                match name {
                    Err(e) => (Err(e), s2),
                    Ok(name) => if is_value_keyword(name.text) {
                        (Err(ParseErrorView::BadValue), s2)
                    } else {
                        let (dirs, s3) = directives(s2);
                        match dirs {
                            Err(e) => (Err(e), s3),
                            Ok(dirs) => match enum_value_of(name, desc, dirs) {
                                Err(e) => (Err(e), s3),
                                Ok(v) => if s3.len() < s.len() {
                                    enum_value_items(s3, acc.push(v))
                                } else {
                                    (Err(ParseErrorView::EOF), s3)
                                },
                            },
                        }
                    },
                }
            },
        }
    }
}

/// The block of values of an enum, between `{` and `}`. An empty block is
/// refused, with the location of its `{`.
pub open spec fn enum_values(s: Stream) -> Parsed<Seq<EnumValueDefinitionView>> {
    let (open, s1) = expect(s, mark(TokenKind::OpenBrace));
    match open {
        Err(e) => (Err(e), s1),
        Ok(open) => {
            let (items, s2) = enum_value_items(s1, Seq::empty());
            match items {
                Err(e) => (Err(e), s2),
                Ok(items) => if items.len() > 0 {
                    (Ok(items), s2)
                } else {
                    (Err(ParseErrorView::ObjectEmpty(open.location)), s2)
                },
            }
        },
    }
}

/// The further members of a union, each behind a `|`, behind those of
/// `acc`.
pub open spec fn union_member_items(s: Stream, acc: Seq<Seq<char>>) -> Parsed<Seq<Seq<char>>>
    decreases s.len(),
{
    if next_is(s, TokenKind::Pipe) {
        let (name, s1) = next_token(s.drop_first());
        match name {
            Err(e) => (Err(e), s1),
            Ok(name) => match name_of(name) {
                Err(e) => (Err(e), s1),
                Ok(n) => if s1.len() < s.len() {
                    union_member_items(s1, acc.push(n))
                } else {
                    (Err(ParseErrorView::EOF), s1)
                },
            },
        }
    } else {
        (Ok(acc), s)
    }
}

/// The members of a union: names with `|` between them, and an optional
/// `|` before the first.
pub open spec fn union_types(s: Stream) -> Parsed<Seq<Seq<char>>> {
    let s1 = expect_optional(s, TokenKind::Pipe).1;
    let (name, s2) = next_token(s1);
    match name {
        Err(e) => (Err(e), s2),
        Ok(name) => match name_of(name) {
            Err(e) => (Err(e), s2),
            Ok(n) => union_member_items(s2, Seq::empty().push(n)),
        },
    }
}

/// The further interfaces of an object, each behind a `&`, behind those
/// of `acc`.
pub open spec fn interface_items(s: Stream, acc: Seq<Seq<char>>) -> Parsed<Seq<Seq<char>>>
    decreases s.len(),
{
    let (name, s1) = expect(s, named(""@));
    match name {
        Err(e) => (Err(e), s1),
        Ok(name) => match name_of(name) {
            Err(e) => (Err(e), s1),
            Ok(n) => if next_is(s1, TokenKind::Amp) {
                if s1.len() <= s.len() {
                    interface_items(s1.drop_first(), acc.push(n))
                } else {
                    (Err(ParseErrorView::EOF), s1)
                }
            } else {
                (Ok(acc.push(n)), s1)
            },
        },
    }
}

/// The interfaces of an object: nothing, if no name follows; else the
/// keyword `implements` and names with `&` between them.
pub open spec fn object_interfaces(s: Stream) -> Parsed<Option<Seq<Seq<char>>>> {
    if next_is(s, TokenKind::Name) {
        let keyword = s[0]->Ok_0;
        if keyword.text == "implements"@ {
            let (items, s1) = interface_items(s.drop_first(), Seq::empty());
            match items {
                Ok(items) => (Ok(Some(items)), s1),
                Err(e) => (Err(e), s1),
            }
        } else {
            (
                Err(
                    ParseErrorView::UnexpectedKeyword {
                        expected: "implements"@,
                        received: keyword.text,
                        location: keyword.location,
                    },
                ),
                s.drop_first(),
            )
        }
    } else {
        (Ok(None), s)
    }
}

/// An object type behind the keyword `type`: a name, optional
/// interfaces, optional directives and a block of fields that is not empty.
pub open spec fn object_type(s: Stream, desc: Option<StringValueView>) -> Parsed<
    ObjectTypeDefinitionView,
> {
    let (name, s1) = expect(s, named(""@));
    match name {
        Err(e) => (Err(e), s1),
        Ok(name) => {
            let (interfaces, s2) = object_interfaces(s1);
            match interfaces {
                Err(e) => (Err(e), s2),
                Ok(interfaces) => {
                    let (dirs, s3) = directives(s2);
                    match dirs {
                        Err(e) => (Err(e), s3),
                        Ok(dirs) => {
                            let (fs, s4) = fields(s3);
                            match fs {
                                Err(e) => (Err(e), s4),
                                Ok(fs) => match object_type_of(name, desc, fs) {
                                    Err(e) => (Err(e), s4),
                                    Ok(o) => (
                                        Ok(
                                            ObjectTypeDefinitionView {
                                                interfaces,
                                                directives: dirs,
                                                ..o
                                            },
                                        ),
                                        s4,
                                    ),
                                },
                            }
                        },
                    }
                },
            }
        },
    }
}

/// An extension of an object type behind the keywords `extend type`: a
/// name, optional interfaces, optional directives and an optional block of
/// fields.
pub open spec fn object_type_extension(s: Stream, desc: Option<StringValueView>) -> Parsed<
    ObjectTypeExtensionView,
> {
    let (name, s1) = next_token(s);
    match name {
        Err(e) => (Err(e), s1),
        Ok(name) => {
            let (interfaces, s2) = object_interfaces(s1);
            match interfaces {
                Err(e) => (Err(e), s2),
                Ok(interfaces) => {
                    let (dirs, s3) = directives(s2);
                    match dirs {
                        Err(e) => (Err(e), s3),
                        Ok(dirs) => match extension_of(name, desc) {
                            Err(e) => (Err(e), s3),
                            Ok(x) => {
                                let x = ObjectTypeExtensionView {
                                    interfaces,
                                    directives: dirs,
                                    ..x
                                };
                                match peek_token(s3) {
                                    Err(e) => (Err(e), s3),
                                    Ok(t) => if t.kind == TokenKind::OpenBrace {
                                        let (fs, s4) = fields(s3);
                                        match fs {
                                            Err(e) => (Err(e), s4),
                                            Ok(fs) => (
                                                Ok(
                                                    ObjectTypeExtensionView {
                                                        fields: Some(fs),
                                                        ..x
                                                    },
                                                ),
                                                s4,
                                            ),
                                        }
                                    } else {
                                        (Ok(x), s3)
                                    },
                                }
                            },
                        },
                    }
                },
            }
        },
    }
}

/// An interface type behind the keyword `interface`: a name, optional
/// directives and a block of fields, which may be empty.
pub open spec fn interface_type(s: Stream, desc: Option<StringValueView>) -> Parsed<
    InterfaceTypeDefinitionView,
> {
    let (name, s1) = expect(s, named(""@));
    match name {
        Err(e) => (Err(e), s1),
        Ok(name) => {
            let (dirs, s2) = directives(s1);
            match dirs {
                Err(e) => (Err(e), s2),
                Ok(dirs) => {
                    let (fs, s3) = fields(s2);
                    match fs {
                        Err(e) => (Err(e), s3),
                        Ok(fs) => match interface_type_of(name, desc) {
                            Err(e) => (Err(e), s3),
                            Ok(i) => (
                                Ok(InterfaceTypeDefinitionView { directives: dirs, fields: fs, ..i }),
                                s3,
                            ),
                        },
                    }
                },
            }
        },
    }
}

/// An input type behind the keyword `input`: a name and a block of input
/// values that is not empty.
pub open spec fn input_type(s: Stream, desc: Option<StringValueView>) -> Parsed<
    InputTypeDefinitionView,
> {
    let (name, s1) = expect(s, named(""@));
    match name {
        Err(e) => (Err(e), s1),
        Ok(name) => match input_type_of(name, desc) {
            Err(e) => (Err(e), s1),
            Ok(i) => {
                let (fs, s2) = input_fields(s1);
                match fs {
                    Err(e) => (Err(e), s2),
                    Ok(fs) => (Ok(InputTypeDefinitionView { fields: fs, ..i }), s2),
                }
            },
        },
    }
}

/// A scalar type behind the keyword `scalar`: a name and optional
/// directives.
pub open spec fn scalar_type(s: Stream, desc: Option<StringValueView>) -> Parsed<
    ScalarTypeDefinitionView,
> {
    let (name, s1) = expect(s, named(""@));
    match name {
        Err(e) => (Err(e), s1),
        Ok(name) => {
            let (dirs, s2) = directives(s1);
            match dirs {
                Err(e) => (Err(e), s2),
                Ok(dirs) => match scalar_type_of(name, desc) {
                    Err(e) => (Err(e), s2),
                    Ok(sc) => (Ok(ScalarTypeDefinitionView { directives: dirs, ..sc }), s2),
                },
            }
        },
    }
}

/// An enum type behind the keyword `enum`: a name that is not `true`,
/// `false` or `null`, optional directives and a block of values.
pub open spec fn enum_type(s: Stream, desc: Option<StringValueView>) -> Parsed<
    EnumTypeDefinitionView,
> {
    let (name, s1) = expect(s, named("enum"@));
    match name {
        Err(e) => (Err(e), s1),
        Ok(name) => if is_value_keyword(name.text) {
            (Err(ParseErrorView::BadValue), s1)
        } else {
            let (dirs, s2) = directives(s1);
            match dirs {
                Err(e) => (Err(e), s2),
                Ok(dirs) => {
                    let (values, s3) = enum_values(s2);
                    match values {
                        Err(e) => (Err(e), s3),
                        Ok(values) => (enum_type_of(name, desc, dirs, values), s3),
                    }
                },
            }
        },
    }
}

/// A union type behind the keyword `union`: a name, optional directives,
/// `=` and the members.
pub open spec fn union_type(s: Stream, desc: Option<StringValueView>) -> Parsed<
    UnionTypeDefinitionView,
> {
    let (name, s1) = expect(s, named("union"@));
    match name {
        Err(e) => (Err(e), s1),
        Ok(name) => {
            let (dirs, s2) = directives(s1);
            match dirs {
                Err(e) => (Err(e), s2),
                Ok(dirs) => {
                    let (equals, s3) = expect(s2, mark(TokenKind::Equals));
                    match equals {
                        Err(e) => (Err(e), s3),
                        Ok(_) => {
                            let (types, s4) = union_types(s3);
                            match types {
                                Err(e) => (Err(e), s4),
                                Ok(types) => (union_type_of(name, desc, dirs, types), s4),
                            }
                        },
                    }
                },
            }
        },
    }
}

/// Whether a name is one of the keywords that open a type definition.
pub open spec fn is_type_keyword(text: Seq<char>) -> bool {
    text == "type"@ || text == "enum"@ || text == "union"@ || text == "interface"@ || text
        == "input"@ || text == "scalar"@
}

/// A type definition: one of the six keywords and what follows it.
pub open spec fn type_definition(s: Stream, desc: Option<StringValueView>) -> Parsed<
    TypeDefinitionView,
> {
    let (tok, s1) = next_token(s);
    match tok {
        Err(e) => (Err(e), s1),
        Ok(t) => if t.kind != TokenKind::Name {
            (Err(unexpected("Token::Name"@, t)), s1)
        } else if t.text == "type"@ {
            let (r, s2) = object_type(s1, desc);
            match r {
                Ok(v) => (Ok(TypeDefinitionView::Object(v)), s2),
                Err(e) => (Err(e), s2),
            }
        } else if t.text == "enum"@ {
            let (r, s2) = enum_type(s1, desc);
            match r {
                Ok(v) => (Ok(TypeDefinitionView::Enum(v)), s2),
                Err(e) => (Err(e), s2),
            }
        } else if t.text == "union"@ {
            let (r, s2) = union_type(s1, desc);
            match r {
                Ok(v) => (Ok(TypeDefinitionView::Union(v)), s2),
                Err(e) => (Err(e), s2),
            }
        } else if t.text == "interface"@ {
            let (r, s2) = interface_type(s1, desc);
            match r {
                Ok(v) => (Ok(TypeDefinitionView::Interface(v)), s2),
                Err(e) => (Err(e), s2),
            }
        } else if t.text == "input"@ {
            let (r, s2) = input_type(s1, desc);
            match r {
                Ok(v) => (Ok(TypeDefinitionView::Input(v)), s2),
                Err(e) => (Err(e), s2),
            }
        } else if t.text == "scalar"@ {
            let (r, s2) = scalar_type(s1, desc);
            match r {
                Ok(v) => (Ok(TypeDefinitionView::Scalar(v)), s2),
                Err(e) => (Err(e), s2),
            }
        } else {
            (Err(ParseErrorView::BadValue), s1)
        },
    }
}

/// A type extension: the keyword `extend`, the keyword `type` and an
/// extension of an object type.
pub open spec fn type_extension(s: Stream, desc: Option<StringValueView>) -> Parsed<
    ObjectTypeExtensionView,
> {
    let (extend, s1) = next_token(s);
    match extend {
        Err(e) => (Err(e), s1),
        Ok(_) => {
            let (tok, s2) = next_token(s1);
            match tok {
                Err(e) => (Err(e), s2),
                Ok(t) => if t.kind == TokenKind::Name && t.text == "type"@ {
                    object_type_extension(s2, desc)
                } else {
                    (Err(unexpected("Token::Name"@, t)), s2)
                },
            }
        },
    }
}

/// The definitions of the variables of a query up to the `)` of their list,
/// behind those of `acc`.
pub open spec fn variable_items(s: Stream, acc: Seq<VariableDefinitionView>) -> Parsed<
    Seq<VariableDefinitionView>,
>
    decreases s.len(),
{
    if next_is(s, TokenKind::CloseParen) {
        (Ok(acc), s.drop_first())
    } else {
        let (v, s1) = variable_definition(s);
        match v {
            Err(e) => (Err(e), s1),
            Ok(v) => if s1.len() < s.len() {
                variable_items(s1, acc.push(v))
            } else {
                (Err(ParseErrorView::EOF), s1)
            },
        }
    }
}

/// The definition of a variable: a variable, `:`, a type and an optional
/// default value behind `=`.
pub open spec fn variable_definition(s: Stream) -> Parsed<VariableDefinitionView> {
    let (var, s1) = variable(s);
    match var {
        Err(e) => (Err(e), s1),
        Ok(var) => {
            let (colon, s2) = expect(s1, mark(TokenKind::Colon));
            match colon {
                Err(e) => (Err(e), s2),
                Ok(_) => {
                    let (ty, s3) = field_type(s2);
                    match ty {
                        Err(e) => (Err(e), s3),
                        Ok(ty) => {
                            let (default, s4) = default_value(s3);
                            match default {
                                Err(e) => (Err(e), s4),
                                Ok(default) => (
                                    Ok(
                                        VariableDefinitionView {
                                            variable: var,
                                            variable_type: ty,
                                            default_value: default,
                                        },
                                    ),
                                    s4,
                                ),
                            }
                        },
                    }
                },
            }
        },
    }
}

/// The definitions of the variables of a query: a list between `(` and
/// `)`, or nothing.
pub open spec fn variables(s: Stream) -> Parsed<Seq<VariableDefinitionView>> {
    if next_is(s, TokenKind::OpenParen) {
        variable_items(s.drop_first(), Seq::empty())
    } else {
        (Ok(Seq::empty()), s)
    }
}

/// A selection set: selections between `{` and `}`.
pub open spec fn selection_set(s: Stream) -> Parsed<Seq<SelectionView>>
    decreases s.len(), 0int,
{
    let (open, s1) = expect(s, mark(TokenKind::OpenBrace));
    match open {
        Err(e) => (Err(e), s1),
        Ok(_) => selection_items(s1, Seq::empty()),
    }
}

/// The selections of a set up to its `}`, behind those of `acc`.
pub open spec fn selection_items(s: Stream, acc: Seq<SelectionView>) -> Parsed<Seq<SelectionView>>
    decreases s.len(), 4int,
{
    if next_is(s, TokenKind::CloseBrace) {
        (Ok(acc), s.drop_first())
    } else {
        let (sel, s1) = selection(s);
        match sel {
            Err(e) => (Err(e), s1),
            Ok(sel) => if s1.len() < s.len() {
                selection_items(s1, acc.push(sel))
            } else {
                (Err(ParseErrorView::EOF), s1)
            },
        }
    }
}

/// A selection: a field, if a name comes next; a fragment spread, if `...`
/// does.
pub open spec fn selection(s: Stream) -> Parsed<SelectionView>
    decreases s.len(), 3int,
{
    match peek_token(s) {
        Err(e) => (Err(e), s),
        Ok(t) => if t.kind == TokenKind::Name {
            let (f, s1) = field_node(s);
            match f {
                Ok(f) => (Ok(SelectionView::Field(f)), s1),
                Err(e) => (Err(e), s1),
            }
        } else if t.kind == TokenKind::Spread {
            fragment_spread(s)
        } else {
            (Err(ParseErrorView::NotImplemented), s)
        },
    }
}

/// A field of a selection set: a name, or an alias, `:` and a name; then
/// optional arguments, optional directives and an optional selection set.
pub open spec fn field_node(s: Stream) -> Parsed<FieldView>
    decreases s.len(), 2int,
{
    let (first, s1) = next_token(s);
    match first {
        Err(e) => (Err(e), s1),
        Ok(first) => {
            let (colon, s2) = expect_optional(s1, TokenKind::Colon);
            let (head, s3): Parsed<FieldView> = if colon is Some {
                let (root, s3) = next_token(s2);
                match root {
                    Err(e) => (Err(e), s3),
                    Ok(root) => match field_of(root) {
                        Err(e) => (Err(e), s3),
                        Ok(f) => match name_of(first) {
                            Err(e) => (Err(e), s3),
                            Ok(alias) => (Ok(FieldView { alias: Some(alias), ..f }), s3),
                        },
                    },
                }
            } else {
                (field_of(first), s2)
            };
            match head {
                Err(e) => (Err(e), s3),
                Ok(f) => {
                    let (args, s4) = arguments(s3);
                    match args {
                        Err(e) => (Err(e), s4),
                        Ok(args) => {
                            let (dirs, s5) = directives(s4);
                            match dirs {
                                Err(e) => (Err(e), s5),
                                Ok(dirs) => {
                                    let f = FieldView { arguments: args, directives: dirs, ..f };
                                    match peek_token(s5) {
                                        Err(e) => (Err(e), s5),
                                        Ok(t) => if t.kind == TokenKind::OpenBrace {
                                            if s5.len() < s.len() {
                                                let (sels, s6) = selection_set(s5);
                                                match sels {
                                                    Err(e) => (Err(e), s6),
                                                    Ok(sels) => (
                                                        Ok(
                                                            FieldView {
                                                                selections: Some(sels),
                                                                ..f
                                                            },
                                                        ),
                                                        s6,
                                                    ),
                                                }
                                            } else {
                                                (Err(ParseErrorView::EOF), s5)
                                            }
                                        } else {
                                            (Ok(f), s5)
                                        },
                                    }
                                },
                            }
                        },
                    }
                },
            }
        },
    }
}

/// A fragment spread: `...`, then `on` and an inline fragment, or
/// directives and an inline fragment, or the name of a fragment.
pub open spec fn fragment_spread(s: Stream) -> Parsed<SelectionView>
    decreases s.len(), 2int,
{
    let (spread, s1) = expect(s, mark(TokenKind::Spread));
    match spread {
        Err(e) => (Err(e), s1),
        Ok(_) => match peek_token(s1) {
            Err(e) => (Err(e), s1),
            Ok(t) => if t.kind == TokenKind::Name && t.text == "on"@ {
                let (r, s2) = inline_fragment_spread(s1);
                match r {
                    Ok(v) => (Ok(SelectionView::Inline(v)), s2),
                    Err(e) => (Err(e), s2),
                }
            } else if t.kind == TokenKind::At {
                let (r, s2) = anonymous_inline_fragment_spread(s1);
                match r {
                    Ok(v) => (Ok(SelectionView::Inline(v)), s2),
                    Err(e) => (Err(e), s2),
                }
            } else if t.kind == TokenKind::Name {
                let (r, s2) = fragment_spread_node(s1);
                match r {
                    Ok(v) => (Ok(SelectionView::Spread(v)), s2),
                    Err(e) => (Err(e), s2),
                }
            } else {
                (Err(unexpected("One of Token::Name or Token::At"@, t)), s1)
            },
        },
    }
}

/// The use of a named fragment: a name and optional directives.
pub open spec fn fragment_spread_node(s: Stream) -> Parsed<FragmentSpreadView> {
    let (name, s1) = next_token(s);
    match name {
        Err(e) => (Err(e), s1),
        Ok(name) => {
            let (dirs, s2) = directives(s1);
            match dirs {
                Err(e) => (Err(e), s2),
                Ok(dirs) => match name_of(name) {
                    Err(e) => (Err(e), s2),
                    Ok(n) => (Ok(FragmentSpreadView { name: n, directives: dirs }), s2),
                },
            }
        },
    }
}

/// An inline fragment on a type: `on`, the name of the type, optional
/// directives and a selection set.
pub open spec fn inline_fragment_spread(s: Stream) -> Parsed<InlineFragmentView>
    decreases s.len(), 1int,
{
    let (on, s1) = next_token(s);
    match on {
        Err(e) => (Err(e), s1),
        Ok(_) => {
            let (name, s2) = next_token(s1);
            match name {
                Err(e) => (Err(e), s2),
                Ok(name) => {
                    let (dirs, s3) = directives(s2);
                    match dirs {
                        Err(e) => (Err(e), s3),
                        Ok(dirs) => if s3.len() < s.len() {
                            let (sels, s4) = selection_set(s3);
                            match sels {
                                Err(e) => (Err(e), s4),
                                Ok(sels) => match name_of(name) {
                                    Err(e) => (Err(e), s4),
                                    Ok(n) => (
                                        Ok(
                                            InlineFragmentView {
                                                node_type: Some(n),
                                                directives: dirs,
                                                selections: sels,
                                            },
                                        ),
                                        s4,
                                    ),
                                },
                            }
                        } else {
                            (Err(ParseErrorView::EOF), s3)
                        },
                    }
                },
            }
        },
    }
}

/// An inline fragment without a type: directives and a selection set.
pub open spec fn anonymous_inline_fragment_spread(s: Stream) -> Parsed<InlineFragmentView>
    decreases s.len(), 1int,
{
    let (dirs, s1) = directives(s);
    match dirs {
        Err(e) => (Err(e), s1),
        Ok(dirs) => if s1.len() <= s.len() {
            let (sels, s2) = selection_set(s1);
            match sels {
                Err(e) => (Err(e), s2),
                Ok(sels) => (
                    Ok(InlineFragmentView { node_type: None, directives: dirs, selections: sels }),
                    s2,
                ),
            }
        } else {
            (Err(ParseErrorView::EOF), s1)
        },
    }
}

/// A query behind the keyword `query`: an optional name, optional
/// definitions of variables and a selection set.
pub open spec fn query(s: Stream) -> Parsed<QueryDefinitionView> {
    let (name, s1) = expect_optional(s, TokenKind::Name);
    let (vars, s2) = variables(s1);
    match vars {
        Err(e) => (Err(e), s2),
        Ok(vars) => {
            let (sels, s3) = selection_set(s2);
            match sels {
                Err(e) => (Err(e), s3),
                Ok(sels) => (
                    Ok(
                        QueryDefinitionView {
                            name: match name {
                                Some(t) => Some(t.text),
                                None => None,
                            },
                            variables: vars,
                            selections: sels,
                        },
                    ),
                    s3,
                ),
            }
        },
    }
}

/// A query without the keyword: a selection set.
pub open spec fn anonymous_query(s: Stream) -> Parsed<QueryDefinitionView> {
    let (sels, s1) = selection_set(s);
    match sels {
        Err(e) => (Err(e), s1),
        Ok(sels) => (
            Ok(QueryDefinitionView { name: None, variables: Seq::empty(), selections: sels }),
            s1,
        ),
    }
}

/// An operation: the keyword `query` and a query.
pub open spec fn operation_type(s: Stream) -> Parsed<QueryDefinitionView> {
    let (keyword, s1) = next_token(s);
    match keyword {
        Err(e) => (Err(e), s1),
        Ok(t) => if t.kind != TokenKind::Name {
            (Err(unexpected("Token<Name>"@, t)), s1)
        } else if t.text == "query"@ {
            query(s1)
        } else {
            (
                Err(
                    ParseErrorView::UnexpectedKeyword {
                        expected: "One of 'query'"@,
                        received: t.text,
                        location: t.location,
                    },
                ),
                s1,
            )
        },
    }
}

/// The definition of a fragment: the keyword `fragment`, a name, the
/// keyword `on`, the name of a type, optional directives and a selection
/// set.
pub open spec fn fragment_definition(s: Stream) -> Parsed<FragmentDefinitionView> {
    let (keyword, s1) = next_token(s);
    match keyword {
        Err(e) => (Err(e), s1),
        Ok(t) => if t.kind != TokenKind::Name {
            (Err(unexpected("Token<Name>"@, t)), s1)
        } else if t.text != "fragment"@ {
            (
                Err(
                    ParseErrorView::UnexpectedKeyword {
                        expected: "fragment"@,
                        received: t.text,
                        location: t.location,
                    },
                ),
                s1,
            )
        } else {
            let (name, s2) = next_token(s1);
            match name {
                Err(e) => (Err(e), s2),
                Ok(name) => {
                    let (on, s3) = next_token(s2);
                    match on {
                        Err(e) => (Err(e), s3),
                        Ok(on) => if on.kind != TokenKind::Name {
                            (Err(unexpected("Token<Name>"@, on)), s3)
                        } else if on.text != "on"@ {
                            (
                                Err(
                                    ParseErrorView::UnexpectedKeyword {
                                        expected: "on"@,
                                        received: on.text,
                                        location: on.location,
                                    },
                                ),
                                s3,
                            )
                        } else {
                            let (ty, s4) = next_token(s3);
                            match ty {
                                Err(e) => (Err(e), s4),
                                Ok(ty) => match fragment_of(name, ty) {
                                    Err(e) => (Err(e), s4),
                                    Ok(f) => {
                                        let (dirs, s5) = directives(s4);
                                        match dirs {
                                            Err(e) => (Err(e), s5),
                                            Ok(dirs) => {
                                                let (sels, s6) = selection_set(s5);
                                                match sels {
                                                    Err(e) => (Err(e), s6),
                                                    Ok(sels) => (
                                                        Ok(
                                                            FragmentDefinitionView {
                                                                directives: dirs,
                                                                selections: sels,
                                                                ..f
                                                            },
                                                        ),
                                                        s6,
                                                    ),
                                                }
                                            },
                                        }
                                    },
                                },
                            }
                        },
                    }
                },
            }
        },
    }
}

/// The text that names what may start an executable definition.
pub open spec fn executable_start_names() -> Seq<char> {
    "One of 'query', 'mutation', 'subscription', 'fragment', or anonymous query"@
}

/// An executable definition: a query, a fragment, or a bare selection set.
pub open spec fn executable(s: Stream) -> Parsed<ExecutableDefinitionView> {
    match peek_token(s) {
        Err(e) => (Err(e), s),
        Ok(t) => if t.kind == TokenKind::Name {
            if t.text == "query"@ {
                let (r, s1) = operation_type(s);
                match r {
                    Ok(q) => (Ok(ExecutableDefinitionView::Operation(q)), s1),
                    Err(e) => (Err(e), s1),
                }
            } else if t.text == "fragment"@ {
                let (r, s1) = fragment_definition(s);
                match r {
                    Ok(f) => (Ok(ExecutableDefinitionView::Fragment(f)), s1),
                    Err(e) => (Err(e), s1),
                }
            } else {
                (Err(ParseErrorView::BadValue), s)
            }
        } else if t.kind == TokenKind::OpenBrace {
            let (r, s1) = anonymous_query(s);
            match r {
                Ok(q) => (Ok(ExecutableDefinitionView::Operation(q)), s1),
                Err(e) => (Err(e), s1),
            }
        } else {
            (Err(unexpected(executable_start_names(), t)), s)
        },
    }
}

/// A definition: an optional description, then a type definition, a type
/// extension or an executable definition, told apart by the next token.
pub open spec fn definition(s: Stream) -> Parsed<DefinitionView> {
    let (desc, s1) = description(s);
    match desc {
        Err(e) => (Err(e), s1),
        Ok(desc) => match peek_token(s1) {
            Err(e) => (Err(e), s1),
            Ok(t) => if t.kind == TokenKind::Name {
                if is_type_keyword(t.text) {
                    let (r, s2) = type_definition(s1, desc);
                    match r {
                        Ok(v) => (
                            Ok(DefinitionView::TypeSystem(TypeSystemDefinitionView::Type(v))),
                            s2,
                        ),
                        Err(e) => (Err(e), s2),
                    }
                } else if t.text == "extend"@ {
                    let (r, s2) = type_extension(s1, desc);
                    match r {
                        Ok(v) => (Ok(DefinitionView::Extension(v)), s2),
                        Err(e) => (Err(e), s2),
                    }
                } else if t.text == "query"@ || t.text == "fragment"@ {
                    let (r, s2) = executable(s1);
                    match r {
                        Ok(v) => (Ok(DefinitionView::Executable(v)), s2),
                        Err(e) => (Err(e), s2),
                    }
                } else {
                    (Err(ParseErrorView::BadValue), s1)
                }
            } else if t.kind == TokenKind::OpenBrace {
                let (r, s2) = executable(s1);
                match r {
                    Ok(v) => (Ok(DefinitionView::Executable(v)), s2),
                    Err(e) => (Err(e), s2),
                }
            } else {
                (Err(unexpected("Token<Name> or Token<OpenBrace>"@, t)), s1)
            },
        },
    }
}

/// The definitions of a document up to its `End`, behind those of `acc`.
/// At least one definition comes before the `End`.
pub open spec fn definition_items(s: Stream, acc: Seq<DefinitionView>) -> Parsed<
    Seq<DefinitionView>,
>
    decreases s.len(),
{
    let (d, s1) = definition(s);
    match d {
        Err(e) => (Err(e), s1),
        Ok(d) => if next_is(s1, TokenKind::End) {
            (Ok(acc.push(d)), s1.drop_first())
        } else if s1.len() < s.len() {
            definition_items(s1, acc.push(d))
        } else {
            (Err(ParseErrorView::EOF), s1)
        },
    }
}

/// The definitions of a document: `Start`, one definition or more, and
/// `End`. A stream that holds `End` right after `Start` is an empty
/// document.
pub open spec fn definitions(s: Stream) -> Parsed<Seq<DefinitionView>> {
    let (start, s1) = expect(s, mark(TokenKind::Start));
    match start {
        Err(e) => (Err(e), s1),
        Ok(_) => if next_is(s1, TokenKind::End) {
            (Err(ParseErrorView::DocumentEmpty), s1.drop_first())
        } else {
            definition_items(s1, Seq::empty())
        },
    }
}

/// What a text parses to: its definitions, or the first error.
pub open spec fn document(text: Seq<char>) -> Result<Seq<DefinitionView>, ParseErrorView> {
    definitions(token_stream(text)).0
}

/// Whether no type that excludes null wraps, within `t`, another type that
/// excludes null.
pub open spec fn wraps_once(t: TypeView) -> bool
    decreases t,
{
    match t {
        TypeView::Named(_) => true,
        TypeView::List(inner) => wraps_once(*inner),
        TypeView::NonNull(inner) => !(*inner is NonNull) && wraps_once(*inner),
    }
}

/// A type reference that parses never excludes null twice in a row: of
/// `Int!!` the type `Int!` is parsed, and the second `!` is left.
pub proof fn lemma_types_wrap_once(s: Stream)
    ensures
        field_type(s).0 matches Ok(t) ==> wraps_once(t),
    decreases s.len(),
{
    reveal_with_fuel(wraps_once, 3);
    if next_is(s, TokenKind::OpenSquare) {
        lemma_types_wrap_once(s.drop_first());
    }
}

/// The definitions of a document are more than those of `acc`.
pub proof fn lemma_definition_items_grow(s: Stream, acc: Seq<DefinitionView>)
    ensures
        definition_items(s, acc).0 matches Ok(all) ==> all.len() > acc.len(),
    decreases s.len(),
{
    let (d, s1) = definition(s);
    if d is Ok && !next_is(s1, TokenKind::End) && s1.len() < s.len() {
        lemma_definition_items_grow(s1, acc.push(d->Ok_0));
    }
}

/// A text that parses has a definition: no document is empty.
pub proof fn lemma_documents_hold_definitions(text: Seq<char>)
    ensures
        document(text) matches Ok(all) ==> all.len() > 0,
{
    let s1 = expect(token_stream(text), mark(TokenKind::Start)).1;
    lemma_definition_items_grow(s1, Seq::empty());
}

/// Whether a parse of the stream `s` has not lengthened it.
pub open spec fn keeps<T>(p: Parsed<T>, s: Stream) -> bool {
    p.1.len() <= s.len()
}

/// Whether a parse of the stream `s` has not lengthened it, and has taken
/// a token off it if it succeeded.
pub open spec fn shrinks<T>(p: Parsed<T>, s: Stream) -> bool {
    p.1.len() <= s.len() && (p.0 is Ok ==> p.1.len() < s.len())
}

/// A type reference never lengthens the stream, and shortens it where it
/// succeeds.
pub broadcast proof fn lemma_field_type_progress(s: Stream)
    ensures
        shrinks(#[trigger] field_type(s), s),
    decreases s.len(),
{
    if next_is(s, TokenKind::OpenSquare) {
        lemma_field_type_progress(s.drop_first());
    }
}

/// A value never lengthens the stream, and shortens it where it succeeds.
pub broadcast proof fn lemma_value_progress(s: Stream)
    ensures
        shrinks(#[trigger] value(s), s),
    decreases s.len(), 1int,
{
    if peek_token(s) is Ok {
        let t = peek_token(s)->Ok_0;
        if t.kind == TokenKind::OpenSquare {
            lemma_list_value_progress(s);
        } else if t.kind == TokenKind::OpenBrace {
            lemma_object_value_progress(s);
        }
    }
}

/// A list value never lengthens the stream, and shortens it where it
/// succeeds.
pub broadcast proof fn lemma_list_value_progress(s: Stream)
    ensures
        shrinks(#[trigger] list_value(s), s),
    decreases s.len(), 0int,
{
    let (open, s1) = expect(s, mark(TokenKind::OpenSquare));
    if open is Ok {
        lemma_list_items_progress(s1, Seq::empty());
    }
}

/// The values of a list never lengthen the stream, and shorten it where
/// they succeed.
pub broadcast proof fn lemma_list_items_progress(s: Stream, acc: Seq<ValueView>)
    ensures
        shrinks(#[trigger] list_items(s, acc), s),
    decreases s.len(), 2int,
{
    if !next_is(s, TokenKind::CloseSquare) {
        lemma_value_progress(s);
        let (v, s1) = value(s);
        if v is Ok && s1.len() < s.len() {
            lemma_list_items_progress(s1, acc.push(v->Ok_0));
        }
    }
}

/// An object value never lengthens the stream, and shortens it where it
/// succeeds.
pub broadcast proof fn lemma_object_value_progress(s: Stream)
    ensures
        shrinks(#[trigger] object_value(s), s),
    decreases s.len(), 0int,
{
    let (open, s1) = expect(s, mark(TokenKind::OpenBrace));
    if open is Ok {
        lemma_object_fields_progress(s1, Seq::empty());
    }
}

/// The fields of an object value never lengthen the stream, and shorten it
/// where they succeed.
pub broadcast proof fn lemma_object_fields_progress(s: Stream, acc: Seq<ObjectFieldView>)
    ensures
        shrinks(#[trigger] object_fields(s, acc), s),
    decreases s.len(), 2int,
{
    if !next_is(s, TokenKind::CloseBrace) {
        let (name, s1) = next_token(s);
        if name is Ok {
            let (colon, s2) = expect(s1, mark(TokenKind::Colon));
            if colon is Ok {
                lemma_value_progress(s2);
                let (v, s3) = value(s2);
                if v is Ok && name_of(name->Ok_0) is Ok && s3.len() < s.len() {
                    lemma_object_fields_progress(
                        s3,
                        acc.push(
                            ObjectFieldView { name: name_of(name->Ok_0)->Ok_0, value: v->Ok_0 },
                        ),
                    );
                }
            }
        }
    }
}

/// An optional description never lengthens the stream.
pub broadcast proof fn lemma_description_progress(s: Stream)
    ensures
        keeps(#[trigger] description(s), s),
{
}

/// A variable never lengthens the stream, and shortens it where it
/// succeeds.
pub broadcast proof fn lemma_variable_progress(s: Stream)
    ensures
        shrinks(#[trigger] variable(s), s),
{
}

/// An argument never lengthens the stream, and shortens it where it
/// succeeds.
pub broadcast proof fn lemma_argument_progress(s: Stream)
    ensures
        shrinks(#[trigger] argument(s), s),
{
    broadcast use {lemma_value_progress};

}

/// The arguments of a list never lengthen the stream, and shorten it where
/// they succeed.
pub broadcast proof fn lemma_argument_items_progress(s: Stream, acc: Seq<ArgumentView>)
    ensures
        shrinks(#[trigger] argument_items(s, acc), s),
    decreases s.len(),
{
    broadcast use {lemma_argument_progress};

    if !next_is(s, TokenKind::CloseParen) {
        let (a, s1) = argument(s);
        if a is Ok && s1.len() < s.len() {
            lemma_argument_items_progress(s1, acc.push(a->Ok_0));
        }
    }
}

/// An optional list of arguments never lengthens the stream.
pub broadcast proof fn lemma_arguments_progress(s: Stream)
    ensures
        keeps(#[trigger] arguments(s), s),
{
    broadcast use {lemma_argument_items_progress};

}

/// A directive never lengthens the stream, and shortens it where it
/// succeeds.
pub broadcast proof fn lemma_directive_progress(s: Stream)
    ensures
        shrinks(#[trigger] directive(s), s),
{
    broadcast use {lemma_arguments_progress};

}

/// The directives that follow never lengthen the stream.
pub broadcast proof fn lemma_directive_items_progress(s: Stream, acc: Seq<DirectiveView>)
    ensures
        keeps(#[trigger] directive_items(s, acc), s),
    decreases s.len(),
{
    broadcast use {lemma_directive_progress};

    if peek_token(s) matches Ok(t) && t.kind == TokenKind::At {
        let (d, s1) = directive(s);
        if d is Ok && s1.len() < s.len() {
            lemma_directive_items_progress(s1, acc.push(d->Ok_0));
        }
    }
}

/// The directives that follow never lengthen the stream.
pub broadcast proof fn lemma_directives_progress(s: Stream)
    ensures
        keeps(#[trigger] directives(s), s),
{
    broadcast use {lemma_directive_items_progress};

}

/// An optional default value never lengthens the stream.
pub broadcast proof fn lemma_default_value_progress(s: Stream)
    ensures
        keeps(#[trigger] default_value(s), s),
{
    broadcast use {lemma_value_progress};

}

/// An input value never lengthens the stream, and shortens it where it
/// succeeds.
pub broadcast proof fn lemma_input_value_progress(s: Stream)
    ensures
        shrinks(#[trigger] input_value(s), s),
{
    broadcast use {lemma_description_progress, lemma_field_type_progress, lemma_default_value_progress, lemma_directives_progress};

}

/// The argument definitions of a list never lengthen the stream, and
/// shorten it where they succeed.
pub broadcast proof fn lemma_argument_definition_items_progress(s: Stream, acc: Seq<InputValueDefinitionView>)
    ensures
        shrinks(#[trigger] argument_definition_items(s, acc), s),
    decreases s.len(),
{
    broadcast use {lemma_input_value_progress};

    let (v, s1) = input_value(s);
    if v is Ok && !next_is(s1, TokenKind::CloseParen) && s1.len() < s.len() {
        lemma_argument_definition_items_progress(s1, acc.push(v->Ok_0));
    }
}

/// An optional list of argument definitions never lengthens the stream.
pub broadcast proof fn lemma_arguments_definition_progress(s: Stream)
    ensures
        keeps(#[trigger] arguments_definition(s), s),
{
    broadcast use {lemma_argument_definition_items_progress};

}

/// A field definition never lengthens the stream, and shortens it where it
/// succeeds.
pub broadcast proof fn lemma_field_progress(s: Stream)
    ensures
        shrinks(#[trigger] field(s), s),
{
    broadcast use {lemma_description_progress, lemma_arguments_definition_progress, lemma_field_type_progress};

}

/// The field definitions of a block never lengthen the stream, and shorten
/// it where they succeed.
pub broadcast proof fn lemma_field_items_progress(s: Stream, acc: Seq<FieldDefinitionView>)
    ensures
        shrinks(#[trigger] field_items(s, acc), s),
    decreases s.len(),
{
    broadcast use {lemma_field_progress};

    if !next_is(s, TokenKind::CloseBrace) {
        let (f, s1) = field(s);
        if f is Ok && s1.len() < s.len() {
            lemma_field_items_progress(s1, acc.push(f->Ok_0));
        }
    }
}

/// A block of field definitions never lengthens the stream, and shortens it
/// where it succeeds.
pub broadcast proof fn lemma_fields_progress(s: Stream)
    ensures
        shrinks(#[trigger] fields(s), s),
{
    broadcast use {lemma_field_items_progress};

}

/// The input values of a block never lengthen the stream, and shorten it
/// where they succeed.
pub broadcast proof fn lemma_input_field_items_progress(s: Stream, acc: Seq<InputValueDefinitionView>)
    ensures
        shrinks(#[trigger] input_field_items(s, acc), s),
    decreases s.len(),
{
    broadcast use {lemma_input_value_progress};

    if !next_is(s, TokenKind::CloseBrace) {
        let (f, s1) = input_value(s);
        if f is Ok && s1.len() < s.len() {
            lemma_input_field_items_progress(s1, acc.push(f->Ok_0));
        }
    }
}

/// A block of input values never lengthens the stream, and shortens it
/// where it succeeds.
pub broadcast proof fn lemma_input_fields_progress(s: Stream)
    ensures
        shrinks(#[trigger] input_fields(s), s),
{
    broadcast use {lemma_input_field_items_progress};

}

/// The values of an enum never lengthen the stream, and shorten it where
/// they succeed.
pub broadcast proof fn lemma_enum_value_items_progress(s: Stream, acc: Seq<EnumValueDefinitionView>)
    ensures
        shrinks(#[trigger] enum_value_items(s, acc), s),
    decreases s.len(),
{
    broadcast use {lemma_description_progress, lemma_directives_progress};

    if !next_is(s, TokenKind::CloseBrace) {
        let (desc, s1) = description(s);
        if desc is Ok {
            let (name, s2) = expect(s1, named(""@));
            if name is Ok && !is_value_keyword(name->Ok_0.text) {
                let (dirs, s3) = directives(s2);
                if dirs is Ok {
                    let v = enum_value_of(name->Ok_0, desc->Ok_0, dirs->Ok_0);
                    if v is Ok && s3.len() < s.len() {
                        lemma_enum_value_items_progress(s3, acc.push(v->Ok_0));
                    }
                }
            }
        }
    }
}

/// The block of values of an enum never lengthens the stream, and shortens
/// it where it succeeds.
pub broadcast proof fn lemma_enum_values_progress(s: Stream)
    ensures
        shrinks(#[trigger] enum_values(s), s),
{
    broadcast use {lemma_enum_value_items_progress};

}

/// The further members of a union never lengthen the stream.
pub broadcast proof fn lemma_union_member_items_progress(s: Stream, acc: Seq<Seq<char>>)
    ensures
        keeps(#[trigger] union_member_items(s, acc), s),
    decreases s.len(),
{
    if next_is(s, TokenKind::Pipe) {
        let (name, s1) = next_token(s.drop_first());
        if name is Ok && name_of(name->Ok_0) is Ok && s1.len() < s.len() {
            lemma_union_member_items_progress(s1, acc.push(name_of(name->Ok_0)->Ok_0));
        }
    }
}

/// The members of a union never lengthen the stream, and shorten it where
/// they succeed.
pub broadcast proof fn lemma_union_types_progress(s: Stream)
    ensures
        shrinks(#[trigger] union_types(s), s),
{
    broadcast use {lemma_union_member_items_progress};

}

/// The interfaces of an object never lengthen the stream, and shorten it
/// where they succeed.
pub broadcast proof fn lemma_interface_items_progress(s: Stream, acc: Seq<Seq<char>>)
    ensures
        shrinks(#[trigger] interface_items(s, acc), s),
    decreases s.len(),
{
    let (name, s1) = expect(s, named(""@));
    if name is Ok && name_of(name->Ok_0) is Ok && next_is(s1, TokenKind::Amp) && s1.len()
        <= s.len() {
        lemma_interface_items_progress(s1.drop_first(), acc.push(name_of(name->Ok_0)->Ok_0));
    }
}

/// The interfaces of an object, with their keyword, never lengthen the
/// stream.
pub broadcast proof fn lemma_object_interfaces_progress(s: Stream)
    ensures
        keeps(#[trigger] object_interfaces(s), s),
{
    broadcast use {lemma_interface_items_progress};

}

/// An object type never lengthens the stream, and shortens it where it
/// succeeds.
pub broadcast proof fn lemma_object_type_progress(s: Stream, desc: Option<StringValueView>)
    ensures
        shrinks(#[trigger] object_type(s, desc), s),
{
    broadcast use {lemma_object_interfaces_progress, lemma_directives_progress, lemma_fields_progress};

}

/// An extension of an object type never lengthens the stream, and shortens
/// it where it succeeds.
pub broadcast proof fn lemma_object_type_extension_progress(s: Stream, desc: Option<StringValueView>)
    ensures
        shrinks(#[trigger] object_type_extension(s, desc), s),
{
    broadcast use {lemma_object_interfaces_progress, lemma_directives_progress, lemma_fields_progress};

}

/// An interface type never lengthens the stream, and shortens it where it
/// succeeds.
pub broadcast proof fn lemma_interface_type_progress(s: Stream, desc: Option<StringValueView>)
    ensures
        shrinks(#[trigger] interface_type(s, desc), s),
{
    broadcast use {lemma_directives_progress, lemma_fields_progress};

}

/// An input type never lengthens the stream, and shortens it where it
/// succeeds.
pub broadcast proof fn lemma_input_type_progress(s: Stream, desc: Option<StringValueView>)
    ensures
        shrinks(#[trigger] input_type(s, desc), s),
{
    broadcast use {lemma_input_fields_progress};

}

/// A scalar type never lengthens the stream, and shortens it where it
/// succeeds.
pub broadcast proof fn lemma_scalar_type_progress(s: Stream, desc: Option<StringValueView>)
    ensures
        shrinks(#[trigger] scalar_type(s, desc), s),
{
    broadcast use {lemma_directives_progress};

}

/// An enum type never lengthens the stream, and shortens it where it
/// succeeds.
pub broadcast proof fn lemma_enum_type_progress(s: Stream, desc: Option<StringValueView>)
    ensures
        shrinks(#[trigger] enum_type(s, desc), s),
{
    broadcast use {lemma_directives_progress, lemma_enum_values_progress};

}

/// A union type never lengthens the stream, and shortens it where it
/// succeeds.
pub broadcast proof fn lemma_union_type_progress(s: Stream, desc: Option<StringValueView>)
    ensures
        shrinks(#[trigger] union_type(s, desc), s),
{
    broadcast use {lemma_directives_progress, lemma_union_types_progress};

}

/// A type definition never lengthens the stream, and shortens it where it
/// succeeds.
pub broadcast proof fn lemma_type_definition_progress(s: Stream, desc: Option<StringValueView>)
    ensures
        shrinks(#[trigger] type_definition(s, desc), s),
{
    broadcast use {lemma_object_type_progress, lemma_enum_type_progress, lemma_union_type_progress, lemma_interface_type_progress, lemma_input_type_progress, lemma_scalar_type_progress};

}

/// A type extension never lengthens the stream, and shortens it where it
/// succeeds.
pub broadcast proof fn lemma_type_extension_progress(s: Stream, desc: Option<StringValueView>)
    ensures
        shrinks(#[trigger] type_extension(s, desc), s),
{
    broadcast use {lemma_object_type_extension_progress};

}

/// The definition of a variable never lengthens the stream, and shortens it
/// where it succeeds.
pub broadcast proof fn lemma_variable_definition_progress(s: Stream)
    ensures
        shrinks(#[trigger] variable_definition(s), s),
{
    broadcast use {lemma_variable_progress, lemma_field_type_progress, lemma_default_value_progress};

}

/// The definitions of the variables of a list never lengthen the stream,
/// and shorten it where they succeed.
pub broadcast proof fn lemma_variable_items_progress(s: Stream, acc: Seq<VariableDefinitionView>)
    ensures
        shrinks(#[trigger] variable_items(s, acc), s),
    decreases s.len(),
{
    broadcast use {lemma_variable_definition_progress};

    if !next_is(s, TokenKind::CloseParen) {
        let (v, s1) = variable_definition(s);
        if v is Ok && s1.len() < s.len() {
            lemma_variable_items_progress(s1, acc.push(v->Ok_0));
        }
    }
}

/// The definitions of the variables of a query never lengthen the stream.
pub broadcast proof fn lemma_variables_progress(s: Stream)
    ensures
        keeps(#[trigger] variables(s), s),
{
    broadcast use {lemma_variable_items_progress};

}

/// The use of a named fragment never lengthens the stream, and shortens it
/// where it succeeds.
pub broadcast proof fn lemma_fragment_spread_node_progress(s: Stream)
    ensures
        shrinks(#[trigger] fragment_spread_node(s), s),
{
    broadcast use {lemma_directives_progress};

}

/// A selection set never lengthens the stream, and shortens it where it
/// succeeds.
pub broadcast proof fn lemma_selection_set_progress(s: Stream)
    ensures
        shrinks(#[trigger] selection_set(s), s),
    decreases s.len(), 0int,
{
    let (open, s1) = expect(s, mark(TokenKind::OpenBrace));
    if open is Ok {
        lemma_selection_items_progress(s1, Seq::empty());
    }
}

/// The selections of a set never lengthen the stream, and shorten it
/// where they succeed.
pub broadcast proof fn lemma_selection_items_progress(s: Stream, acc: Seq<SelectionView>)
    ensures
        shrinks(#[trigger] selection_items(s, acc), s),
    decreases s.len(), 4int,
{
    if !next_is(s, TokenKind::CloseBrace) {
        lemma_selection_progress(s);
        let (sel, s1) = selection(s);
        if sel is Ok && s1.len() < s.len() {
            lemma_selection_items_progress(s1, acc.push(sel->Ok_0));
        }
    }
}

/// A selection never lengthens the stream, and shortens it where it
/// succeeds.
pub broadcast proof fn lemma_selection_progress(s: Stream)
    ensures
        shrinks(#[trigger] selection(s), s),
    decreases s.len(), 3int,
{
    if peek_token(s) is Ok {
        let t = peek_token(s)->Ok_0;
        if t.kind == TokenKind::Name {
            lemma_field_node_progress(s);
        } else if t.kind == TokenKind::Spread {
            lemma_fragment_spread_progress(s);
        }
    }
}

/// A field of a selection set never lengthens the stream, and shortens it
/// where it succeeds.
pub broadcast proof fn lemma_field_node_progress(s: Stream)
    ensures
        shrinks(#[trigger] field_node(s), s),
    decreases s.len(), 2int,
{
    broadcast use {lemma_arguments_progress, lemma_directives_progress};

    let (first, s1) = next_token(s);
    if first is Ok {
        let (colon, s2) = expect_optional(s1, TokenKind::Colon);
        let s3 = if colon is Some {
            next_token(s2).1
        } else {
            s2
        };
        let s4 = arguments(s3).1;
        let s5 = directives(s4).1;
        if s5.len() < s.len() {
            lemma_selection_set_progress(s5);
        }
    }
}

/// A fragment spread never lengthens the stream, and shortens it where
/// it succeeds.
pub broadcast proof fn lemma_fragment_spread_progress(s: Stream)
    ensures
        shrinks(#[trigger] fragment_spread(s), s),
    decreases s.len(), 2int,
{
    broadcast use lemma_fragment_spread_node_progress;

    let (spread, s1) = expect(s, mark(TokenKind::Spread));
    if spread is Ok {
        lemma_inline_fragment_spread_progress(s1);
        lemma_anonymous_inline_fragment_spread_progress(s1);
    }
}

/// An inline fragment on a type never lengthens the stream, and shortens
/// it where it succeeds.
pub broadcast proof fn lemma_inline_fragment_spread_progress(s: Stream)
    ensures
        shrinks(#[trigger] inline_fragment_spread(s), s),
    decreases s.len(), 1int,
{
    broadcast use lemma_directives_progress;

    let s1 = next_token(s).1;
    let s2 = next_token(s1).1;
    let s3 = directives(s2).1;
    if s3.len() < s.len() {
        lemma_selection_set_progress(s3);
    }
}

/// An inline fragment without a type never lengthens the stream, and
/// shortens it where it succeeds.
pub broadcast proof fn lemma_anonymous_inline_fragment_spread_progress(s: Stream)
    ensures
        shrinks(#[trigger] anonymous_inline_fragment_spread(s), s),
    decreases s.len(), 1int,
{
    broadcast use lemma_directives_progress;

    let s1 = directives(s).1;
    if s1.len() <= s.len() {
        lemma_selection_set_progress(s1);
    }
}

/// A query never lengthens the stream, and shortens it where it succeeds.
pub broadcast proof fn lemma_query_progress(s: Stream)
    ensures
        shrinks(#[trigger] query(s), s),
{
    broadcast use {lemma_variables_progress, lemma_selection_set_progress};

}

/// A query without a keyword never lengthens the stream, and shortens it
/// where it succeeds.
pub broadcast proof fn lemma_anonymous_query_progress(s: Stream)
    ensures
        shrinks(#[trigger] anonymous_query(s), s),
{
    broadcast use {lemma_selection_set_progress};

}

/// An operation never lengthens the stream, and shortens it where it
/// succeeds.
pub broadcast proof fn lemma_operation_type_progress(s: Stream)
    ensures
        shrinks(#[trigger] operation_type(s), s),
{
    broadcast use {lemma_query_progress};

}

/// The definition of a fragment never lengthens the stream, and shortens it
/// where it succeeds.
pub broadcast proof fn lemma_fragment_definition_progress(s: Stream)
    ensures
        shrinks(#[trigger] fragment_definition(s), s),
{
    broadcast use {lemma_directives_progress, lemma_selection_set_progress};

}

/// An executable definition never lengthens the stream, and shortens it
/// where it succeeds.
pub broadcast proof fn lemma_executable_progress(s: Stream)
    ensures
        shrinks(#[trigger] executable(s), s),
{
    broadcast use {lemma_operation_type_progress, lemma_fragment_definition_progress, lemma_anonymous_query_progress};

}

/// A definition never lengthens the stream, and shortens it where it
/// succeeds.
pub broadcast proof fn lemma_definition_progress(s: Stream)
    ensures
        shrinks(#[trigger] definition(s), s),
{
    broadcast use {lemma_description_progress, lemma_type_definition_progress, lemma_type_extension_progress, lemma_executable_progress};

}

/// The definitions of a document never lengthen the stream, and shorten it
/// where they succeed.
pub broadcast proof fn lemma_definition_items_progress(s: Stream, acc: Seq<DefinitionView>)
    ensures
        shrinks(#[trigger] definition_items(s, acc), s),
    decreases s.len(),
{
    broadcast use {lemma_definition_progress};

    let (d, s1) = definition(s);
    if d is Ok && !next_is(s1, TokenKind::End) && s1.len() < s.len() {
        lemma_definition_items_progress(s1, acc.push(d->Ok_0));
    }
}

/// The definitions of a document, between `Start` and `End`, never lengthen
/// the stream, and shorten it where they succeed.
pub broadcast proof fn lemma_definitions_progress(s: Stream)
    ensures
        shrinks(#[trigger] definitions(s), s),
{
    broadcast use {lemma_definition_items_progress};

}

} // verus!
