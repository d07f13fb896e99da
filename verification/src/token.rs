//! Tokens and the source locations attached to them.

use crate::text::{push_decimal, push_signed_decimal, signed_decimal, decimal, str_eq};
use vstd::prelude::*;
use vstd::std_specs::cmp::PartialEqSpecImpl;

verus! {

/// A position in the source text.
#[derive(Debug, Copy, Clone, PartialEq, Eq, Structural)]
pub struct Location {
    /// The number of characters that precede the position.
    pub absolute_position: usize,
    /// The line number, starting at 1.
    pub line: usize,
    /// The column within the line, starting at 1.
    pub column: usize,
}

impl Location {
    /// A location made of the three given numbers.
    pub fn new(pos: usize, line: usize, column: usize) -> (r: Self)
        ensures
            r == (Location { absolute_position: pos, line, column }),
    {
        Location { absolute_position: pos, line, column }
    }

    /// The placeholder location of tokens that stand for no text.
    pub fn ignored() -> (r: Self)
        ensures
            r == Location::spec_ignored(),
    {
        Location { absolute_position: 0, line: 0, column: 0 }
    }

    /// The value of [`Location::ignored`].
    pub open spec fn spec_ignored() -> Location {
        Location { absolute_position: 0, line: 0, column: 0 }
    }

    /// The text `Location { absolute_position: P, line: L, column: C }`.
    pub open spec fn text(self) -> Seq<char> {
        "Location { absolute_position: "@ + decimal(self.absolute_position as nat) + ", line: "@
            + decimal(self.line as nat) + ", column: "@ + decimal(self.column as nat) + " }"@
    }

    /// Appends [`Location::text`] to `out`.
    pub fn push_text(&self, out: &mut String)
        ensures
            final(out)@ == old(out)@ + self.text(),
    {
        out.append("Location { absolute_position: ");
        push_decimal(out, self.absolute_position as u64);
        out.append(", line: ");
        push_decimal(out, self.line as u64);
        out.append(", column: ");
        push_decimal(out, self.column as u64);
        out.append(" }");
        assert(out@ =~= old(out)@ + self.text());
    }
}

/// The lexical category of a token.
#[derive(Debug, Copy, Clone, PartialEq, Eq, Structural)]
pub enum TokenKind {
    Start,
    End,
    Bang,
    Dollar,
    Amp,
    Spread,
    Colon,
    Equals,
    At,
    OpenParen,
    CloseParen,
    OpenSquare,
    CloseSquare,
    OpenBrace,
    CloseBrace,
    Pipe,
    Name,
    Int,
    Float,
    Str,
    BlockStr,
    Comment,
}

impl TokenKind {
    /// The name of the kind, as it is written in diagnostics.
    pub open spec fn label(self) -> Seq<char> {
        match self {
            TokenKind::Start => "Start"@,
            TokenKind::End => "End"@,
            TokenKind::Bang => "Bang"@,
            TokenKind::Dollar => "Dollar"@,
            TokenKind::Amp => "Amp"@,
            TokenKind::Spread => "Spread"@,
            TokenKind::Colon => "Colon"@,
            TokenKind::Equals => "Equals"@,
            TokenKind::At => "At"@,
            TokenKind::OpenParen => "OpenParen"@,
            TokenKind::CloseParen => "CloseParen"@,
            TokenKind::OpenSquare => "OpenSquare"@,
            TokenKind::CloseSquare => "CloseSquare"@,
            TokenKind::OpenBrace => "OpenBrace"@,
            TokenKind::CloseBrace => "CloseBrace"@,
            TokenKind::Pipe => "Pipe"@,
            TokenKind::Name => "Name"@,
            TokenKind::Int => "Int"@,
            TokenKind::Float => "Float"@,
            TokenKind::Str => "Str"@,
            TokenKind::BlockStr => "BlockStr"@,
            TokenKind::Comment => "Comment"@,
        }
    }

    /// The name of the kind as a string slice.
    pub fn name(self) -> (r: &'static str)
        ensures
            r@ == self.label(),
    {
        match self {
            TokenKind::Start => "Start",
            TokenKind::End => "End",
            TokenKind::Bang => "Bang",
            TokenKind::Dollar => "Dollar",
            TokenKind::Amp => "Amp",
            TokenKind::Spread => "Spread",
            TokenKind::Colon => "Colon",
            TokenKind::Equals => "Equals",
            TokenKind::At => "At",
            TokenKind::OpenParen => "OpenParen",
            TokenKind::CloseParen => "CloseParen",
            TokenKind::OpenSquare => "OpenSquare",
            TokenKind::CloseSquare => "CloseSquare",
            TokenKind::OpenBrace => "OpenBrace",
            TokenKind::CloseBrace => "CloseBrace",
            TokenKind::Pipe => "Pipe",
            TokenKind::Name => "Name",
            TokenKind::Int => "Int",
            TokenKind::Float => "Float",
            TokenKind::Str => "Str",
            TokenKind::BlockStr => "BlockStr",
            TokenKind::Comment => "Comment",
        }
    }

    /// Whether tokens of this kind are literals, which are compared by what
    /// they carry.
    pub open spec fn is_literal(self) -> bool {
        self == TokenKind::Name || self == TokenKind::Int || self == TokenKind::Float || self
            == TokenKind::Str || self == TokenKind::BlockStr
    }

    /// Whether tokens of this kind carry a piece of the source text.
    pub open spec fn has_text(self) -> bool {
        self == TokenKind::Name || self == TokenKind::Float || self == TokenKind::Str || self
            == TokenKind::BlockStr || self == TokenKind::Comment
    }
}

/// A token of the language. `Start` and `End` stand for the two ends of the
/// text; every other token carries the location of its first character, and
/// names, numbers and strings carry their value. A `Float` keeps the numeral
/// as it was written.
#[derive(Debug, Copy, Clone)]
pub enum Token<'a> {
    /// The start of the token stream.
    Start,
    /// The end of the token stream.
    End,
    /// `!`
    Bang(Location),
    /// `$`
    Dollar(Location),
    /// `&`
    Amp(Location),
    /// `...`
    Spread(Location),
    /// `:`
    Colon(Location),
    /// `=`
    Equals(Location),
    /// `@`
    At(Location),
    /// `(`
    OpenParen(Location),
    /// `)`
    CloseParen(Location),
    /// `[`
    OpenSquare(Location),
    /// `]`
    CloseSquare(Location),
    /// `{`
    OpenBrace(Location),
    /// `}`
    CloseBrace(Location),
    /// `|`
    Pipe(Location),
    /// A letter followed by letters, digits and underscores.
    Name(Location, &'a str),
    /// An integer numeral and its value.
    Int(Location, i64),
    /// A numeral with a fractional part, as written.
    Float(Location, &'a str),
    /// The text between a pair of double quotes.
    Str(Location, &'a str),
    /// The text between a pair of triple double quotes.
    BlockStr(Location, &'a str),
    /// The text of a comment.
    Comment(Location, &'a str),
}

/// What a token is, as a mathematical value: its kind, its location, the text
/// it carries (empty for kinds without text) and its number (zero for every
/// kind but `Int`).
pub struct TokenView {
    pub kind: TokenKind,
    pub location: Location,
    pub text: Seq<char>,
    pub number: int,
}

impl TokenView {
    /// A token without a value, such as a punctuation mark.
    pub open spec fn mark(kind: TokenKind, location: Location) -> TokenView {
        TokenView { kind, location, text: Seq::empty(), number: 0 }
    }

    /// A token that carries a piece of text.
    pub open spec fn word(kind: TokenKind, location: Location, text: Seq<char>) -> TokenView {
        TokenView { kind, location, text, number: 0 }
    }

    /// An `Int` token.
    pub open spec fn integer(location: Location, number: int) -> TokenView {
        TokenView { kind: TokenKind::Int, location, text: Seq::empty(), number }
    }

    /// Equality of tokens: two tokens are equal when they are of one kind
    /// and, if that is a kind of literal, carry the same value. Locations are
    /// not compared.
    pub open spec fn same_value(self, other: TokenView) -> bool {
        self.kind == other.kind && (self.kind.is_literal() ==> self.text == other.text
            && self.number == other.number)
    }

    /// The token as it is written in diagnostics: `Token<Start>`,
    /// `Token<Bang(Location { .. })>`, `Token<Name(Location { .. }, "id")>`,
    /// `Token<Int(Location { .. }, 42)>`, `Token<Float(Location { .. }, 1.5)>`.
    pub open spec fn render(self) -> Seq<char> {
        if self.kind == TokenKind::Start || self.kind == TokenKind::End {
            "Token<"@ + self.kind.label() + ">"@
        } else if self.kind == TokenKind::Int {
            "Token<"@ + self.kind.label() + "("@ + self.location.text() + ", "@ + signed_decimal(
                self.number,
            ) + ")>"@
        } else if self.kind == TokenKind::Float {
            "Token<"@ + self.kind.label() + "("@ + self.location.text() + ", "@ + self.text + ")>"@
        } else if self.kind.has_text() {
            "Token<"@ + self.kind.label() + "("@ + self.location.text() + ", \""@ + self.text
                + "\")>"@
        } else {
            "Token<"@ + self.kind.label() + "("@ + self.location.text() + ")>"@
        }
    }
}

impl<'a> View for Token<'a> {
    type V = TokenView;

    open spec fn view(&self) -> TokenView {
        match self {
            Token::Start => TokenView::mark(TokenKind::Start, Location::spec_ignored()),
            Token::End => TokenView::mark(TokenKind::End, Location::spec_ignored()),
            Token::Bang(l) => TokenView::mark(TokenKind::Bang, *l),
            Token::Dollar(l) => TokenView::mark(TokenKind::Dollar, *l),
            Token::Amp(l) => TokenView::mark(TokenKind::Amp, *l),
            Token::Spread(l) => TokenView::mark(TokenKind::Spread, *l),
            Token::Colon(l) => TokenView::mark(TokenKind::Colon, *l),
            Token::Equals(l) => TokenView::mark(TokenKind::Equals, *l),
            Token::At(l) => TokenView::mark(TokenKind::At, *l),
            Token::OpenParen(l) => TokenView::mark(TokenKind::OpenParen, *l),
            Token::CloseParen(l) => TokenView::mark(TokenKind::CloseParen, *l),
            Token::OpenSquare(l) => TokenView::mark(TokenKind::OpenSquare, *l),
            Token::CloseSquare(l) => TokenView::mark(TokenKind::CloseSquare, *l),
            Token::OpenBrace(l) => TokenView::mark(TokenKind::OpenBrace, *l),
            Token::CloseBrace(l) => TokenView::mark(TokenKind::CloseBrace, *l),
            Token::Pipe(l) => TokenView::mark(TokenKind::Pipe, *l),
            Token::Name(l, s) => TokenView::word(TokenKind::Name, *l, s@),
            Token::Int(l, i) => TokenView::integer(*l, *i as int),
            Token::Float(l, s) => TokenView::word(TokenKind::Float, *l, s@),
            Token::Str(l, s) => TokenView::word(TokenKind::Str, *l, s@),
            Token::BlockStr(l, s) => TokenView::word(TokenKind::BlockStr, *l, s@),
            Token::Comment(l, s) => TokenView::word(TokenKind::Comment, *l, s@),
        }
    }
}

impl<'a> DeepView for Token<'a> {
    type V = TokenView;

    open spec fn deep_view(&self) -> TokenView {
        self.view()
    }
}

impl<'a> Token<'a> {
    /// The lexical category of the token.
    pub fn kind(&self) -> (r: TokenKind)
        ensures
            r == self@.kind,
    {
        match self {
            Token::Start => TokenKind::Start,
            Token::End => TokenKind::End,
            Token::Bang(_) => TokenKind::Bang,
            Token::Dollar(_) => TokenKind::Dollar,
            Token::Amp(_) => TokenKind::Amp,
            Token::Spread(_) => TokenKind::Spread,
            Token::Colon(_) => TokenKind::Colon,
            Token::Equals(_) => TokenKind::Equals,
            Token::At(_) => TokenKind::At,
            Token::OpenParen(_) => TokenKind::OpenParen,
            Token::CloseParen(_) => TokenKind::CloseParen,
            Token::OpenSquare(_) => TokenKind::OpenSquare,
            Token::CloseSquare(_) => TokenKind::CloseSquare,
            Token::OpenBrace(_) => TokenKind::OpenBrace,
            Token::CloseBrace(_) => TokenKind::CloseBrace,
            Token::Pipe(_) => TokenKind::Pipe,
            Token::Name(_, _) => TokenKind::Name,
            Token::Int(_, _) => TokenKind::Int,
            Token::Float(_, _) => TokenKind::Float,
            Token::Str(_, _) => TokenKind::Str,
            Token::BlockStr(_, _) => TokenKind::BlockStr,
            Token::Comment(_, _) => TokenKind::Comment,
        }
    }

    /// Whether the two tokens are of the same kind, whatever they carry.
    pub fn is_same_type(&self, other: &Token) -> (r: bool)
        ensures
            r == (self@.kind == other@.kind),
    {
        self.kind() == other.kind()
    }

    /// The location of the token; the ignored location for `Start` and `End`.
    pub fn location(&self) -> (r: Location)
        ensures
            r == self@.location,
    {
        match self {
            Token::Start | Token::End => Location::ignored(),
            Token::Bang(location)
            | Token::Dollar(location)
            | Token::Amp(location)
            | Token::Spread(location)
            | Token::Colon(location)
            | Token::Equals(location)
            | Token::At(location)
            | Token::Pipe(location)
            | Token::OpenParen(location)
            | Token::CloseParen(location)
            | Token::OpenSquare(location)
            | Token::CloseSquare(location)
            | Token::OpenBrace(location)
            | Token::CloseBrace(location)
            | Token::Name(location, _)
            | Token::Int(location, _)
            | Token::Float(location, _)
            | Token::Str(location, _)
            | Token::BlockStr(location, _)
            | Token::Comment(location, _) => *location,
        }
    }

    /// The token as it is written in diagnostics.
    pub fn to_string(&self) -> (r: String)
        ensures
            r@ == self@.render(),
    {
        let mut out = String::from_str("Token<");
        out.append(self.kind().name());
        match self {
            Token::Start | Token::End => {},
            Token::Int(location, value) => {
                out.append("(");
                location.push_text(&mut out);
                out.append(", ");
                push_signed_decimal(&mut out, *value);
                out.append(")");
            },
            Token::Float(location, value) => {
                out.append("(");
                location.push_text(&mut out);
                out.append(", ");
                out.append(value);
                out.append(")");
            },
            Token::Name(location, value)
            | Token::Str(location, value)
            | Token::BlockStr(location, value)
            | Token::Comment(location, value) => {
                out.append("(");
                location.push_text(&mut out);
                out.append(", \"");
                out.append(value);
                out.append("\")");
            },
            _ => {
                out.append("(");
                self.location().push_text(&mut out);
                out.append(")");
            },
        }
        out.append(">");
        proof {
            reveal_strlit(")>");
            reveal_strlit(")");
            reveal_strlit(">");
            reveal_strlit("\")>");
            reveal_strlit("\")");
        }
        assert(out@ =~= self@.render());
        out
    }
}

impl<'a> PartialEq for Token<'a> {
    /// Tokens are equal when their kinds are and, for literals, their
    /// values; locations are not compared.
    fn eq(&self, other: &Token<'a>) -> (r: bool) {
        match (self, other) {
            (Token::Name(_, a), Token::Name(_, b)) => str_eq(a, b),
            (Token::Float(_, a), Token::Float(_, b)) => str_eq(a, b),
            (Token::Str(_, a), Token::Str(_, b)) => str_eq(a, b),
            (Token::BlockStr(_, a), Token::BlockStr(_, b)) => str_eq(a, b),
            (Token::Int(_, a), Token::Int(_, b)) => *a == *b,
            _ => self.kind() == other.kind(),
        }
    }
}

impl<'a> PartialEqSpecImpl for Token<'a> {
    open spec fn obeys_eq_spec() -> bool {
        true
    }

    open spec fn eq_spec(&self, other: &Token<'a>) -> bool {
        self@.same_value(other@)
    }
}

impl<'a> Eq for Token<'a> {

}

} // verus!
