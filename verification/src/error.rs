//! The errors of the lexer, the parser and the validator, and the messages
//! they are rendered to.

use crate::text::{decimal, push_decimal};
use crate::token::Location;
use vstd::prelude::*;

verus! {

/// The text ended too early.
pub const EOF_MESSAGE: &'static str = "Parse Error: Encountered End of File unexpectedly";

/// A quote has no partner.
pub const UNMATCHED_QUOTE_MESSAGE: &'static str = "Parse Error: Unmatched quote found on";

/// A character starts no token.
pub const UNKNOWN_CHARACTER_MESSAGE: &'static str = "Parse Error: Unknown character found on";

/// A character is out of place.
pub const UNEXPECTED_CHARACTER_MESSAGE: &'static str = "Parse Error: Unexpected character found on";

/// A numeral does not fit its type.
pub const UNABLE_TO_CONVERT_MESSAGE: &'static str = "Parse Error: Unable to convert value at";

/// A construct is not handled.
pub const NOT_IMPLEMENTED_MESSAGE: &'static str =
    "Parse Error: One or more operations/types specified is not implemented";

/// A value cannot be placed.
pub const BAD_VALUE_MESSAGE: &'static str =
    "Parse Error: Bad value received. Please check input and try again.";

/// The document is empty.
pub const DOCUMENT_EMPTY_MESSAGE: &'static str =
    "Parse Error: Document is empty. Cannot parse an empty value";

/// A list of arguments is empty.
pub const ARGUMENT_EMPTY_MESSAGE: &'static str = "Parse Error: Argument empty on";

/// A type has no fields.
pub const OBJECT_EMPTY_MESSAGE: &'static str = "Parse Error: Object empty on";

/// A token is of the wrong kind.
pub const EXPECTED_TOKEN_MESSAGE: &'static str = "Parse Error: Unexpected token on";

/// A name is not the keyword asked for.
pub const EXPECTED_KEYWORD_MESSAGE: &'static str = "Parse Error: Unexpected keyword on";

/// `<message> line <line>, column <column>`
pub open spec fn location_message(message: Seq<char>, location: Location) -> Seq<char> {
    message + " line "@ + decimal(location.line as nat) + ", column "@ + decimal(
        location.column as nat,
    )
}

/// `<message> line <line>, column <column>: Expected one of <expected>`
pub open spec fn expected_value_message(
    message: Seq<char>,
    location: Location,
    expected: Seq<char>,
) -> Seq<char> {
    location_message(message, location) + ": Expected one of "@ + expected
}

/// `<message> line <line>, column <column>: Expected "<expected>", but found "<received>"`
pub open spec fn expected_received_message(
    message: Seq<char>,
    location: Location,
    expected: Seq<char>,
    received: Seq<char>,
) -> Seq<char> {
    location_message(message, location) + ": Expected \""@ + expected + "\", but found \""@
        + received + "\""@
}

/// Renders [`location_message`].
pub fn format_location_message(message: &str, location: &Location) -> (r: String)
    ensures
        r@ == location_message(message@, *location),
{
    let mut out = String::from_str(message);
    out.append(" line ");
    push_decimal(&mut out, location.line as u64);
    out.append(", column ");
    push_decimal(&mut out, location.column as u64);
    out
}

/// Renders [`expected_value_message`].
pub fn format_expected_value_message(message: &str, location: &Location, expected: &str) -> (r:
    String)
    ensures
        r@ == expected_value_message(message@, *location, expected@),
{
    let mut out = format_location_message(message, location);
    out.append(": Expected one of ");
    out.append(expected);
    out
}

/// Renders [`expected_received_message`].
pub fn format_expected_received_message(
    message: &str,
    location: &Location,
    expected: &str,
    received: &str,
) -> (r: String)
    ensures
        r@ == expected_received_message(message@, *location, expected@, received@),
{
    let mut out = format_location_message(message, location);
    out.append(": Expected \"");
    out.append(expected);
    out.append("\", but found \"");
    out.append(received);
    out.append("\"");
    out
}

/// A failure of the lexer.
#[derive(Debug, Copy, Clone, PartialEq)]
pub enum LexError {
    /// A `"` without its partner.
    UnmatchedQuote(Location),
    /// A character that starts no token.
    UnknownCharacter(Location),
    /// A character that starts a token but is not followed as it must be.
    UnexpectedCharacter(Location),
    /// A numeral that the named type cannot hold.
    UnableToConvert(Location, &'static str),
    /// The text ended where more was needed.
    EOF,
}

/// A [`LexError`] as a mathematical value.
pub enum LexErrorView {
    UnmatchedQuote(Location),
    UnknownCharacter(Location),
    UnexpectedCharacter(Location),
    UnableToConvert(Location, Seq<char>),
    EOF,
}

impl LexErrorView {
    /// The message that the error is rendered to.
    pub open spec fn message(self) -> Seq<char> {
        match self {
            LexErrorView::EOF => EOF_MESSAGE@,
            LexErrorView::UnmatchedQuote(location) => location_message(
                UNMATCHED_QUOTE_MESSAGE@,
                location,
            ),
            LexErrorView::UnknownCharacter(location) => location_message(
                UNKNOWN_CHARACTER_MESSAGE@,
                location,
            ),
            LexErrorView::UnexpectedCharacter(location) => location_message(
                UNEXPECTED_CHARACTER_MESSAGE@,
                location,
            ),
            LexErrorView::UnableToConvert(location, expected) => expected_value_message(
                UNABLE_TO_CONVERT_MESSAGE@,
                location,
                expected,
            ),
        }
    }
}

impl DeepView for LexError {
    type V = LexErrorView;

    open spec fn deep_view(&self) -> LexErrorView {
        match self {
            LexError::UnmatchedQuote(l) => LexErrorView::UnmatchedQuote(*l),
            LexError::UnknownCharacter(l) => LexErrorView::UnknownCharacter(*l),
            LexError::UnexpectedCharacter(l) => LexErrorView::UnexpectedCharacter(*l),
            LexError::UnableToConvert(l, s) => LexErrorView::UnableToConvert(*l, s@),
            LexError::EOF => LexErrorView::EOF,
        }
    }
}

impl LexError {
    /// The message of the error, with the line and column where it has them.
    pub fn get_message(&self) -> (r: String)
        ensures
            r@ == self.deep_view().message(),
    {
        match self {
            LexError::EOF => String::from_str(EOF_MESSAGE),
            LexError::UnmatchedQuote(location) => format_location_message(
                UNMATCHED_QUOTE_MESSAGE,
                location,
            ),
            LexError::UnknownCharacter(location) => format_location_message(
                UNKNOWN_CHARACTER_MESSAGE,
                location,
            ),
            LexError::UnexpectedCharacter(location) => format_location_message(
                UNEXPECTED_CHARACTER_MESSAGE,
                location,
            ),
            LexError::UnableToConvert(location, expected) => format_expected_value_message(
                UNABLE_TO_CONVERT_MESSAGE,
                location,
                expected,
            ),
        }
    }

    /// The same text as [`LexError::get_message`].
    pub fn to_string(&self) -> (r: String)
        ensures
            r@ == self.deep_view().message(),
    {
        self.get_message()
    }
}

/// A failure of the parser.
#[derive(Debug, PartialEq)]
pub enum ParseError {
    /// The parser met a value that it cannot place.
    BadValue,
    /// The text holds no definition.
    DocumentEmpty,
    /// An argument list was opened and closed at once.
    ArgumentEmpty(Location),
    /// A type was defined without a field.
    ObjectEmpty(Location),
    /// The tokens ended where more were needed.
    EOF,
    /// The lexer failed on the next token.
    LexError(LexError),
    /// The next token is not of the kind that the grammar asks for.
    UnexpectedToken {
        /// What was asked for.
        expected: String,
        /// What was found.
        received: String,
        /// Where it was found.
        location: Location,
    },
    /// The next name is not the keyword that the grammar asks for.
    UnexpectedKeyword {
        /// The keyword that was asked for.
        expected: String,
        /// The name that was found.
        received: String,
        /// Where it was found.
        location: Location,
    },
    /// The construct is known but not handled.
    NotImplemented,
}

/// A [`ParseError`] as a mathematical value.
pub enum ParseErrorView {
    BadValue,
    DocumentEmpty,
    ArgumentEmpty(Location),
    ObjectEmpty(Location),
    EOF,
    LexError(LexErrorView),
    UnexpectedToken { expected: Seq<char>, received: Seq<char>, location: Location },
    UnexpectedKeyword { expected: Seq<char>, received: Seq<char>, location: Location },
    NotImplemented,
}

impl ParseErrorView {
    /// The message that the error is rendered to.
    pub open spec fn message(self) -> Seq<char> {
        match self {
            ParseErrorView::NotImplemented => NOT_IMPLEMENTED_MESSAGE@,
            ParseErrorView::BadValue => BAD_VALUE_MESSAGE@,
            ParseErrorView::DocumentEmpty => DOCUMENT_EMPTY_MESSAGE@,
            ParseErrorView::ArgumentEmpty(location) => location_message(
                ARGUMENT_EMPTY_MESSAGE@,
                location,
            ),
            ParseErrorView::ObjectEmpty(location) => location_message(
                OBJECT_EMPTY_MESSAGE@,
                location,
            ),
            ParseErrorView::EOF => EOF_MESSAGE@,
            ParseErrorView::LexError(e) => e.message(),
            ParseErrorView::UnexpectedToken { expected, received, location } =>
                expected_received_message(EXPECTED_TOKEN_MESSAGE@, location, expected, received),
            ParseErrorView::UnexpectedKeyword { expected, received, location } =>
                expected_received_message(EXPECTED_KEYWORD_MESSAGE@, location, expected, received),
        }
    }
}

impl DeepView for ParseError {
    type V = ParseErrorView;

    open spec fn deep_view(&self) -> ParseErrorView {
        match self {
            ParseError::BadValue => ParseErrorView::BadValue,
            ParseError::DocumentEmpty => ParseErrorView::DocumentEmpty,
            ParseError::ArgumentEmpty(l) => ParseErrorView::ArgumentEmpty(*l),
            ParseError::ObjectEmpty(l) => ParseErrorView::ObjectEmpty(*l),
            ParseError::EOF => ParseErrorView::EOF,
            ParseError::LexError(e) => ParseErrorView::LexError(e.deep_view()),
            ParseError::UnexpectedToken { expected, received, location } =>
                ParseErrorView::UnexpectedToken {
                    expected: expected@,
                    received: received@,
                    location: *location,
                },
            ParseError::UnexpectedKeyword { expected, received, location } =>
                ParseErrorView::UnexpectedKeyword {
                    expected: expected@,
                    received: received@,
                    location: *location,
                },
            ParseError::NotImplemented => ParseErrorView::NotImplemented,
        }
    }
}

impl ParseError {
    /// The message of the error, with the line and column where it has them.
    pub fn get_message(&self) -> (r: String)
        ensures
            r@ == self.deep_view().message(),
    {
        match self {
            ParseError::NotImplemented => String::from_str(NOT_IMPLEMENTED_MESSAGE),
            ParseError::BadValue => String::from_str(BAD_VALUE_MESSAGE),
            ParseError::DocumentEmpty => String::from_str(DOCUMENT_EMPTY_MESSAGE),
            ParseError::ArgumentEmpty(location) => format_location_message(
                ARGUMENT_EMPTY_MESSAGE,
                location,
            ),
            ParseError::ObjectEmpty(location) => format_location_message(
                OBJECT_EMPTY_MESSAGE,
                location,
            ),
            ParseError::EOF => String::from_str(EOF_MESSAGE),
            ParseError::LexError(lex_error) => lex_error.to_string(),
            ParseError::UnexpectedToken { expected, received, location } =>
                format_expected_received_message(
                    EXPECTED_TOKEN_MESSAGE,
                    location,
                    expected.as_str(),
                    received.as_str(),
                ),
            ParseError::UnexpectedKeyword { expected, received, location } =>
                format_expected_received_message(
                    EXPECTED_KEYWORD_MESSAGE,
                    location,
                    expected.as_str(),
                    received.as_str(),
                ),
        }
    }

    /// The same text as [`ParseError::get_message`].
    pub fn to_string(&self) -> (r: String)
        ensures
            r@ == self.deep_view().message(),
    {
        self.get_message()
    }
}

/// What the parser returns.
pub type ParseResult<T> = Result<T, ParseError>;

/// The view of a parser result: the view of the value, or of the error.
pub open spec fn result_view<T: DeepView>(r: ParseResult<T>) -> Result<T::V, ParseErrorView> {
    match r {
        Ok(v) => Ok(v.deep_view()),
        Err(e) => Err(e.deep_view()),
    }
}

/// A semantic fault found in a document that parsed.
#[derive(Debug)]
pub struct ValidationError {
    /// What is wrong.
    pub message: String,
}

impl ValidationError {
    /// An error with the given message.
    pub fn new(message: &str) -> (r: ValidationError)
        ensures
            r.message@ == message@,
    {
        ValidationError { message: String::from_str(message) }
    }
}

} // verus!
