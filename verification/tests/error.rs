use syntax::error::{
    LexError, ParseError, ValidationError, ARGUMENT_EMPTY_MESSAGE, BAD_VALUE_MESSAGE,
    DOCUMENT_EMPTY_MESSAGE, EOF_MESSAGE, EXPECTED_KEYWORD_MESSAGE, EXPECTED_TOKEN_MESSAGE,
    NOT_IMPLEMENTED_MESSAGE, OBJECT_EMPTY_MESSAGE,
};
use syntax::error::{
    format_expected_received_message, format_expected_value_message, format_location_message,
};
use syntax::token::{Location, Token};

#[test]
fn creates_message_for_not_implemented() {
    let error = ParseError::NotImplemented;
    assert_eq!(error.to_string(), NOT_IMPLEMENTED_MESSAGE);
}

#[test]
fn creates_message_for_a_bad_value() {
    let error = ParseError::BadValue;
    assert_eq!(error.to_string(), BAD_VALUE_MESSAGE);
}

#[test]
fn creates_message_for_an_empty_document() {
    let error = ParseError::DocumentEmpty;
    assert_eq!(error.to_string(), DOCUMENT_EMPTY_MESSAGE);
}

#[test]
fn creates_message_for_an_empty_argument() {
    let error = ParseError::ArgumentEmpty(Location::new(42, 4, 2));
    assert_eq!(
        error.to_string(),
        format!("{} line {}, column {}", ARGUMENT_EMPTY_MESSAGE, 4, 2)
    );
}

#[test]
fn creates_message_for_an_empty_object() {
    let error = ParseError::ObjectEmpty(Location::new(42, 4, 2));
    assert_eq!(
        error.to_string(),
        format!("{} line {}, column {}", OBJECT_EMPTY_MESSAGE, 4, 2)
    );
}

#[test]
fn creates_message_for_end_of_file() {
    let error = ParseError::EOF;
    assert_eq!(error.to_string(), EOF_MESSAGE);
}

#[test]
fn creates_lex_error_message() {
    let lex_error = LexError::UnableToConvert(Location::new(42, 4, 2), "Light Side or Dark Side");
    let error = ParseError::LexError(lex_error);
    assert_eq!(error.to_string(), lex_error.to_string());
}

#[test]
fn creates_unexpected_token_message() {
    let location = Location::new(42, 4, 2);
    let expected = Token::Name(Location::new(42, 4, 2), "val");
    let received = Token::Str(location, "Content of value");
    let error = ParseError::UnexpectedToken {
        expected: expected.to_string(),
        received: received.to_string(),
        location: received.location(),
    };
    assert_eq!(
        error.to_string(),
        format!(
            "{} line {}, column {}: Expected \"{}\", but found \"{}\"",
            EXPECTED_TOKEN_MESSAGE,
            location.line,
            location.column,
            expected.to_string(),
            received.to_string()
        )
    );
}

#[test]
fn creates_unexpected_keyword_message() {
    let location = Location::new(42, 4, 2);
    let received = Token::Name(location, "extends");
    let error = ParseError::UnexpectedKeyword {
        expected: String::from("implements"),
        received: String::from("extends"),
        location: received.location(),
    };
    assert_eq!(
        error.to_string(),
        format!(
            "{} line {}, column {}: Expected \"{}\", but found \"{}\"",
            EXPECTED_KEYWORD_MESSAGE, location.line, location.column, "implements", "extends"
        )
    );
}

#[test]
fn lex_error_messages_are_exact() {
    assert_eq!(
        LexError::EOF.to_string(),
        "Parse Error: Encountered End of File unexpectedly"
    );
    assert_eq!(
        LexError::UnmatchedQuote(Location::new(0, 1, 2)).to_string(),
        "Parse Error: Unmatched quote found on line 1, column 2"
    );
    assert_eq!(
        LexError::UnknownCharacter(Location::new(230, 12, 107)).to_string(),
        "Parse Error: Unknown character found on line 12, column 107"
    );
    assert_eq!(
        LexError::UnexpectedCharacter(Location::new(3, 1, 4)).get_message(),
        "Parse Error: Unexpected character found on line 1, column 4"
    );
    assert_eq!(
        LexError::UnableToConvert(Location::new(9, 10, 1000), "Int").get_message(),
        "Parse Error: Unable to convert value at line 10, column 1000: Expected one of Int"
    );
}

#[test]
fn parse_error_messages_are_exact() {
    assert_eq!(
        ParseError::ArgumentEmpty(Location::new(9, 3, 20)).get_message(),
        "Parse Error: Argument empty on line 3, column 20"
    );
    assert_eq!(
        ParseError::ObjectEmpty(Location::new(5, 1, 6)).get_message(),
        "Parse Error: Object empty on line 1, column 6"
    );
    assert_eq!(
        ParseError::UnexpectedToken {
            expected: String::from("a"),
            received: String::from("b"),
            location: Location::new(0, 7, 9),
        }
        .get_message(),
        "Parse Error: Unexpected token on line 7, column 9: Expected \"a\", but found \"b\""
    );
    assert_eq!(
        ParseError::UnexpectedKeyword {
            expected: String::from("implements"),
            received: String::from("extends"),
            location: Location::new(0, 0, 0),
        }
        .get_message(),
        "Parse Error: Unexpected keyword on line 0, column 0: Expected \"implements\", but found \"extends\""
    );
    assert_eq!(
        ParseError::LexError(LexError::UnknownCharacter(Location::new(0, 1, 1))).get_message(),
        "Parse Error: Unknown character found on line 1, column 1"
    );
}

#[test]
fn messages_are_formatted_from_their_parts() {
    let location = Location::new(0, 18446744073709551615, 10);
    assert_eq!(
        format_location_message("Here:", &location),
        "Here: line 18446744073709551615, column 10"
    );
    assert_eq!(
        format_expected_value_message("Here:", &Location::new(0, 1, 2), "Int or Float"),
        "Here: line 1, column 2: Expected one of Int or Float"
    );
    assert_eq!(
        format_expected_received_message("Here:", &Location::new(0, 1, 2), "x", "y"),
        "Here: line 1, column 2: Expected \"x\", but found \"y\""
    );
}

#[test]
fn validation_errors_keep_their_message() {
    let error = ValidationError::new("Invalid Extension: No root element");
    assert_eq!(error.message, "Invalid Extension: No root element");
}
