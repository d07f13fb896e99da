use syntax::error::LexError;
use syntax::lexer::{tokenize, Lexer};
use syntax::token::{Location, Token};

fn float_value(token: &Token) -> f64 {
    match token {
        Token::Float(_, numeral) => numeral.parse::<f64>().unwrap(),
        other => panic!("not a float: {:?}", other),
    }
}

fn located(input: &str) -> Vec<(String, Location)> {
    tokenize(input)
        .unwrap()
        .iter()
        .map(|token| (token.to_string(), token.location()))
        .collect()
}

#[test]
fn lex_empty() {
    let empty = tokenize("");
    assert!(empty.is_ok());
    assert_eq!(empty.unwrap(), vec![Token::Start, Token::End,]);
}

#[test]
fn lex_bang() {
    println!("Testing bang");
    let one = tokenize("!");
    assert!(one.is_ok());
    assert_eq!(
        one.unwrap(),
        vec![
            Token::Start,
            Token::Bang(Location::new(0, 1, 1)),
            Token::End,
        ]
    );
}

#[test]
fn lex_dollar() {
    println!("Testing dollar");
    let one = tokenize("$");
    assert!(one.is_ok());
    assert_eq!(
        one.unwrap(),
        vec![
            Token::Start,
            Token::Dollar(Location::new(0, 1, 1)),
            Token::End,
        ]
    );
}

#[test]
fn lex_ampersand() {
    println!("Testing ampersand");
    let one = tokenize("&");
    assert!(one.is_ok());
    assert_eq!(
        one.unwrap(),
        vec![Token::Start, Token::Amp(Location::new(0, 1, 1)), Token::End,]
    );
}

#[test]
fn lex_at_sign() {
    println!("Testing at sign");
    let one = tokenize("@");
    assert!(one.is_ok());
    assert_eq!(
        one.unwrap(),
        vec![Token::Start, Token::At(Location::new(0, 1, 1)), Token::End,]
    );
}

#[test]
fn lex_pipe() {
    println!("Testing pipe");
    let one = tokenize("|");
    assert!(one.is_ok());
    assert_eq!(
        one.unwrap(),
        vec![
            Token::Start,
            Token::Pipe(Location::new(0, 1, 1)),
            Token::End,
        ]
    );
}

#[test]
fn lex_colon() {
    println!("Testing colon");
    let one = tokenize(":");
    assert!(one.is_ok());
    assert_eq!(
        one.unwrap(),
        vec![
            Token::Start,
            Token::Colon(Location::new(0, 1, 1)),
            Token::End,
        ]
    );
}

#[test]
fn lex_equals() {
    println!("Testing colon");
    let one = tokenize("=");
    assert!(one.is_ok());
    assert_eq!(
        one.unwrap(),
        vec![
            Token::Start,
            Token::Equals(Location::new(0, 1, 1)),
            Token::End,
        ]
    );
}

#[test]
fn lex_open_brace() {
    println!("Testing open brace");
    let one = tokenize("{");
    assert!(one.is_ok());
    assert_eq!(
        one.unwrap(),
        vec![
            Token::Start,
            Token::OpenBrace(Location::new(0, 1, 1)),
            Token::End,
        ]
    );
}
#[test]
fn lex_close_brace() {
    println!("Testing close brace");
    let one = tokenize("}");
    assert!(one.is_ok());
    assert_eq!(
        one.unwrap(),
        vec![
            Token::Start,
            Token::CloseBrace(Location::new(0, 1, 1)),
            Token::End,
        ]
    );
}

#[test]
fn lex_open_paren() {
    println!("Testing open parenthesis");
    let one = tokenize("(");
    assert!(one.is_ok());
    assert_eq!(
        one.unwrap(),
        vec![
            Token::Start,
            Token::OpenParen(Location::new(0, 1, 1)),
            Token::End,
        ]
    );
}
#[test]
fn lex_close_paren() {
    println!("Testing close parenthasis");
    let one = tokenize(")");
    assert!(one.is_ok());
    assert_eq!(
        one.unwrap(),
        vec![
            Token::Start,
            Token::CloseParen(Location::new(0, 1, 1)),
            Token::End,
        ]
    );
}

#[test]
fn lex_open_square() {
    println!("Testing open square bracket");
    let one = tokenize("[");
    assert!(one.is_ok());
    assert_eq!(
        one.unwrap(),
        vec![
            Token::Start,
            Token::OpenSquare(Location::new(0, 1, 1)),
            Token::End,
        ]
    );
}
#[test]
fn lex_close_square() {
    println!("Testing close square bracket");
    let one = tokenize("]");
    assert!(one.is_ok());
    assert_eq!(
        one.unwrap(),
        vec![
            Token::Start,
            Token::CloseSquare(Location::new(0, 1, 1)),
            Token::End,
        ]
    );
}

#[test]
fn lex_spread() {
    println!("Testing spread");
    let one = tokenize("...");
    println!("Debug float: {:?}", one);
    assert!(one.is_ok());
    assert_eq!(
        one.unwrap(),
        vec![
            Token::Start,
            Token::Spread(Location::new(0, 1, 1)),
            Token::End,
        ]
    );
}

#[test]
fn lex_int() {
    println!("Testing int");
    let one = tokenize("123456");
    assert!(one.is_ok());
    assert_eq!(
        one.unwrap(),
        vec![
            Token::Start,
            Token::Int(Location::new(0, 1, 1), 123456i64),
            Token::End,
        ]
    );
    let one = tokenize("-9876");
    assert!(one.is_ok());
    assert_eq!(
        one.unwrap(),
        vec![
            Token::Start,
            Token::Int(Location::new(0, 1, 1), -9876i64),
            Token::End,
        ]
    );
}

#[test]
fn lex_float() {
    println!("Testing float");
    let one = tokenize("1.23456789");
    assert!(one.is_ok());
    assert_eq!(float_value(&one.as_ref().unwrap()[1]), 1.23456789f64);
    assert_eq!(
        one.unwrap(),
        vec![
            Token::Start,
            Token::Float(Location::new(0, 1, 1), "1.23456789"),
            Token::End,
        ]
    );
    let one = tokenize("-0.987654321");
    assert!(one.is_ok());
    assert_eq!(float_value(&one.as_ref().unwrap()[1]), -0.987654321f64);
    assert_eq!(
        one.unwrap(),
        vec![
            Token::Start,
            Token::Float(Location::new(0, 1, 1), "-0.987654321"),
            Token::End,
        ]
    );
}

#[test]
fn lex_strings() {
    println!("Testing strings");
    let text = tokenize(r#""text""#);
    assert!(text.is_ok());
    assert_eq!(
        text.unwrap(),
        vec![
            Token::Start,
            Token::Str(Location::new(0, 1, 1), "text"),
            Token::End,
        ]
    );
}

#[test]
fn lex_block_strings() {
    println!("Testing block strings");
    let text = tokenize(
        r#""""test

text""""#,
    );
    assert!(text.is_ok());
    assert_eq!(
        text.unwrap(),
        vec![
            Token::Start,
            Token::BlockStr(Location::new(0, 1, 1), "test\n\ntext"),
            Token::End,
        ]
    );
}

#[test]
fn lex_name() {
    println!("Testing names");
    let text = tokenize("name\nname_with_underscore");
    assert!(text.is_ok());
    assert_eq!(
        text.unwrap(),
        vec![
            Token::Start,
            Token::Name(Location::new(0, 1, 1), "name"),
            Token::Name(Location::new(5, 2, 1), "name_with_underscore"),
            Token::End,
        ]
    );
}

#[test]
fn lex_comment() {
    println!("Test comment");
    let comments = tokenize(
        r#"# this is a comment
# And so is this
"#,
    );
    assert!(comments.is_ok());
    assert_eq!(comments.unwrap(), vec![Token::Start, Token::End,])
}

#[test]
fn lex_query() {
    println!("Test query");
    let query = tokenize(
        r#"query {
  hero {
    name
  }
  droid(id: "2000") {
    name
  }
}"#,
    );
    assert!(query.is_ok());
    assert_eq!(
        query.unwrap(),
        vec![
            Token::Start,
            Token::Name(Location::new(0, 1, 1), "query"),
            Token::OpenBrace(Location::new(6, 1, 7)),
            Token::Name(Location::new(10, 2, 3), "hero"),
            Token::OpenBrace(Location::new(15, 2, 8)),
            Token::Name(Location::new(21, 3, 5), "name"),
            Token::CloseBrace(Location::new(28, 4, 3)),
            Token::Name(Location::new(32, 5, 3), "droid"),
            Token::OpenParen(Location::new(37, 5, 8)),
            Token::Name(Location::new(38, 5, 9), "id"),
            Token::Colon(Location::new(40, 5, 11)),
            Token::Str(Location::new(42, 5, 13), "2000"),
            Token::CloseParen(Location::new(48, 5, 19)),
            Token::OpenBrace(Location::new(50, 5, 21)),
            Token::Name(Location::new(56, 6, 5), "name"),
            Token::CloseBrace(Location::new(63, 7, 3)),
            Token::CloseBrace(Location::new(65, 8, 1)),
            Token::End,
        ]
    )
}

#[test]
fn lex_type() {
    let t = tokenize(
        r#"type Query {
  hero(episode: Episode): Character
  droid(id: ID!): Droid
}
"#,
    );
    println!("T in lex_type: {:?}", t);
    assert!(t.is_ok());
    assert_eq!(
        t.unwrap(),
        vec![
            Token::Start,
            Token::Name(Location::new(0, 1, 1), "type"),
            Token::Name(Location::new(5, 1, 6), "Query"),
            Token::OpenBrace(Location::new(11, 1, 12)),
            Token::Name(Location::new(15, 2, 3), "hero"),
            Token::OpenParen(Location::new(19, 2, 7)),
            Token::Name(Location::new(20, 2, 8), "episode"),
            Token::Colon(Location::new(27, 2, 15)),
            Token::Name(Location::new(29, 2, 17), "Episode"),
            Token::CloseParen(Location::new(36, 2, 24)),
            Token::Colon(Location::new(37, 2, 25)),
            Token::Name(Location::new(39, 2, 27), "Character"),
            Token::Name(Location::new(51, 3, 3), "droid"),
            Token::OpenParen(Location::new(56, 3, 8)),
            Token::Name(Location::new(57, 3, 9), "id"),
            Token::Colon(Location::new(59, 3, 11)),
            Token::Name(Location::new(61, 3, 13), "ID"),
            Token::Bang(Location::new(63, 3, 15)),
            Token::CloseParen(Location::new(64, 3, 16)),
            Token::Colon(Location::new(65, 3, 17)),
            Token::Name(Location::new(67, 3, 19), "Droid"),
            Token::CloseBrace(Location::new(73, 4, 1)),
            Token::End,
        ]
    )
}

#[test]
fn lex_fragment() {
    let fragment = tokenize(
        r#"query {
  hero {
    name
    ... on Human {
      height
    }
  }
}"#,
    );
    assert!(fragment.is_ok());
    assert_eq!(
        fragment.unwrap(),
        vec![
            Token::Start,
            Token::Name(Location::new(0, 1, 1), "query"),
            Token::OpenBrace(Location::new(6, 1, 7)),
            Token::Name(Location::new(10, 2, 3), "hero"),
            Token::OpenBrace(Location::new(15, 2, 8)),
            Token::Name(Location::new(21, 3, 5), "name"),
            Token::Spread(Location::new(30, 4, 5)),
            Token::Name(Location::new(34, 4, 9), "on"),
            Token::Name(Location::new(37, 4, 12), "Human"),
            Token::OpenBrace(Location::new(43, 4, 18)),
            Token::Name(Location::new(51, 5, 7), "height"),
            Token::CloseBrace(Location::new(62, 6, 5)),
            Token::CloseBrace(Location::new(66, 7, 3)),
            Token::CloseBrace(Location::new(68, 8, 1)),
            Token::End,
        ]
    );
}

#[test]
fn handles_unmatched_quote() {
    let err = tokenize("\"test");
    assert!(err.is_err());
    assert_eq!(
        err.unwrap_err(),
        LexError::UnmatchedQuote(Location::new(0, 1, 2))
    );
    let err = tokenize("\"\"\"test\n\n\"\"");
    assert!(err.is_err());
    assert_eq!(
        err.unwrap_err(),
        LexError::UnmatchedQuote(Location::new(0, 1, 2))
    );
    let err = tokenize("\"\"\"test\ntest\ntest\"");
    assert!(err.is_err());
    assert_eq!(
        err.unwrap_err(),
        LexError::UnmatchedQuote(Location::new(0, 1, 2))
    );
}

#[test]
fn handles_unknown_character() {
    let err = tokenize("%");
    assert!(err.is_err());
    assert_eq!(
        err.unwrap_err(),
        LexError::UnknownCharacter(Location::new(0, 1, 1))
    );
}

#[test]
fn ignores_commas() {
    let query = tokenize(
        "{
  one,
  two,
  three,,,
}",
    );
    assert!(query.is_ok());
    assert_eq!(
        query.unwrap(),
        vec![
            Token::Start,
            Token::OpenBrace(Location::new(0, 1, 1)),
            Token::Name(Location::new(4, 2, 3), "one"),
            Token::Name(Location::new(10, 3, 3), "two"),
            Token::Name(Location::new(17, 4, 3), "three"),
            Token::CloseBrace(Location::new(26, 5, 1)),
            Token::End,
        ]
    );
}

#[test]
fn handles_text_after_strings() {
    let strings = tokenize(
        r#"
"""
This is a generic object comment
They can be multiple lines
"""
type Obj {
  "This is the name of the object"
  name: String
}
"#,
    );
    println!("Strings: {:?}", strings);
    assert!(strings.is_ok());
    assert_eq!(
        strings.unwrap(),
        vec![
            Token::Start,
            Token::BlockStr(
                Location::new(1, 2, 1),
                r#"
This is a generic object comment
They can be multiple lines
"#
            ),
            Token::Name(Location::new(70, 6, 1), "type"),
            Token::Name(Location::new(75, 6, 6), "Obj"),
            Token::OpenBrace(Location::new(79, 6, 10)),
            Token::Str(Location::new(83, 7, 3), "This is the name of the object"),
            Token::Name(Location::new(108, 8, 3), "name"),
            Token::Colon(Location::new(112, 8, 7)),
            Token::Name(Location::new(114, 8, 9), "String"),
            Token::CloseBrace(Location::new(121, 9, 1)),
            Token::End,
        ]
    );
}

#[test]
fn handles_multiple_block_strings() {
    let strings = tokenize(
        r#"
"""
This is a multiline string
"""
name
"""Followed by a single line"""
id
"""
And a final multiline string
"""
"#,
    );
    assert!(strings.is_ok());
    assert_eq!(
        strings.unwrap(),
        vec![
            Token::Start,
            Token::BlockStr(Location::new(1, 2, 1), "\nThis is a multiline string\n"),
            Token::Name(Location::new(36, 5, 1), "name"),
            Token::BlockStr(Location::new(41, 6, 1), "Followed by a single line"),
            Token::Name(Location::new(73, 7, 1), "id"),
            Token::BlockStr(Location::new(76, 8, 1), "\nAnd a final multiline string\n"),
            Token::End,
        ]
    )
}

#[test]
fn lexer_yields_start_tokens_end_and_then_nothing() {
    let mut lexer = Lexer::new(
        r#"
schema Schema {
  query: Query,
  mutation: Mutation
}
"#,
    );
    assert_eq!(lexer.next(), Some(Ok(Token::Start)));
    let expected = vec![
        Token::Name(Location::new(1, 2, 1), "schema"),
        Token::Name(Location::new(8, 2, 8), "Schema"),
        Token::OpenBrace(Location::new(15, 2, 15)),
        Token::Name(Location::new(19, 3, 3), "query"),
        Token::Colon(Location::new(24, 3, 8)),
        Token::Name(Location::new(26, 3, 10), "Query"),
        Token::Name(Location::new(35, 4, 3), "mutation"),
        Token::Colon(Location::new(43, 4, 11)),
        Token::Name(Location::new(45, 4, 13), "Mutation"),
        Token::CloseBrace(Location::new(54, 5, 1)),
    ];
    for token in expected {
        let next = lexer.next().unwrap().unwrap();
        assert_eq!(next, token);
        assert_eq!(next.location(), token.location());
    }
    assert_eq!(lexer.next(), Some(Ok(Token::End)));
    assert_eq!(lexer.next(), None);
    assert_eq!(lexer.next(), None);
}

#[test]
fn lexer_ends_on_the_first_error() {
    let mut lexer = Lexer::new(r#""unmatched"#);
    assert_eq!(lexer.next(), Some(Ok(Token::Start)));
    assert_eq!(
        lexer.next(),
        Some(Err(LexError::UnmatchedQuote(Location {
            absolute_position: 0,
            line: 1,
            column: 2,
        })))
    );
    assert_eq!(lexer.next(), None);
}

#[test]
fn every_punctuation_mark_round_trips() {
    let marks = [
        ('!', Token::Bang(Location::new(0, 1, 1))),
        ('$', Token::Dollar(Location::new(0, 1, 1))),
        ('&', Token::Amp(Location::new(0, 1, 1))),
        ('|', Token::Pipe(Location::new(0, 1, 1))),
        ('@', Token::At(Location::new(0, 1, 1))),
        (':', Token::Colon(Location::new(0, 1, 1))),
        ('=', Token::Equals(Location::new(0, 1, 1))),
        ('{', Token::OpenBrace(Location::new(0, 1, 1))),
        ('}', Token::CloseBrace(Location::new(0, 1, 1))),
        ('(', Token::OpenParen(Location::new(0, 1, 1))),
        (')', Token::CloseParen(Location::new(0, 1, 1))),
        ('[', Token::OpenSquare(Location::new(0, 1, 1))),
        (']', Token::CloseSquare(Location::new(0, 1, 1))),
    ];
    for (mark, token) in marks {
        let text = mark.to_string();
        let tokens = tokenize(&text).unwrap();
        assert_eq!(tokens, vec![Token::Start, token, Token::End]);
        assert_eq!(tokens[1].location(), Location::new(0, 1, 1));
    }
}

#[test]
fn lines_and_columns_are_counted_by_hand() {
    let tokens = tokenize("type Query {\n  hero(episode: Episode): Character\n...}\n").unwrap();
    let hero = tokens[4];
    assert_eq!(hero, Token::Name(Location::ignored(), "hero"));
    assert_eq!(hero.location(), Location::new(15, 2, 3));
    let locations: Vec<Location> = tokens.iter().map(|token| token.location()).collect();
    assert_eq!(
        locations,
        vec![
            Location::ignored(),
            Location::new(0, 1, 1),
            Location::new(5, 1, 6),
            Location::new(11, 1, 12),
            Location::new(15, 2, 3),
            Location::new(19, 2, 7),
            Location::new(20, 2, 8),
            Location::new(27, 2, 15),
            Location::new(29, 2, 17),
            Location::new(36, 2, 24),
            Location::new(37, 2, 25),
            Location::new(39, 2, 27),
            Location::new(49, 3, 1),
            Location::new(52, 3, 4),
            Location::ignored(),
        ]
    );
}

#[test]
fn locations_follow_strings_comments_and_wide_characters() {
    let input = "\"\"\"a\nb\"\"\" x # c\u{e9}\n\t\"\u{e9}\u{e9}\" y,z\n1.5 -2";
    assert_eq!(
        located(input),
        vec![
            (String::from("Token<Start>"), Location::ignored()),
            (
                String::from("Token<BlockStr(Location { absolute_position: 0, line: 1, column: 1 }, \"a\nb\")>"),
                Location::new(0, 1, 1)
            ),
            (
                String::from("Token<Name(Location { absolute_position: 10, line: 2, column: 6 }, \"x\")>"),
                Location::new(10, 2, 6)
            ),
            (
                String::from("Token<Str(Location { absolute_position: 18, line: 3, column: 2 }, \"\u{e9}\u{e9}\")>"),
                Location::new(18, 3, 2)
            ),
            (
                String::from("Token<Name(Location { absolute_position: 23, line: 3, column: 7 }, \"y\")>"),
                Location::new(23, 3, 7)
            ),
            (
                String::from("Token<Name(Location { absolute_position: 25, line: 3, column: 9 }, \"z\")>"),
                Location::new(25, 3, 9)
            ),
            (
                String::from("Token<Float(Location { absolute_position: 27, line: 4, column: 1 }, 1.5)>"),
                Location::new(27, 4, 1)
            ),
            (
                String::from("Token<Int(Location { absolute_position: 31, line: 4, column: 5 }, -2)>"),
                Location::new(31, 4, 5)
            ),
            (String::from("Token<End>"), Location::ignored()),
        ]
    );
}

#[test]
fn blank_text_has_no_tokens() {
    assert_eq!(tokenize("   \n  ").unwrap(), vec![Token::Start, Token::End]);
    assert_eq!(tokenize(" ,\t,\n# only a comment").unwrap(), vec![Token::Start, Token::End]);
}

#[test]
fn spread_needs_three_dots() {
    assert_eq!(
        tokenize("a ..").unwrap_err(),
        LexError::UnexpectedCharacter(Location::new(2, 1, 3))
    );
    assert_eq!(
        tokenize(".").unwrap_err(),
        LexError::UnexpectedCharacter(Location::new(0, 1, 1))
    );
    assert_eq!(
        tokenize(".a.").unwrap_err(),
        LexError::UnexpectedCharacter(Location::new(0, 1, 1))
    );
    assert_eq!(
        tokenize("....").unwrap_err(),
        LexError::UnexpectedCharacter(Location::new(3, 1, 4))
    );
    let tokens = tokenize("\n ...b").unwrap();
    assert_eq!(tokens[1].location(), Location::new(2, 2, 2));
    assert_eq!(tokens[2].location(), Location::new(5, 2, 5));
}

#[test]
fn numbers_are_ints_or_floats() {
    assert_eq!(
        tokenize("0 -0 007 9223372036854775807 -9223372036854775808").unwrap(),
        vec![
            Token::Start,
            Token::Int(Location::ignored(), 0),
            Token::Int(Location::ignored(), 0),
            Token::Int(Location::ignored(), 7),
            Token::Int(Location::ignored(), i64::MAX),
            Token::Int(Location::ignored(), i64::MIN),
            Token::End,
        ]
    );
    assert_eq!(
        tokenize("12.50 -3.0 4").unwrap(),
        vec![
            Token::Start,
            Token::Float(Location::ignored(), "12.50"),
            Token::Float(Location::ignored(), "-3.0"),
            Token::Int(Location::ignored(), 4),
            Token::End,
        ]
    );
    assert_eq!(
        tokenize("a 9223372036854775808").unwrap_err(),
        LexError::UnableToConvert(Location::new(2, 1, 3), "Int")
    );
    assert_eq!(
        tokenize("-9223372036854775809").unwrap_err(),
        LexError::UnableToConvert(Location::new(0, 1, 1), "Int")
    );
    assert_eq!(
        tokenize("123456789012345678901234567890").unwrap_err(),
        LexError::UnableToConvert(Location::new(0, 1, 1), "Int")
    );
    assert_eq!(
        tokenize("\n -x").unwrap_err(),
        LexError::UnableToConvert(Location::new(2, 2, 2), "Int or Float")
    );
    assert_eq!(
        tokenize("1.").unwrap_err(),
        LexError::UnexpectedCharacter(Location::new(1, 1, 2))
    );
    assert_eq!(
        tokenize("1.5.2").unwrap_err(),
        LexError::UnexpectedCharacter(Location::new(3, 1, 4))
    );
}

#[test]
fn names_are_ascii_letters_digits_and_underscores() {
    assert_eq!(
        tokenize("a1_b2 C__ x9").unwrap(),
        vec![
            Token::Start,
            Token::Name(Location::ignored(), "a1_b2"),
            Token::Name(Location::ignored(), "C__"),
            Token::Name(Location::ignored(), "x9"),
            Token::End,
        ]
    );
    assert_eq!(
        tokenize("_a").unwrap_err(),
        LexError::UnknownCharacter(Location::new(0, 1, 1))
    );
    assert_eq!(
        tokenize("na\u{ef}ve").unwrap_err(),
        LexError::UnknownCharacter(Location::new(2, 1, 3))
    );
    assert_eq!(
        tokenize("a\r\nb").unwrap_err(),
        LexError::UnknownCharacter(Location::new(1, 1, 2))
    );
}

#[test]
fn strings_keep_their_escapes() {
    assert_eq!(
        tokenize(r#""a \"quoted\" \\ word" """ block \"""" " ""#).unwrap(),
        vec![
            Token::Start,
            Token::Str(Location::ignored(), r#"a \"quoted\" \\ word"#),
            Token::BlockStr(Location::ignored(), r#" block \""#),
            Token::Str(Location::ignored(), " "),
            Token::End,
        ]
    );
    assert_eq!(
        tokenize("\"\" \"two\nlines\"").unwrap(),
        vec![
            Token::Start,
            Token::Str(Location::ignored(), ""),
            Token::Str(Location::ignored(), "two\nlines"),
            Token::End,
        ]
    );
    assert_eq!(
        tokenize("x\n \"a\\\nb\"").unwrap_err(),
        LexError::UnmatchedQuote(Location::new(3, 2, 3))
    );
    assert_eq!(
        tokenize("\"\"\"a \" b\"\"\"").unwrap_err(),
        LexError::UnmatchedQuote(Location::new(0, 1, 2))
    );
    assert_eq!(
        tokenize("\"\"\"\"").unwrap_err(),
        LexError::UnmatchedQuote(Location::new(0, 1, 2))
    );
    assert_eq!(
        tokenize("\"abc\\").unwrap_err(),
        LexError::UnmatchedQuote(Location::new(0, 1, 2))
    );
}

#[test]
fn a_lexer_is_rendered_with_its_position() {
    let mut lexer = Lexer::new("a\n  bc d");
    assert_eq!(lexer.to_string(), "Lexer<position: 0, line: 1, col: 1>");
    lexer.next();
    assert_eq!(lexer.to_string(), "Lexer<position: 0, line: 1, col: 1>");
    lexer.next();
    assert_eq!(lexer.to_string(), "Lexer<position: 1, line: 1, col: 2>");
    lexer.next();
    assert_eq!(lexer.to_string(), "Lexer<position: 6, line: 2, col: 5>");
    assert_eq!(lexer.get_current_location(), Location::new(6, 2, 5));
    lexer.advance();
    assert_eq!(lexer.get_current_location(), Location::new(7, 2, 6));
    lexer.advance_n(1);
    assert_eq!(lexer.get_current_location(), Location::new(8, 2, 7));
    let mut lexer = Lexer::new("a\n\nb");
    lexer.advance_to(3);
    assert_eq!(lexer.get_current_location(), Location::new(3, 3, 1));
    assert_eq!(lexer.next(), Some(Ok(Token::Start)));
    assert_eq!(lexer.next(), Some(Ok(Token::Name(Location::ignored(), "b"))));
}

#[test]
fn numbers_have_no_exponent_and_no_plus() {
    assert_eq!(
        tokenize("1e5").unwrap(),
        vec![
            Token::Start,
            Token::Int(Location::ignored(), 1),
            Token::Name(Location::ignored(), "e5"),
            Token::End,
        ]
    );
    assert_eq!(
        tokenize("+1").unwrap_err(),
        LexError::UnknownCharacter(Location::new(0, 1, 1))
    );
    assert_eq!(
        tokenize("1.5e3").unwrap(),
        vec![
            Token::Start,
            Token::Float(Location::ignored(), "1.5"),
            Token::Name(Location::ignored(), "e3"),
            Token::End,
        ]
    );
}
