use syntax::token::{Location, Token, TokenKind};

#[test]
fn compare_type() {
    assert_eq!(Token::Start, Token::Start);
    assert_ne!(Token::End, Token::Start);

    assert_eq!(
        Token::Bang(Location::new(0, 0, 0)),
        Token::Bang(Location::new(12, 2, 3))
    );
    assert_ne!(
        Token::Amp(Location::new(0, 0, 0)),
        Token::Float(Location::new(0, 0, 0), "0.0")
    );
    assert_ne!(
        Token::Dollar(Location::new(0, 0, 0)),
        Token::OpenBrace(Location::new(0, 1, 1))
    );
    assert_ne!(
        Token::Int(Location::new(0, 0, 0), 0),
        Token::Float(Location::new(0, 0, 0), "0.0")
    );
}

#[test]
fn compare_value() {
    assert_eq!(
        Token::Int(Location::new(0, 0, 0), 10),
        Token::Int(Location::new(12, 3, 14), 10)
    );
    assert_eq!(
        Token::Float(Location::new(0, 0, 0), "3.14"),
        Token::Float(Location::new(3, 1, 4), "3.14")
    );
    assert_eq!(
        Token::Name(Location::new(0, 0, 0), "id"),
        Token::Name(Location::new(3, 3, 3), "id")
    );
    assert_eq!(
        Token::Str(Location::new(0, 0, 0), "Comment"),
        Token::Str(Location::new(1, 2, 1), "Comment")
    );
    assert_eq!(
        Token::BlockStr(Location::new(0, 0, 0), "Comment"),
        Token::BlockStr(Location::new(1, 2, 1), "Comment")
    );

    assert_ne!(
        Token::Int(Location::new(0, 0, 0), 10),
        Token::Int(Location::new(12, 3, 14), 11)
    );
    assert_ne!(
        Token::Float(Location::new(0, 0, 0), "3.14"),
        Token::Float(Location::new(3, 1, 4), "3.14159")
    );
    assert_ne!(
        Token::Name(Location::new(0, 0, 0), "id"),
        Token::Name(Location::new(3, 3, 3), "val")
    );
    assert_ne!(
        Token::Str(Location::new(0, 0, 0), "Comment"),
        Token::Str(Location::new(1, 2, 1), "Your comment here")
    );
    assert_ne!(
        Token::BlockStr(Location::new(0, 0, 0), "Comment"),
        Token::BlockStr(Location::new(1, 2, 1), "Your comment here")
    );
}

#[test]
fn get_location() {
    let loc = Location::new(42, 3, 4);
    assert_eq!(Token::Start.location(), Location::ignored());
    assert_eq!(Token::End.location(), Location::ignored());
    assert_eq!(Token::Bang(loc).location(), loc);
    assert_eq!(Token::Str(loc, "Some str value").location(), loc);
}

#[test]
fn locations_are_made_of_their_parts() {
    let loc = Location::new(42, 4, 2);
    assert_eq!(loc.absolute_position, 42);
    assert_eq!(loc.line, 4);
    assert_eq!(loc.column, 2);
    assert_eq!(
        Location::ignored(),
        Location {
            absolute_position: 0,
            line: 0,
            column: 0
        }
    );
}

#[test]
fn tokens_of_one_kind_have_the_same_type() {
    assert!(Token::Start.is_same_type(&Token::Start));
    assert!(!Token::Start.is_same_type(&Token::End));
    assert!(Token::Name(Location::new(0, 1, 1), "a").is_same_type(&Token::Name(Location::ignored(), "")));
    assert!(!Token::Str(Location::new(0, 1, 1), "a").is_same_type(&Token::BlockStr(Location::new(0, 1, 1), "a")));
    assert_eq!(Token::Pipe(Location::ignored()).kind(), TokenKind::Pipe);
    assert_eq!(Token::Comment(Location::ignored(), "c").kind(), TokenKind::Comment);
}

#[test]
fn strings_of_equal_length_are_told_apart() {
    assert_ne!(
        Token::Name(Location::ignored(), "abc"),
        Token::Name(Location::ignored(), "abd")
    );
    assert_ne!(
        Token::Name(Location::ignored(), "abc"),
        Token::Str(Location::ignored(), "abc")
    );
    assert_eq!(
        Token::Str(Location::ignored(), "h\u{e9}llo"),
        Token::Str(Location::new(1, 1, 2), "h\u{e9}llo")
    );
    assert_eq!(
        Token::Comment(Location::ignored(), "one"),
        Token::Comment(Location::ignored(), "another")
    );
}

#[test]
fn tokens_are_rendered_with_kind_location_and_value() {
    assert_eq!(Token::Start.to_string(), "Token<Start>");
    assert_eq!(Token::End.to_string(), "Token<End>");
    assert_eq!(
        Token::Colon(Location::ignored()).to_string(),
        "Token<Colon(Location { absolute_position: 0, line: 0, column: 0 })>"
    );
    assert_eq!(
        Token::Name(Location::new(5, 1, 6), "Empty").to_string(),
        "Token<Name(Location { absolute_position: 5, line: 1, column: 6 }, \"Empty\")>"
    );
    assert_eq!(
        Token::Int(Location::new(120, 14, 3), -9876).to_string(),
        "Token<Int(Location { absolute_position: 120, line: 14, column: 3 }, -9876)>"
    );
    assert_eq!(
        Token::Int(Location::new(0, 1, 1), i64::MIN).to_string(),
        "Token<Int(Location { absolute_position: 0, line: 1, column: 1 }, -9223372036854775808)>"
    );
    assert_eq!(
        Token::Int(Location::new(0, 1, 1), 0).to_string(),
        "Token<Int(Location { absolute_position: 0, line: 1, column: 1 }, 0)>"
    );
    assert_eq!(
        Token::Float(Location::new(0, 1, 1), "1.5").to_string(),
        "Token<Float(Location { absolute_position: 0, line: 1, column: 1 }, 1.5)>"
    );
    assert_eq!(
        Token::BlockStr(Location::new(7, 2, 1), "doc").to_string(),
        "Token<BlockStr(Location { absolute_position: 7, line: 2, column: 1 }, \"doc\")>"
    );
}
