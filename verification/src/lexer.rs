//! The lexer: a forward-only scanner that turns a text into located tokens,
//! one at a time.
//!
//! The first part of this file states, over a sequence of characters, which
//! token starts at a position and where it ends. The second part is the
//! scanner itself, proved to produce exactly those tokens. A stream of tokens
//! begins with [`Token::Start`]; it ends with [`Token::End`], or with the first
//! error.

use crate::error::{LexError, LexErrorView};
use crate::text::{
    byte_offset, char_width, cut, decimal, lemma_encode_split, lemma_offset_step, push_decimal,
    push_deep,
};
use crate::token::{Location, Token, TokenKind, TokenView};
use vstd::prelude::*;
use vstd::std_specs::iter::IteratorSpec;
use vstd::utf8::encode_utf8;

verus! {

/// The line of position `pos`: one more than the number of newlines before it.
pub open spec fn line_at(chars: Seq<char>, pos: int) -> int
    decreases pos,
{
    if pos <= 0 {
        1
    } else if chars[pos - 1] == '\n' {
        line_at(chars, pos - 1) + 1
    } else {
        line_at(chars, pos - 1)
    }
}

/// The column of position `pos`: one more than the number of characters
/// between it and the start of its line.
pub open spec fn column_at(chars: Seq<char>, pos: int) -> int
    decreases pos,
{
    if pos <= 0 {
        1
    } else if chars[pos - 1] == '\n' {
        1
    } else {
        column_at(chars, pos - 1) + 1
    }
}

/// The location of the character at `pos`.
pub open spec fn location_at(chars: Seq<char>, pos: int) -> Location {
    Location {
        absolute_position: pos as usize,
        line: line_at(chars, pos) as usize,
        column: column_at(chars, pos) as usize,
    }
}

/// The location reported for a quote at `pos` that is never closed: the
/// position of the quote, and the column of the character after it.
pub open spec fn unmatched_quote_location(chars: Seq<char>, pos: int) -> Location {
    Location {
        absolute_position: pos as usize,
        line: line_at(chars, pos) as usize,
        column: (column_at(chars, pos) + 1) as usize,
    }
}

/// Lines and columns are at least 1 and at most one more than the position.
pub proof fn lemma_line_column_bounds(chars: Seq<char>, pos: int)
    requires
        0 <= pos,
    ensures
        1 <= line_at(chars, pos) <= pos + 1,
        1 <= column_at(chars, pos) <= pos + 1,
    decreases pos,
{
    if pos > 0 {
        lemma_line_column_bounds(chars, pos - 1);
    }
}

/// Space, tab, comma and newline separate tokens and are otherwise ignored.
pub open spec fn is_blank(c: char) -> bool {
    c == ' ' || c == '\t' || c == ',' || c == '\n'
}

/// An ASCII letter.
pub open spec fn is_letter(c: char) -> bool {
    ('a' <= c && c <= 'z') || ('A' <= c && c <= 'Z')
}

/// An ASCII digit.
pub open spec fn is_digit(c: char) -> bool {
    '0' <= c && c <= '9'
}

/// A character that may continue a name.
pub open spec fn is_name_char(c: char) -> bool {
    is_letter(c) || is_digit(c) || c == '_'
}

/// The kind of the token that a punctuation mark makes by itself.
pub open spec fn punctuation_kind(c: char) -> Option<TokenKind> {
    if c == '!' {
        Some(TokenKind::Bang)
    } else if c == '$' {
        Some(TokenKind::Dollar)
    } else if c == '&' {
        Some(TokenKind::Amp)
    } else if c == '|' {
        Some(TokenKind::Pipe)
    } else if c == '@' {
        Some(TokenKind::At)
    } else if c == ':' {
        Some(TokenKind::Colon)
    } else if c == '=' {
        Some(TokenKind::Equals)
    } else if c == '{' {
        Some(TokenKind::OpenBrace)
    } else if c == '}' {
        Some(TokenKind::CloseBrace)
    } else if c == '(' {
        Some(TokenKind::OpenParen)
    } else if c == ')' {
        Some(TokenKind::CloseParen)
    } else if c == '[' {
        Some(TokenKind::OpenSquare)
    } else if c == ']' {
        Some(TokenKind::CloseSquare)
    } else {
        None
    }
}

/// The first position at or after `pos` that holds a newline, or the length
/// of the text.
pub open spec fn line_end(chars: Seq<char>, pos: int) -> int
    decreases chars.len() - pos,
{
    if pos < 0 || pos >= chars.len() {
        chars.len() as int
    } else if chars[pos] == '\n' {
        pos
    } else {
        line_end(chars, pos + 1)
    }
}

/// The first position at or after `pos` that is neither blank nor inside a
/// comment, or the length of the text. A comment runs from `#` to the end of
/// its line.
pub open spec fn next_significant(chars: Seq<char>, pos: int) -> int
    decreases chars.len() - pos,
{
    if pos < 0 || pos >= chars.len() {
        chars.len() as int
    } else if is_blank(chars[pos]) {
        next_significant(chars, pos + 1)
    } else if chars[pos] == '#' {
        let end = line_end(chars, pos + 1);
        if pos < end <= chars.len() {
            next_significant(chars, end)
        } else {
            pos
        }
    } else {
        pos
    }
}

/// The first position at or after `pos` that holds no name character.
pub open spec fn name_end(chars: Seq<char>, pos: int) -> int
    decreases chars.len() - pos,
{
    if pos < 0 || pos >= chars.len() {
        chars.len() as int
    } else if is_name_char(chars[pos]) {
        name_end(chars, pos + 1)
    } else {
        pos
    }
}

/// The first position at or after `pos` that holds no digit.
pub open spec fn digits_end(chars: Seq<char>, pos: int) -> int
    decreases chars.len() - pos,
{
    if pos < 0 || pos >= chars.len() {
        chars.len() as int
    } else if is_digit(chars[pos]) {
        digits_end(chars, pos + 1)
    } else {
        pos
    }
}

/// Where the body of a string that starts at `pos` stops. The body is made
/// of escapes, a backslash followed by any character but a newline, and of
/// characters other than the double quote and the backslash.
pub open spec fn string_body_end(chars: Seq<char>, pos: int) -> int
    decreases chars.len() - pos,
{
    if pos < 0 || pos >= chars.len() {
        chars.len() as int
    } else if chars[pos] == '\\' {
        if pos + 1 < chars.len() && chars[pos + 1] != '\n' {
            string_body_end(chars, pos + 2)
        } else {
            pos
        }
    } else if chars[pos] == '"' {
        pos
    } else {
        string_body_end(chars, pos + 1)
    }
}

/// Whether three double quotes stand at `pos`.
pub open spec fn triple_quote_at(chars: Seq<char>, pos: int) -> bool {
    pos + 2 < chars.len() && chars[pos] == '"' && chars[pos + 1] == '"' && chars[pos + 2] == '"'
}

/// The value of a digit.
pub open spec fn digit_of(c: char) -> int {
    c as int - '0' as int
}

/// The number that a sequence of digits writes.
pub open spec fn digits_value(s: Seq<char>) -> int
    decreases s.len(),
{
    if s.len() == 0 {
        0
    } else {
        digits_value(s.drop_last()) * 10 + digit_of(s.last())
    }
}

/// What the scanner finds at a position.
pub enum Scan {
    /// A token, and the position after it.
    Token(TokenView, int),
    /// Nothing but blanks and comments up to the end of the text.
    End,
    /// No token can start here.
    Error(LexErrorView),
}

/// The string whose opening quote is at `pos`. Three quotes open a block
/// string, which three quotes close; one quote opens a string that the next
/// quote closes. A string that is not closed is an unmatched quote.
pub open spec fn scan_string(chars: Seq<char>, pos: int) -> Scan {
    if triple_quote_at(chars, pos) {
        let stop = string_body_end(chars, pos + 3);
        if triple_quote_at(chars, stop) {
            Scan::Token(
                TokenView::word(
                    TokenKind::BlockStr,
                    location_at(chars, pos),
                    chars.subrange(pos + 3, stop),
                ),
                stop + 3,
            )
        } else {
            Scan::Error(LexErrorView::UnmatchedQuote(unmatched_quote_location(chars, pos)))
        }
    } else {
        let stop = string_body_end(chars, pos + 1);
        if stop < chars.len() && chars[stop] == '"' {
            Scan::Token(
                TokenView::word(
                    TokenKind::Str,
                    location_at(chars, pos),
                    chars.subrange(pos + 1, stop),
                ),
                stop + 1,
            )
        } else {
            Scan::Error(LexErrorView::UnmatchedQuote(unmatched_quote_location(chars, pos)))
        }
    }
}

/// The numeral that starts at `pos` with a digit or a minus sign: digits, a
/// point and digits make a `Float`; digits alone make an `Int`, if an `i64`
/// holds their value.
pub open spec fn scan_number(chars: Seq<char>, pos: int) -> Scan {
    let negative = chars[pos] == '-';
    let first = if negative {
        pos + 1
    } else {
        pos
    };
    let int_end = digits_end(chars, first);
    if int_end <= first {
        Scan::Error(LexErrorView::UnableToConvert(location_at(chars, pos), "Int or Float"@))
    } else if int_end + 1 < chars.len() && chars[int_end] == '.' && is_digit(chars[int_end + 1]) {
        let end = digits_end(chars, int_end + 1);
        Scan::Token(
            TokenView::word(TokenKind::Float, location_at(chars, pos), chars.subrange(pos, end)),
            end,
        )
    } else {
        let magnitude = digits_value(chars.subrange(first, int_end));
        let value = if negative {
            -magnitude
        } else {
            magnitude
        };
        if i64::MIN <= value <= i64::MAX {
            Scan::Token(TokenView::integer(location_at(chars, pos), value), int_end)
        } else {
            Scan::Error(LexErrorView::UnableToConvert(location_at(chars, pos), "Int"@))
        }
    }
}

/// The token that starts at `pos`, a position that is not blank.
pub open spec fn scan_token(chars: Seq<char>, pos: int) -> Scan {
    if pos >= chars.len() {
        Scan::End
    } else {
        let c = chars[pos];
        if punctuation_kind(c) is Some {
            Scan::Token(TokenView::mark(punctuation_kind(c)->0, location_at(chars, pos)), pos + 1)
        } else if c == '.' {
            if pos + 2 < chars.len() && chars[pos + 1] == '.' && chars[pos + 2] == '.' {
                Scan::Token(TokenView::mark(TokenKind::Spread, location_at(chars, pos)), pos + 3)
            } else {
                Scan::Error(LexErrorView::UnexpectedCharacter(location_at(chars, pos)))
            }
        } else if c == '"' {
            scan_string(chars, pos)
        } else if is_letter(c) {
            let end = name_end(chars, pos + 1);
            Scan::Token(
                TokenView::word(TokenKind::Name, location_at(chars, pos), chars.subrange(pos, end)),
                end,
            )
        } else if is_digit(c) || c == '-' {
            scan_number(chars, pos)
        } else {
            Scan::Error(LexErrorView::UnknownCharacter(location_at(chars, pos)))
        }
    }
}

/// What the scanner finds at or after `pos`, blanks and comments skipped.
pub open spec fn scan(chars: Seq<char>, pos: int) -> Scan {
    scan_token(chars, next_significant(chars, pos))
}

/// An item of a token stream: a token or the error that ends the stream.
pub type LexItemView = Result<TokenView, LexErrorView>;

/// The `Start` token as a value.
pub open spec fn start_token() -> TokenView {
    TokenView::mark(TokenKind::Start, Location::spec_ignored())
}

/// The `End` token as a value.
pub open spec fn end_token() -> TokenView {
    TokenView::mark(TokenKind::End, Location::spec_ignored())
}

/// The tokens of the text from `pos` on, up to and with `End` or the first
/// error.
pub open spec fn tokens_from(chars: Seq<char>, pos: int) -> Seq<LexItemView>
    decreases chars.len() - pos,
{
    match scan(chars, pos) {
        Scan::End => seq![Ok(end_token())],
        Scan::Error(e) => seq![Err(e)],
        Scan::Token(t, next) => if pos < next <= chars.len() {
            seq![Ok(t)] + tokens_from(chars, next)
        } else {
            seq![Ok(t)]
        },
    }
}

/// The whole token stream of a text: `Start`, then its tokens.
pub open spec fn token_stream(chars: Seq<char>) -> Seq<LexItemView> {
    seq![Ok(start_token())] + tokens_from(chars, 0)
}

/// The tokens of a stream if no item is an error, else its first error;
/// `acc` holds the tokens passed so far.
pub open spec fn collect_tokens(stream: Seq<LexItemView>, acc: Seq<TokenView>) -> Result<
    Seq<TokenView>,
    LexErrorView,
>
    decreases stream.len(),
{
    if stream.len() == 0 {
        Ok(acc)
    } else {
        match stream[0] {
            Ok(t) => collect_tokens(stream.drop_first(), acc.push(t)),
            Err(e) => Err(e),
        }
    }
}

/// The view of an item that the lexer hands out.
pub open spec fn item_view(item: Result<Token, LexError>) -> LexItemView {
    match item {
        Ok(t) => Ok(t@),
        Err(e) => Err(e.deep_view()),
    }
}

/// The positions that the scanning functions return lie between the
/// position they start at and the end of the text.
pub proof fn lemma_scan_bounds(chars: Seq<char>, pos: int)
    requires
        0 <= pos <= chars.len(),
    ensures
        pos <= line_end(chars, pos) <= chars.len(),
        pos <= next_significant(chars, pos) <= chars.len(),
        pos <= name_end(chars, pos) <= chars.len(),
        pos <= digits_end(chars, pos) <= chars.len(),
        pos <= string_body_end(chars, pos) <= chars.len(),
    decreases chars.len() - pos,
{
    if pos < chars.len() {
        lemma_scan_bounds(chars, pos + 1);
        if pos + 2 <= chars.len() {
            lemma_scan_bounds(chars, pos + 2);
        }
        let end = line_end(chars, pos + 1);
        lemma_scan_bounds(chars, end);
    }
}

/// A longer run of digits writes a number that is at least as large.
pub proof fn lemma_digits_value_grows(chars: Seq<char>, first: int, i: int, j: int)
    requires
        0 <= first <= i <= j <= chars.len(),
        forall|k: int| first <= k < j ==> is_digit(#[trigger] chars[k]),
    ensures
        0 <= digits_value(chars.subrange(first, i)) <= digits_value(chars.subrange(first, j)),
    decreases j - i, i - first,
{
    if i < j {
        lemma_digits_value_grows(chars, first, i, j - 1);
        assert(chars.subrange(first, j).drop_last() =~= chars.subrange(first, j - 1));
    } else if first < i {
        lemma_digits_value_grows(chars, first, i - 1, i - 1);
        assert(chars.subrange(first, i).drop_last() =~= chars.subrange(first, i - 1));
    }
}

/// A text of blanks alone has no significant position.
pub proof fn lemma_blanks_are_skipped(chars: Seq<char>, pos: int)
    requires
        0 <= pos <= chars.len(),
        forall|i: int| pos <= i < chars.len() ==> is_blank(#[trigger] chars[i]),
    ensures
        next_significant(chars, pos) == chars.len(),
    decreases chars.len() - pos,
{
    if pos < chars.len() {
        lemma_blanks_are_skipped(chars, pos + 1);
    }
}

/// A punctuation mark by itself is scanned to `Start`, the token of the
/// mark at position 0, line 1, column 1, and `End`.
pub proof fn lemma_punctuation_round_trip(c: char)
    requires
        punctuation_kind(c) is Some,
    ensures
        token_stream(seq![c]) == seq![
            Ok::<TokenView, LexErrorView>(start_token()),
            Ok(
                TokenView::mark(
                    punctuation_kind(c)->0,
                    Location { absolute_position: 0, line: 1, column: 1 },
                ),
            ),
            Ok(end_token()),
        ],
        collect_tokens(token_stream(seq![c]), Seq::empty()) == Ok::<Seq<TokenView>, LexErrorView>(
            seq![
                start_token(),
                TokenView::mark(
                    punctuation_kind(c)->0,
                    Location { absolute_position: 0, line: 1, column: 1 },
                ),
                end_token(),
            ],
        ),
{
    let chars = seq![c];
    let mark = TokenView::mark(
        punctuation_kind(c)->0,
        Location { absolute_position: 0, line: 1, column: 1 },
    );
    let stream = seq![Ok::<TokenView, LexErrorView>(start_token()), Ok(mark), Ok(end_token())];
    reveal_with_fuel(tokens_from, 3);
    reveal_with_fuel(next_significant, 3);
    reveal_with_fuel(line_at, 2);
    reveal_with_fuel(column_at, 2);
    assert(next_significant(chars, 0) == 0);
    assert(next_significant(chars, 1) == 1);
    assert(scan(chars, 0) == Scan::Token(mark, 1));
    assert(scan(chars, 1) == Scan::End);
    assert(token_stream(chars) =~= stream);
    reveal_with_fuel(collect_tokens, 5);
    let s1 = stream.drop_first();
    let s2 = s1.drop_first();
    let s3 = s2.drop_first();
    assert(s3.len() == 0);
    assert(collect_tokens(s3, seq![start_token(), mark, end_token()]) == Ok::<
        Seq<TokenView>,
        LexErrorView,
    >(seq![start_token(), mark, end_token()]));
    assert(Seq::<TokenView>::empty().push(start_token()).push(mark).push(end_token()) =~= seq![
        start_token(),
        mark,
        end_token(),
    ]);
}

/// A token that is scanned ends behind the position that the scan started
/// at, and within the text; it is neither `Start` nor `End`.
pub proof fn lemma_scan_advances(chars: Seq<char>, pos: int)
    requires
        0 <= pos <= chars.len(),
    ensures
        scan(chars, pos) matches Scan::Token(t, next) ==> pos < next <= chars.len() && t.kind
            != TokenKind::End && t.kind != TokenKind::Start,
{
    lemma_scan_bounds(chars, pos);
    let start = next_significant(chars, pos);
    if start < chars.len() {
        lemma_scan_bounds(chars, start + 1);
        if start + 3 <= chars.len() {
            lemma_scan_bounds(chars, start + 3);
        }
        let first = if chars[start] == '-' {
            start + 1
        } else {
            start
        };
        lemma_scan_bounds(chars, first);
        let int_end = digits_end(chars, first);
        if int_end + 1 <= chars.len() {
            lemma_scan_bounds(chars, int_end + 1);
        }
    }
}

/// The tokens of a text end with `End` or with an error, and hold neither
/// before their end: the first error is the last item, and `End` comes once.
pub proof fn lemma_stream_ends_once(chars: Seq<char>, pos: int, i: int)
    requires
        0 <= pos <= chars.len(),
        0 <= i < tokens_from(chars, pos).len(),
    ensures
        ({
            let items = tokens_from(chars, pos);
            if i + 1 == items.len() {
                items[i] is Err || items[i] == Ok::<TokenView, LexErrorView>(end_token())
            } else {
                items[i] is Ok && items[i]->Ok_0.kind != TokenKind::End
            }
        }),
    decreases chars.len() - pos,
{
    lemma_scan_advances(chars, pos);
    match scan(chars, pos) {
        Scan::End => {},
        Scan::Error(e) => {},
        Scan::Token(t, next) => {
            if i > 0 {
                lemma_stream_ends_once(chars, next, i - 1);
            }
        },
    }
}

/// Every token of a text, but for `End`, carries the location of its first
/// character: the position of that character, the line that [`line_at`]
/// counts for it and the column that [`column_at`] counts.
pub proof fn lemma_tokens_are_located(chars: Seq<char>, pos: int, i: int)
    requires
        0 <= pos <= chars.len() < usize::MAX,
        0 <= i < tokens_from(chars, pos).len(),
        tokens_from(chars, pos)[i] is Ok,
        tokens_from(chars, pos)[i]->Ok_0.kind != TokenKind::End,
    ensures
        ({
            let token = tokens_from(chars, pos)[i]->Ok_0;
            &&& pos <= token.location.absolute_position < chars.len()
            &&& token.location == location_at(chars, token.location.absolute_position as int)
        }),
    decreases chars.len() - pos,
{
    lemma_scan_bounds(chars, pos);
    let start = next_significant(chars, pos);
    match scan(chars, pos) {
        Scan::End => {},
        Scan::Error(e) => {},
        Scan::Token(t, next) => {
            assert(start < chars.len());
            assert(t.location == location_at(chars, start));
            if pos < next <= chars.len() {
                if i > 0 {
                    lemma_tokens_are_located(chars, next, i - 1);
                }
            }
        },
    }
}

/// The position that [`next_significant`] finds holds a character that is
/// neither blank nor the start of a comment, unless it is the end of the
/// text; a search from that position finds it again.
pub proof fn lemma_next_significant_is_significant(chars: Seq<char>, pos: int)
    requires
        0 <= pos <= chars.len(),
    ensures
        ({
            let found = next_significant(chars, pos);
            &&& pos <= found <= chars.len()
            &&& found < chars.len() ==> !is_blank(chars[found]) && chars[found] != '#'
            &&& next_significant(chars, found) == found
        }),
    decreases chars.len() - pos,
{
    lemma_scan_bounds(chars, pos);
    if pos < chars.len() {
        if is_blank(chars[pos]) {
            lemma_next_significant_is_significant(chars, pos + 1);
        } else if chars[pos] == '#' {
            lemma_scan_bounds(chars, pos + 1);
            lemma_next_significant_is_significant(chars, line_end(chars, pos + 1));
        }
    }
}

/// The tokens of a text stand in the order of their positions: of two
/// tokens, the earlier one starts before the later one.
pub proof fn lemma_positions_increase(chars: Seq<char>, pos: int, i: int, j: int)
    requires
        0 <= pos <= chars.len() < usize::MAX,
        0 <= i < j < tokens_from(chars, pos).len(),
        tokens_from(chars, pos)[j] is Ok,
        tokens_from(chars, pos)[j]->Ok_0.kind != TokenKind::End,
    ensures
        tokens_from(chars, pos)[i] is Ok,
        tokens_from(chars, pos)[i]->Ok_0.location.absolute_position < tokens_from(
            chars,
            pos,
        )[j]->Ok_0.location.absolute_position,
    decreases chars.len() - pos,
{
    lemma_stream_ends_once(chars, pos, i);
    lemma_next_significant_is_significant(chars, pos);
    let start = next_significant(chars, pos);
    lemma_scan_advances(chars, start);
    lemma_scan_advances(chars, pos);
    match scan(chars, pos) {
        Scan::End => {},
        Scan::Error(e) => {},
        Scan::Token(t, next) => {
            if i == 0 {
                lemma_tokens_are_located(chars, pos, 0);
                lemma_tokens_are_located(chars, next, j - 1);
            } else {
                lemma_positions_increase(chars, next, i - 1, j - 1);
            }
        },
    }
}

/// Whether the character is blank.
fn is_blank_char(c: char) -> (r: bool)
    ensures
        r == is_blank(c),
{
    c == ' ' || c == '\t' || c == ',' || c == '\n'
}

/// Whether the character is an ASCII letter.
fn is_letter_char(c: char) -> (r: bool)
    ensures
        r == is_letter(c),
{
    ('a' <= c && c <= 'z') || ('A' <= c && c <= 'Z')
}

/// Whether the character is an ASCII digit.
fn is_digit_char(c: char) -> (r: bool)
    ensures
        r == is_digit(c),
{
    '0' <= c && c <= '9'
}

/// Whether the character may continue a name.
fn is_name_continue(c: char) -> (r: bool)
    ensures
        r == is_name_char(c),
{
    is_letter_char(c) || is_digit_char(c) || c == '_'
}

/// The characters of a string slice, in order.
pub fn chars_of(s: &str) -> (v: Vec<char>)
    ensures
        v@ == s@,
{
    let mut v: Vec<char> = Vec::new();
    let mut it = s.chars();
    loop
        invariant
            it.remaining() == s@.skip(v@.len() as int),
            v@ == s@.take(v@.len() as int),
            v@.len() <= s@.len(),
        ensures
            v@ == s@,
        decreases s@.len() - v@.len(),
    {
        broadcast use vstd::string::group_string_axioms;

        match it.next() {
            Some(c) => {
                v.push(c);
            },
            None => {
                break ;
            },
        }
    }
    v
}

/// The items that a lexer has yet to yield when it stands at position `pos`
/// of a text: nothing, once it has ended; else the tokens from `pos` on,
/// behind `Start` if it has not started.
pub open spec fn pending(chars: Seq<char>, pos: int, started: bool, ended: bool) -> Seq<
    LexItemView,
> {
    if ended {
        Seq::empty()
    } else if !started {
        seq![Ok(start_token())] + tokens_from(chars, pos)
    } else {
        tokens_from(chars, pos)
    }
}

/// The text that a lexer at the given location is rendered to.
pub open spec fn position_text(location: Location) -> Seq<char> {
    "Lexer<position: "@ + decimal(location.absolute_position as nat) + ", line: "@ + decimal(
        location.line as nat,
    ) + ", col: "@ + decimal(location.column as nat) + ">"@
}

/// What the lexer yields: a token, or the error that ends the stream.
pub type LexerItem<'a> = Result<Token<'a>, LexError>;

/// A scanner over a text. It yields `Start`, then the tokens of the text,
/// then `End`; after `End`, or after the first error, it yields nothing.
#[derive(Debug)]
pub struct Lexer<'a> {
    raw: &'a str,
    chars: Vec<char>,
    initialized: bool,
    ended: bool,
    position: usize,
    byte_position: usize,
    line: usize,
    col: usize,
}

impl<'a> Lexer<'a> {
    /// The text that the lexer scans.
    pub closed spec fn text(&self) -> Seq<char> {
        self.raw@
    }

    /// The number of characters that the lexer has passed.
    pub closed spec fn offset(&self) -> int {
        self.position as int
    }

    /// The invariant of the lexer: it stands inside its text, and counts
    /// lines and columns as [`line_at`] and [`column_at`] do.
    pub closed spec fn wf(&self) -> bool {
        &&& self.chars@ == self.raw@
        &&& self.chars@.len() < usize::MAX
        &&& self.position <= self.chars@.len()
        &&& encode_utf8(self.chars@).len() <= usize::MAX
        &&& self.byte_position == byte_offset(self.chars@, self.position as int)
        &&& self.line == line_at(self.chars@, self.position as int)
        &&& self.col == column_at(self.chars@, self.position as int)
    }

    /// Whether the lexer has yielded `Start`.
    pub closed spec fn is_started(&self) -> bool {
        self.initialized
    }

    /// Whether the lexer has yielded `End` or an error.
    pub closed spec fn is_ended(&self) -> bool {
        self.ended
    }

    /// The items that the lexer has yet to yield; see [`pending`] for what
    /// they are.
    pub closed spec fn remaining(&self) -> Seq<LexItemView> {
        pending(self.text(), self.offset(), self.is_started(), self.is_ended())
    }

    /// The items that the lexer has yet to yield are those of [`pending`].
    pub proof fn lemma_remaining(&self)
        ensures
            self.remaining() == pending(
                self.text(),
                self.offset(),
                self.is_started(),
                self.is_ended(),
            ),
    {
    }

    /// A lexer at the start of `input`.
    pub fn new(input: &'a str) -> (r: Lexer<'a>)
        requires
            input@.len() < usize::MAX,
        ensures
            r.wf(),
            r.text() == input@,
            r.offset() == 0,
            !r.is_started(),
            !r.is_ended(),
            r.remaining() == token_stream(input@),
    {
        let byte_len = input.as_bytes().len();
        let chars = chars_of(input);
        assert(chars@.take(0) =~= Seq::<char>::empty());
        Lexer {
            raw: input,
            chars,
            initialized: false,
            ended: false,
            position: 0,
            byte_position: 0,
            line: 1,
            col: 1,
        }
    }

    /// The text `Lexer<position: P, line: L, col: C>`, where the three
    /// numbers are those of the location of the next character.
    pub fn to_string(&self) -> (r: String)
        requires
            self.wf(),
        ensures
            r@ == position_text(location_at(self.text(), self.offset())),
    {
        let mut out = String::from_str("Lexer<position: ");
        push_decimal(&mut out, self.position as u64);
        out.append(", line: ");
        push_decimal(&mut out, self.line as u64);
        out.append(", col: ");
        push_decimal(&mut out, self.col as u64);
        out.append(">");
        out
    }

    /// The location of the next character.
    pub fn get_current_location(&self) -> (r: Location)
        requires
            self.wf(),
        ensures
            r == location_at(self.text(), self.offset()),
    {
        Location::new(self.position, self.line, self.col)
    }

    /// Passes one character.
    pub fn advance(&mut self)
        requires
            old(self).wf(),
            old(self).offset() < old(self).text().len(),
        ensures
            final(self).wf(),
            final(self).text() == old(self).text(),
            final(self).offset() == old(self).offset() + 1,
            final(self).is_started() == old(self).is_started(),
            final(self).is_ended() == old(self).is_ended(),
            final(self).same_flags(old(self)),
    {
        proof {
            lemma_line_column_bounds(self.chars@, self.position as int + 1);
            lemma_offset_step(self.chars@, self.position as int);
            lemma_encode_split(self.chars@, self.position as int + 1);
        }
        self.byte_position = self.byte_position + char_width(self.chars[self.position]);
        if self.chars[self.position] == '\n' {
            self.line = self.line + 1;
            self.col = 1;
        } else {
            self.col = self.col + 1;
        }
        self.position = self.position + 1;
    }

    /// Whether this lexer is `before` after it has ended: nothing else differs.
    pub closed spec fn ended_from(&self, before: &Lexer<'a>) -> bool {
        &&& self.ended
        &&& self.initialized == before.initialized
        &&& self.raw == before.raw
        &&& self.chars == before.chars
        &&& self.position == before.position
        &&& self.byte_position == before.byte_position
        &&& self.line == before.line
        &&& self.col == before.col
    }

    /// Whether two lexers are over the same text, and agree on having
    /// started and on having ended.
    pub closed spec fn same_flags(&self, other: &Lexer<'a>) -> bool {
        self.initialized == other.initialized && self.ended == other.ended && self.raw
            == other.raw && self.chars == other.chars
    }

    /// Passes `n` characters.
    pub fn advance_n(&mut self, n: usize)
        requires
            old(self).wf(),
            old(self).offset() + n <= old(self).text().len(),
        ensures
            final(self).wf(),
            final(self).text() == old(self).text(),
            final(self).offset() == old(self).offset() + n,
            final(self).is_started() == old(self).is_started(),
            final(self).is_ended() == old(self).is_ended(),
            final(self).same_flags(old(self)),
    {
        let target = self.position + n;
        self.advance_to(target);
    }

    /// Passes the characters up to position `pos`.
    pub fn advance_to(&mut self, pos: usize)
        requires
            old(self).wf(),
            old(self).offset() <= pos <= old(self).text().len(),
        ensures
            final(self).wf(),
            final(self).text() == old(self).text(),
            final(self).offset() == pos,
            final(self).is_started() == old(self).is_started(),
            final(self).is_ended() == old(self).is_ended(),
            final(self).same_flags(old(self)),
    {
        while self.position < pos
            invariant
                self.wf(),
                self.same_flags(old(self)),
                self.position <= pos <= self.chars@.len(),
            decreases pos - self.position,
        {
            self.advance();
        }
    }

    /// Ends the stream with an unexpected character at the current location.
    fn make_unexpected_character_error(&mut self) -> (r: LexerItem<'a>)
        requires
            old(self).wf(),
        ensures
            final(self).ended_from(old(self)),
            item_view(r) == Err::<TokenView, LexErrorView>(
                LexErrorView::UnexpectedCharacter(
                    location_at(old(self).chars@, old(self).position as int),
                ),
            ),
    {
        self.ended = true;
        Err(LexError::UnexpectedCharacter(self.get_current_location()))
    }

    /// Ends the stream with a numeral that cannot be converted.
    fn make_conversion_error(&mut self, expected_type: &'static str) -> (r: LexerItem<'a>)
        requires
            old(self).wf(),
        ensures
            final(self).ended_from(old(self)),
            item_view(r) == Err::<TokenView, LexErrorView>(
                LexErrorView::UnableToConvert(
                    location_at(old(self).chars@, old(self).position as int),
                    expected_type@,
                ),
            ),
    {
        self.ended = true;
        Err(LexError::UnableToConvert(self.get_current_location(), expected_type))
    }

    /// Ends the stream with an unknown character at the current location.
    fn make_unknown_character_error(&mut self) -> (r: LexerItem<'a>)
        requires
            old(self).wf(),
        ensures
            final(self).ended_from(old(self)),
            item_view(r) == Err::<TokenView, LexErrorView>(
                LexErrorView::UnknownCharacter(
                    location_at(old(self).chars@, old(self).position as int),
                ),
            ),
    {
        self.ended = true;
        Err(LexError::UnknownCharacter(self.get_current_location()))
    }

    /// Ends the stream with an unmatched quote at the current location.
    fn make_unmatched_quote_error(&mut self) -> (r: LexerItem<'a>)
        requires
            old(self).wf(),
            old(self).position < old(self).chars@.len(),
        ensures
            final(self).ended_from(old(self)),
            item_view(r) == Err::<TokenView, LexErrorView>(
                LexErrorView::UnmatchedQuote(
                    unmatched_quote_location(old(self).chars@, old(self).position as int),
                ),
            ),
    {
        proof {
            lemma_line_column_bounds(self.chars@, self.position as int);
        }
        self.ended = true;
        Err(LexError::UnmatchedQuote(Location::new(self.position, self.line, self.col + 1)))
    }

    /// Passes a comment: the characters up to the end of the line.
    fn ignore_comments(&mut self)
        requires
            old(self).wf(),
            old(self).position < old(self).chars@.len(),
        ensures
            final(self).wf(),
            final(self).same_flags(old(self)),
            final(self).position == line_end(old(self).chars@, old(self).position + 1),
            final(self).position > old(self).position,
    {
        self.advance();
        while self.position < self.chars.len() && self.chars[self.position] != '\n'
            invariant
                self.wf(),
                self.same_flags(old(self)),
                old(self).position < self.position <= self.chars@.len(),
                line_end(self.chars@, self.position as int) == line_end(
                    old(self).chars@,
                    old(self).position + 1,
                ),
            decreases self.chars@.len() - self.position,
        {
            self.advance();
        }
    }

    /// Passes blanks and comments.
    fn ignore_whitespace(&mut self)
        requires
            old(self).wf(),
        ensures
            final(self).wf(),
            final(self).same_flags(old(self)),
            final(self).position == next_significant(old(self).chars@, old(self).position as int),
            final(self).position >= old(self).position,
    {
        loop
            invariant
                self.wf(),
                self.same_flags(old(self)),
                self.position >= old(self).position,
                next_significant(self.chars@, self.position as int) == next_significant(
                    old(self).chars@,
                    old(self).position as int,
                ),
            ensures
                self.wf(),
                self.same_flags(old(self)),
                self.position >= old(self).position,
                self.position == next_significant(old(self).chars@, old(self).position as int),
            decreases self.chars@.len() - self.position,
        {
            if self.position >= self.chars.len() {
                break ;
            }
            let c = self.chars[self.position];
            if is_blank_char(c) {
                self.advance();
            } else if c == '#' {
                self.ignore_comments();
            } else {
                break ;
            }
        }
    }

    /// The number of bytes before the character at `target`, which is not
    /// behind the lexer.
    fn byte_offset_of(&self, target: usize) -> (r: usize)
        requires
            self.wf(),
            self.position <= target <= self.chars@.len(),
        ensures
            r == byte_offset(self.chars@, target as int),
    {
        let mut i = self.position;
        let mut bytes = self.byte_position;
        while i < target
            invariant
                self.position <= i <= target <= self.chars@.len(),
                encode_utf8(self.chars@).len() <= usize::MAX,
                bytes == byte_offset(self.chars@, i as int),
            decreases target - i,
        {
            proof {
                lemma_offset_step(self.chars@, i as int);
                lemma_encode_split(self.chars@, i as int + 1);
            }
            bytes = bytes + char_width(self.chars[i]);
            i = i + 1;
        }
        bytes
    }

    /// The piece of the text between two positions that are not behind the
    /// lexer.
    fn slice(&self, from: usize, to: usize) -> (r: &'a str)
        requires
            self.wf(),
            self.position <= from <= to <= self.chars@.len(),
        ensures
            r@ == self.chars@.subrange(from as int, to as int),
    {
        let raw: &'a str = self.raw;
        let from_byte = self.byte_offset_of(from);
        let to_byte = self.byte_offset_of(to);
        cut(raw, from_byte, to_byte, Ghost(from as int), Ghost(to as int))
    }

    /// The position where the run of name characters from `from` ends.
    fn find_name_end(&self, from: usize) -> (r: usize)
        requires
            self.wf(),
            from <= self.chars@.len(),
        ensures
            r == name_end(self.chars@, from as int),
            from <= r <= self.chars@.len(),
    {
        let mut i = from;
        while i < self.chars.len() && is_name_continue(self.chars[i])
            invariant
                from <= i <= self.chars@.len(),
                name_end(self.chars@, i as int) == name_end(self.chars@, from as int),
            decreases self.chars@.len() - i,
        {
            i = i + 1;
        }
        i
    }

    /// The position where the run of digits from `from` ends.
    fn find_digits_end(&self, from: usize) -> (r: usize)
        requires
            self.wf(),
            from <= self.chars@.len(),
        ensures
            r == digits_end(self.chars@, from as int),
            from <= r <= self.chars@.len(),
            forall|k: int| from <= k < r ==> is_digit(#[trigger] self.chars@[k]),
    {
        let mut i = from;
        while i < self.chars.len() && is_digit_char(self.chars[i])
            invariant
                from <= i <= self.chars@.len(),
                digits_end(self.chars@, i as int) == digits_end(self.chars@, from as int),
                forall|k: int| from <= k < i ==> is_digit(#[trigger] self.chars@[k]),
            decreases self.chars@.len() - i,
        {
            i = i + 1;
        }
        i
    }

    /// The position where the body of a string from `from` stops.
    fn find_string_body_end(&self, from: usize) -> (r: usize)
        requires
            self.wf(),
            from <= self.chars@.len(),
        ensures
            r == string_body_end(self.chars@, from as int),
            from <= r <= self.chars@.len(),
    {
        let mut i = from;
        loop
            invariant
                from <= i <= self.chars@.len(),
                self.chars@.len() < usize::MAX,
                string_body_end(self.chars@, i as int) == string_body_end(
                    self.chars@,
                    from as int,
                ),
            ensures
                from <= i <= self.chars@.len(),
                i == string_body_end(self.chars@, from as int),
            decreases self.chars@.len() - i,
        {
            if i >= self.chars.len() {
                break ;
            }
            let c = self.chars[i];
            if c == '\\' {
                if i + 1 < self.chars.len() && self.chars[i + 1] != '\n' {
                    i = i + 2;
                } else {
                    break ;
                }
            } else if c == '"' {
                break ;
            } else {
                i = i + 1;
            }
        }
        i
    }

    /// Whether three double quotes stand at `at`.
    fn has_triple_quote(&self, at: usize) -> (r: bool)
        requires
            self.wf(),
            at <= self.chars@.len(),
        ensures
            r == triple_quote_at(self.chars@, at as int),
    {
        self.chars.len() - at > 2 && self.chars[at] == '"' && self.chars[at + 1] == '"'
            && self.chars[at + 2] == '"'
    }

    /// The value of the digits between `first` and `end`, if it is at most
    /// `limit`.
    fn digits_to_value(&self, first: usize, end: usize, limit: u64) -> (r: Option<u64>)
        requires
            self.wf(),
            first <= end <= self.chars@.len(),
            forall|k: int| first <= k < end ==> is_digit(#[trigger] self.chars@[k]),
        ensures
            match r {
                Some(v) => v == digits_value(self.chars@.subrange(first as int, end as int)) && v
                    <= limit,
                None => digits_value(self.chars@.subrange(first as int, end as int)) > limit,
            },
    {
        let mut acc: u64 = 0;
        let mut i = first;
        assert(self.chars@.subrange(first as int, first as int) =~= Seq::<char>::empty());
        while i < end
            invariant
                first <= i <= end <= self.chars@.len(),
                forall|k: int| first <= k < end ==> is_digit(#[trigger] self.chars@[k]),
                acc == digits_value(self.chars@.subrange(first as int, i as int)),
                acc <= limit,
            decreases end - i,
        {
            let c = self.chars[i];
            assert(is_digit(self.chars@[i as int]));
            let d: u64 = (c as u32 - '0' as u32) as u64;
            assert(d == digit_of(c));
            assert(self.chars@.subrange(first as int, i + 1).drop_last() =~= self.chars@.subrange(
                first as int,
                i as int,
            ));
            if d > limit || acc > (limit - d) / 10 {
                proof {
                    lemma_digits_value_grows(self.chars@, first as int, i + 1, end as int);
                }
                return None;
            }
            acc = acc * 10 + d;
            i = i + 1;
        }
        Some(acc)
    }

    /// Makes the token of a punctuation mark and passes the mark.
    fn lex_punctuation(&mut self, c: char) -> (r: LexerItem<'a>)
        requires
            old(self).wf(),
            old(self).position < old(self).chars@.len(),
            c == old(self).chars@[old(self).position as int],
            punctuation_kind(c) is Some,
        ensures
            final(self).wf(),
            final(self).same_flags(old(self)),
            final(self).position == old(self).position + 1,
            item_view(r) == Ok::<TokenView, LexErrorView>(
                TokenView::mark(
                    punctuation_kind(c)->0,
                    location_at(old(self).chars@, old(self).position as int),
                ),
            ),
    {
        let location = self.get_current_location();
        self.advance();
        if c == '!' {
            Ok(Token::Bang(location))
        } else if c == '$' {
            Ok(Token::Dollar(location))
        } else if c == '&' {
            Ok(Token::Amp(location))
        } else if c == '|' {
            Ok(Token::Pipe(location))
        } else if c == '@' {
            Ok(Token::At(location))
        } else if c == ':' {
            Ok(Token::Colon(location))
        } else if c == '=' {
            Ok(Token::Equals(location))
        } else if c == '{' {
            Ok(Token::OpenBrace(location))
        } else if c == '}' {
            Ok(Token::CloseBrace(location))
        } else if c == '(' {
            Ok(Token::OpenParen(location))
        } else if c == ')' {
            Ok(Token::CloseParen(location))
        } else if c == '[' {
            Ok(Token::OpenSquare(location))
        } else {
            Ok(Token::CloseSquare(location))
        }
    }

    /// Scans `...`.
    fn lex_ellipsis(&mut self) -> (r: LexerItem<'a>)
        requires
            old(self).wf(),
            !old(self).ended,
            old(self).position < old(self).chars@.len(),
            old(self).chars@[old(self).position as int] == '.',
        ensures
            final(self).scanned(old(self), r),
    {
        let index = self.position;
        if self.chars.len() - index > 2 && self.chars[index + 1] == '.' && self.chars[index + 2]
            == '.' {
            let location = self.get_current_location();
            self.advance_n(3);
            Ok(Token::Spread(location))
        } else {
            self.make_unexpected_character_error()
        }
    }

    /// Scans a name.
    fn lex_name(&mut self) -> (r: LexerItem<'a>)
        requires
            old(self).wf(),
            !old(self).ended,
            old(self).position < old(self).chars@.len(),
            is_letter(old(self).chars@[old(self).position as int]),
        ensures
            final(self).scanned(old(self), r),
    {
        let init_pos = self.position;
        let location = self.get_current_location();
        let end_pos = self.find_name_end(init_pos + 1);
        let name = self.slice(init_pos, end_pos);
        self.advance_to(end_pos);
        Ok(Token::Name(location, name))
    }

    /// Scans a numeral.
    fn lex_number(&mut self) -> (r: LexerItem<'a>)
        requires
            old(self).wf(),
            !old(self).ended,
            old(self).position < old(self).chars@.len(),
            is_digit(old(self).chars@[old(self).position as int]) || old(self).chars@[old(self).position as int] == '-',
        ensures
            final(self).scanned(old(self), r),
    {
        let init_pos = self.position;
        let location = self.get_current_location();
        let negative = self.chars[init_pos] == '-';
        let first = if negative {
            init_pos + 1
        } else {
            init_pos
        };
        let int_end = self.find_digits_end(first);
        if int_end <= first {
            self.make_conversion_error("Int or Float")
        } else if int_end + 1 < self.chars.len() && self.chars[int_end] == '.' && is_digit_char(
            self.chars[int_end + 1],
        ) {
            let end = self.find_digits_end(int_end + 1);
            let numeral = self.slice(init_pos, end);
            self.advance_to(end);
            Ok(Token::Float(location, numeral))
        } else if negative {
            match self.digits_to_value(first, int_end, 9223372036854775808u64) {
                Some(magnitude) => {
                    let value: i64 = if magnitude == 9223372036854775808u64 {
                        i64::MIN
                    } else {
                        -(magnitude as i64)
                    };
                    self.advance_to(int_end);
                    Ok(Token::Int(location, value))
                },
                None => self.make_conversion_error("Int"),
            }
        } else {
            match self.digits_to_value(first, int_end, 9223372036854775807u64) {
                Some(magnitude) => {
                    self.advance_to(int_end);
                    Ok(Token::Int(location, magnitude as i64))
                },
                None => self.make_conversion_error("Int"),
            }
        }
    }

    /// Scans a string or a block string.
    fn lex_string(&mut self) -> (r: LexerItem<'a>)
        requires
            old(self).wf(),
            !old(self).ended,
            old(self).position < old(self).chars@.len(),
            old(self).chars@[old(self).position as int] == '"',
        ensures
            final(self).scanned(old(self), r),
    {
        let init_pos = self.position;
        let location = self.get_current_location();
        if self.has_triple_quote(init_pos) {
            let stop = self.find_string_body_end(init_pos + 3);
            if self.has_triple_quote(stop) {
                let content = self.slice(init_pos + 3, stop);
                self.advance_to(stop + 3);
                Ok(Token::BlockStr(location, content))
            } else {
                self.make_unmatched_quote_error()
            }
        } else {
            let stop = self.find_string_body_end(init_pos + 1);
            if stop < self.chars.len() && self.chars[stop] == '"' {
                let content = self.slice(init_pos + 1, stop);
                self.advance_to(stop + 1);
                Ok(Token::Str(location, content))
            } else {
                self.make_unmatched_quote_error()
            }
        }
    }

    /// What holds after a scan of one token from a position that is not
    /// blank: the item is the one that [`scan_token`] states, and the lexer
    /// stands behind the token, or has ended with the error.
    pub closed spec fn scanned(&self, before: &Lexer<'a>, item: LexerItem<'a>) -> bool {
        &&& self.raw == before.raw
        &&& self.chars == before.chars
        &&& self.initialized == before.initialized
        &&& match scan_token(before.chars@, before.position as int) {
            Scan::Token(t, next) => {
                &&& item_view(item) == Ok::<TokenView, LexErrorView>(t)
                &&& self.position == next
                &&& before.position < next <= before.chars@.len()
                &&& !self.ended
                &&& self.wf()
            },
            Scan::End => false,
            Scan::Error(e) => item_view(item) == Err::<TokenView, LexErrorView>(e) && self.ended
                && self.wf(),
        }
    }

    /// Scans the next token, after the blanks and comments before it.
    fn get_next_token(&mut self) -> (r: LexerItem<'a>)
        requires
            old(self).wf(),
            !old(self).ended,
        ensures
            final(self).raw == old(self).raw,
            final(self).chars == old(self).chars,
            final(self).initialized == old(self).initialized,
            match scan(old(self).chars@, old(self).position as int) {
                Scan::Token(t, next) => {
                    &&& item_view(r) == Ok::<TokenView, LexErrorView>(t)
                    &&& final(self).position == next
                    &&& old(self).position < next <= old(self).chars@.len()
                    &&& !final(self).ended
                    &&& final(self).wf()
                },
                Scan::End => item_view(r) == Ok::<TokenView, LexErrorView>(end_token()) && final(self).ended
                    && final(self).wf(),
                Scan::Error(e) => item_view(r) == Err::<TokenView, LexErrorView>(e) && final(self).ended
                    && final(self).wf(),
            },
    {
        self.ignore_whitespace();
        if self.position >= self.chars.len() {
            self.ended = true;
            return Ok(Token::End);
        }
        let c = self.chars[self.position];
        if c == '!' || c == '$' || c == '&' || c == '|' || c == '@' || c == ':' || c == '=' || c
            == '{' || c == '}' || c == '(' || c == ')' || c == '[' || c == ']' {
            self.lex_punctuation(c)
        } else if c == '.' {
            self.lex_ellipsis()
        } else if c == '"' {
            self.lex_string()
        } else if is_letter_char(c) {
            self.lex_name()
        } else if is_digit_char(c) || c == '-' {
            self.lex_number()
        } else {
            self.make_unknown_character_error()
        }
    }

    /// Yields the next item of the stream, or nothing when the stream is
    /// over.
    pub fn next(&mut self) -> (r: Option<LexerItem<'a>>)
        requires
            old(self).wf(),
        ensures
            final(self).wf(),
            final(self).text() == old(self).text(),
            old(self).remaining().len() == 0 ==> r is None && final(self).remaining() == old(self).remaining(),
            old(self).remaining().len() > 0 ==> r is Some && item_view(r->0) == old(self).remaining()[0] && final(self).remaining() == old(self).remaining().drop_first(),
    {
        if self.ended {
            None
        } else if !self.initialized {
            self.initialized = true;
            assert(self.remaining() =~= old(self).remaining().drop_first());
            Some(Ok(Token::Start))
        } else {
            let ghost before = self.remaining();
            let tok = self.get_next_token();
            proof {
                match scan(old(self).chars@, old(self).position as int) {
                    Scan::Token(t, next) => {
                        assert(self.remaining() =~= before.drop_first());
                    },
                    Scan::End => {
                        assert(self.remaining() =~= before.drop_first());
                    },
                    Scan::Error(e) => {
                        assert(self.remaining() =~= before.drop_first());
                    },
                }
            }
            Some(tok)
        }
    }
}

/// Scans the whole of `input`: its tokens, from `Start` to `End`, or the
/// first error.
pub fn tokenize(input: &str) -> (r: Result<Vec<Token>, LexError>)
    requires
        input@.len() < usize::MAX,
    ensures
        match r {
            Ok(tokens) => Ok::<Seq<TokenView>, LexErrorView>(tokens.deep_view()),
            Err(e) => Err(e.deep_view()),
        } == collect_tokens(token_stream(input@), Seq::empty()),
{
    let mut state = Lexer::new(input);
    let mut tokens: Vec<Token> = Vec::new();
    assert(tokens.deep_view() =~= Seq::<TokenView>::empty());
    loop
        invariant
            state.wf(),
            collect_tokens(state.remaining(), tokens.deep_view()) == collect_tokens(
                token_stream(input@),
                Seq::empty(),
            ),
        decreases state.remaining().len(),
    {
        match state.next() {
            None => {
                return Ok(tokens);
            },
            Some(Ok(token)) => {
                push_deep(&mut tokens, token);
            },
            Some(Err(e)) => {
                return Err(e);
            },
        }
    }
}

} // verus!
