//! A front end for a GraphQL-like schema and query language: a lexer, a
//! recursive-descent parser, the syntax tree they build, and a small
//! validator for type extensions. Every function is verified against a
//! specification stated over sequences of characters and tokens.

use vstd::prelude::*;

pub mod ast;
pub mod document;
pub mod error;
pub mod grammar;
pub mod lexer;
pub mod message;
pub mod nodes;
pub mod text;
pub mod token;
pub mod validation;

verus! {

/// Parses a text into a document: its definitions, or the first error. The
/// result is [`grammar::document`] of the text, and so depends on nothing
/// but the text. A document that is returned holds at least one definition.
pub fn parse(query: &str) -> (r: error::ParseResult<document::Document>)
    requires
        query@.len() < usize::MAX,
    ensures
        error::result_view(r) == grammar::document(query@),
        r matches Ok(document) ==> document.definitions@.len() > 0,
{
    proof {
        grammar::lemma_documents_hold_definitions(query@);
    }
    let mut ast = ast::AST::new(query)?;
    let document = ast.parse()?;
    Ok(document)
}

/// Two results that [`parse`] may return for the same text are equal as
/// values: parsing is a function of the text alone.
pub proof fn lemma_reparse_is_equal(
    text: Seq<char>,
    first: error::ParseResult<document::Document>,
    second: error::ParseResult<document::Document>,
)
    requires
        error::result_view(first) == grammar::document(text),
        error::result_view(second) == grammar::document(text),
    ensures
        error::result_view(first) == error::result_view(second),
{
}

/// A text of blanks alone, or no text at all, is an empty document.
pub proof fn lemma_blank_text_is_empty(text: Seq<char>)
    requires
        forall|i: int| 0 <= i < text.len() ==> lexer::is_blank(#[trigger] text[i]),
    ensures
        grammar::document(text) == Err::<Seq<nodes::DefinitionView>, error::ParseErrorView>(
            error::ParseErrorView::DocumentEmpty,
        ),
{
    lexer::lemma_blanks_are_skipped(text, 0);
    let stream = lexer::token_stream(text);
    assert(lexer::scan(text, 0) == lexer::Scan::End);
    assert(stream.len() == 2);
    assert(stream[0] == Ok::<token::TokenView, error::LexErrorView>(lexer::start_token()));
    assert(stream[1] == Ok::<token::TokenView, error::LexErrorView>(lexer::end_token()));
    assert(stream.drop_first()[0] == stream[1]);
}

/// The answer to a request: the rendering of the document that the text
/// parses to, or the message of the error.
pub open spec fn response(text: Seq<char>) -> Seq<char> {
    match grammar::document(text) {
        Ok(definitions) => document::document_text(definitions.len()),
        Err(e) => e.message(),
    }
}

/// Parses a request and renders the outcome as text.
pub fn handle_database_request(input: &str) -> (r: String)
    requires
        input@.len() < usize::MAX,
    ensures
        r@ == response(input@),
{
    let res = parse(input);
    match res {
        Ok(document) => document.to_string(),
        Err(parse_error) => parse_error.to_string(),
    }
}

} // verus!
