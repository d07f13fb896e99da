//! A parsed document.

use crate::nodes::{DefinitionNode, DefinitionView};
use crate::text::{decimal, push_decimal};
use vstd::prelude::*;

verus! {

/// The root of a syntax tree: the definitions of a text, in the order in
/// which they were written. The parser makes no document without a
/// definition.
#[derive(Debug, PartialEq)]
pub struct Document {
    /// The definitions.
    pub definitions: Vec<DefinitionNode>,
}

impl DeepView for Document {
    type V = Seq<DefinitionView>;

    open spec fn deep_view(&self) -> Seq<DefinitionView> {
        self.definitions.deep_view()
    }
}

impl Document {
    /// The document of the given definitions.
    pub fn new(definitions: Vec<DefinitionNode>) -> (r: Document)
        ensures
            r.definitions == definitions,
            r.deep_view() == definitions.deep_view(),
    {
        Document { definitions }
    }

    /// The text `Document<N definitions>`, where `N` is the number of
    /// definitions.
    pub fn to_string(&self) -> (r: String)
        ensures
            r@ == document_text(self.deep_view().len()),
    {
        let mut out = String::from_str("Document<");
        push_decimal(&mut out, self.definitions.len() as u64);
        out.append(" definitions>");
        out
    }
}

/// The text that a document of `count` definitions is rendered to.
pub open spec fn document_text(count: nat) -> Seq<char> {
    "Document<"@ + decimal(count) + " definitions>"@
}

} // verus!
