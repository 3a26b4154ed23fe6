//! Parser errors and the check of a parser result.

use vstd::prelude::*;
use vstd::string::*;

verus! {

/// An error of the expression parser.
#[derive(Debug)]
pub enum ParserError {
    /// An error held by a node of the syntax tree, with its message.
    NodeError(String),
    /// The parser did not consume every token.
    Incomplete,
}

/// The message of a parser error.
pub open spec fn spec_parser_error_text(e: ParserError) -> Seq<char> {
    match e {
        ParserError::NodeError(m) => m@,
        ParserError::Incomplete => "Incomplete parser output"@,
    }
}

impl ParserError {
    /// The error's message, as its `Display` writes it.
    pub fn to_string(&self) -> (r: String)
        ensures
            r@ == spec_parser_error_text(*self),
    {
        match self {
            ParserError::NodeError(m) => m.clone(),
            ParserError::Incomplete => String::from_str("Incomplete parser output"),
        }
    }
}

/// Where a node stands in the source: start and end positions.
#[derive(Debug, Clone, Copy)]
pub struct NodeMetadata {
    pub span: (u32, u32),
}

/// What the parser produced, as far as its check reads it: whether every
/// token was consumed, and the message of the first error node of the tree,
/// if there is one.
pub struct ParserResult {
    pub is_complete: bool,
    pub first_error: Option<String>,
}

impl ParserResult {
    /// The first error of the result: `Incomplete` when tokens were left,
    /// then the first error node.
    pub fn error(&self) -> (r: Result<(), ParserError>)
        ensures
            !self.is_complete ==> r matches Err(ParserError::Incomplete),
            self.is_complete ==> match self.first_error {
                None => r is Ok,
                Some(m) => r matches Err(ParserError::NodeError(n)) && n@ == m@,
            },
    {
        if !self.is_complete {
            return Err(ParserError::Incomplete);
        }
        match &self.first_error {
            None => Ok(()),
            Some(m) => Err(ParserError::NodeError(m.clone())),
        }
    }
}

} // verus!
