//! What a parser offers, and how it fails.

use vstd::prelude::*;
use vstd::std_specs::convert::FromSpecImpl;
use vstd::string::*;

verus! {

/// A parser of query programs.
pub trait Parser {
    fn parse(&self, input: &str) -> Result<(), String>;
}

/// Why a program could not be parsed.
#[derive(Debug)]
pub enum ParserError {
    ParseError(String),
    LexError(String),
    ParamDoesNotMatchSchema(String),
}

/// The sentence that reports an error.
pub open spec fn error_text(e: ParserError) -> Seq<char> {
    match e {
        ParserError::ParseError(detail) => "Parse error: "@ + detail@,
        ParserError::LexError(detail) => "Lex error: "@ + detail@,
        ParserError::ParamDoesNotMatchSchema(name) => "Parameter with name: "@ + name@
            + " does not exist in the schema"@,
    }
}

impl ParserError {
    /// The sentence that reports the error.
    pub fn message(&self) -> (text: String)
        ensures
            text@ == error_text(*self),
    {
        match self {
            ParserError::ParseError(detail) => {
                let mut text = String::from_str("Parse error: ");
                text.append(detail.as_str());
                text
            },
            ParserError::LexError(detail) => {
                let mut text = String::from_str("Lex error: ");
                text.append(detail.as_str());
                text
            },
            ParserError::ParamDoesNotMatchSchema(name) => {
                let mut text = String::from_str("Parameter with name: ");
                text.append(name.as_str());
                text.append(" does not exist in the schema");
                text
            },
        }
    }

    /// A failed parse, with the parser's report of it.
    pub fn parse_failure(report: String) -> (r: ParserError)
        ensures
            r == ParserError::ParseError(report),
    {
        ParserError::ParseError(report)
    }

    /// A lexing failure with the given detail.
    pub fn lex(detail: &str) -> (r: ParserError)
        ensures
            r is LexError,
            r->LexError_0@ == detail@,
    {
        ParserError::LexError(String::from_str(detail))
    }
}

impl From<String> for ParserError {
    fn from(e: String) -> (r: ParserError) {
        ParserError::LexError(e)
    }
}

impl FromSpecImpl<String> for ParserError {
    open spec fn obeys_from_spec() -> bool {
        true
    }

    open spec fn from_spec(e: String) -> ParserError {
        ParserError::LexError(e)
    }
}

} // verus!
