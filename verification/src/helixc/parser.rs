//! The parser boundary: the syntax tree and the parser's error type.

pub mod helix_parser;
pub mod parser_methods;
