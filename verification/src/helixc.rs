//! The query compiler: the syntax tree it consumes and the generator that
//! lowers it.

pub mod generator;
pub mod parser;
