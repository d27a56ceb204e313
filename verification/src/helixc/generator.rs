//! Lowering of queries to handler plans, and the text backend.

pub mod arguments;
pub mod backend;
pub mod compile;
pub mod error;
pub mod generator;
pub mod handler_text;
pub mod laws;
pub mod lowering;
pub mod lowering_spec;
pub mod mutations;
pub mod naming;
pub mod plan;
pub mod scope;

