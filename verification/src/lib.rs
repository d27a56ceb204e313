//! Query compilation and response shaping for a graph database.
//!
//! `helixc` lowers a parsed query into a typed plan of traversal-builder
//! operations and prints that plan as a request handler. `protocol` holds the
//! values a handler returns and the per-element field remapping applied to
//! them. `ingestion_engine` holds the rules of the relational import tool,
//! `helix_engine` the errors of a request, and `text` the building blocks
//! of printed output.

pub mod helix_engine;
pub mod helixc;
pub mod ingestion_engine;
pub mod protocol;
pub mod text;
