//! The rules of the import of a relational database into the graph.

pub mod sqlite;
