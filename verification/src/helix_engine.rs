//! What the storage engine shares with its callers.

pub mod types;
