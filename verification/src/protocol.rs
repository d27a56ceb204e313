//! Values exchanged with a caller at request time.

pub mod association;
pub mod conversions;
pub mod count;
pub mod equality;
pub mod filterable;
pub mod items;
pub mod laws;
pub mod remapping;
pub mod return_values;
pub mod traversal_value;
pub mod value;
