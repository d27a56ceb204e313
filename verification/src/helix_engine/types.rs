use vstd::prelude::*;
use vstd::string::*;

verus! {

/// Why a request failed. Every failure fails the whole request.
#[derive(Debug)]
pub enum GraphError {
    /// The request body does not match the input schema of the query.
    DeserializationError(String),
    /// A projection named a property that an element does not have.
    ConversionError(String),
    /// The storage engine failed.
    StorageError(String),
}

impl GraphError {
    /// The detail the error carries.
    pub fn message(&self) -> (text: String)
        ensures
            text@ == (match *self {
                GraphError::DeserializationError(detail) => detail@,
                GraphError::ConversionError(detail) => detail@,
                GraphError::StorageError(detail) => detail@,
            }),
    {
        match self {
            GraphError::DeserializationError(detail) => detail.clone(),
            GraphError::ConversionError(detail) => detail.clone(),
            GraphError::StorageError(detail) => detail.clone(),
        }
    }
}

} // verus!
