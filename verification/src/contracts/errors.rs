//! Shared contract errors for identity public contracts.
use vstd::prelude::*;

verus! {

/// Minimal caller-safe contract error used by foundational value helpers.
#[derive(Debug, Eq, PartialEq)]
pub struct ContractError {
    /// Logical field or marker associated with the failure.
    pub field: String,
    /// Caller-safe message.
    pub message: String,
}

impl Clone for ContractError {
    fn clone(&self) -> (r: Self)
        ensures
            r == *self,
    {
        ContractError { field: self.field.clone(), message: self.message.clone() }
    }
}

impl ContractError {
    /// Creates an invalid-value contract error.
    pub fn invalid_value(field: &str, message: &str) -> (r: Self)
        ensures
            r.field@ == field@,
            r.message@ == message@,
    {
        ContractError { field: field.to_owned(), message: message.to_owned() }
    }
}

} // verus!
