//! The error a builder reports when its configuration is incomplete.

use vstd::prelude::*;

verus! {

/// The one recoverable error of this library: building was attempted while a
/// required field was still unset. The payload names that field, and when both
/// required fields are missing, `initial_state` is reported first.
#[derive(Debug, PartialEq, Eq)]
pub enum StateMachineError {
    MissingField(String),
}

impl StateMachineError {
    /// Returns the name of the field the builder was missing.
    pub fn field_name(&self) -> (name: &str)
        ensures
            self matches StateMachineError::MissingField(f) && name@ == f@,
    {
        match self {
            StateMachineError::MissingField(field) => field.as_str(),
        }
    }
}

} // verus!
