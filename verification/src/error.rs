//! The application's domain error.
use vstd::prelude::*;

verus! {

/// The class of a domain error.
#[derive(Debug, Clone, Copy, PartialEq, Eq, Structural)]
pub enum ErrorCode {
    InvalidInput,
    MissingEntity,
}

/// A domain error: its class and a message for people.
#[derive(Debug, Clone, PartialEq, Eq)]
pub struct RfError {
    pub code: ErrorCode,
    pub message: String,
}

impl RfError {
    /// An invalid-input error with `message`.
    pub fn invalid_input(message: String) -> (r: Self)
        ensures
            r.code == ErrorCode::InvalidInput,
            r.message@ == message@,
    {
        RfError { code: ErrorCode::InvalidInput, message }
    }

    /// The error's message.
    pub fn message(&self) -> (r: &str)
        ensures
            r@ == self.message@,
    {
        self.message.as_str()
    }
}

} // verus!
