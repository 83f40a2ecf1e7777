//! The crate's error type.

use vstd::prelude::*;

verus! {

/// Errors of the Actions layer.
#[derive(Clone, Debug, PartialEq, Eq)]
pub enum ActionsError {
    /// Output failed validation (missing or invalid fields).
    Validation(String),
    /// (De)serialization failure.
    Serde(String),
    /// The model provider failed or answered with something unusable.
    Ai(String),
}

impl ActionsError {
    /// A validation error with the given message.
    pub fn validation(msg: String) -> (r: ActionsError)
        ensures
            r matches ActionsError::Validation(m) && m@ == msg@,
    {
        ActionsError::Validation(msg)
    }

    /// A (de)serialization error with the given message.
    pub fn serde(msg: String) -> (r: ActionsError)
        ensures
            r matches ActionsError::Serde(m) && m@ == msg@,
    {
        ActionsError::Serde(msg)
    }

    /// A model-provider error with the given message.
    pub fn ai(msg: String) -> (r: ActionsError)
        ensures
            r matches ActionsError::Ai(m) && m@ == msg@,
    {
        ActionsError::Ai(msg)
    }

    /// The text shown for the error: its kind, a colon and a space, then the
    /// message.
    pub open spec fn spec_message(&self) -> Seq<char> {
        match self {
            ActionsError::Validation(m) => "validation: "@ + m@,
            ActionsError::Serde(m) => "serde: "@ + m@,
            ActionsError::Ai(m) => "ai: "@ + m@,
        }
    }

    /// The text shown for the error (what `Display` prints for it).
    pub fn to_message(&self) -> (r: String)
        ensures
            r@ == self.spec_message(),
    {
        match self {
            ActionsError::Validation(m) => String::from_str("validation: ").concat(m.as_str()),
            ActionsError::Serde(m) => String::from_str("serde: ").concat(m.as_str()),
            ActionsError::Ai(m) => String::from_str("ai: ").concat(m.as_str()),
        }
    }
}

} // verus!
