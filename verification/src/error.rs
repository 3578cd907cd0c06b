//! The failure that a validation reports.

use vstd::prelude::*;

verus! {

/// A validation failure. The message is optional: `None` says that no detail
/// is available, which is not the same as an empty detail.
#[derive(Debug, PartialEq, Eq)]
pub struct ValidationError {
    pub message: Option<String>,
}

impl View for ValidationError {
    type V = Option<Seq<char>>;

    /// The message as a sequence of characters, where there is one.
    open spec fn view(&self) -> Option<Seq<char>> {
        match self.message {
            Some(text) => Some(text@),
            None => None,
        }
    }
}

impl ValidationError {
    /// A failure without any detail.
    pub fn without_message() -> (error: ValidationError)
        ensures
            error.message is None,
            error@ is None,
    {
        ValidationError { message: None }
    }

    /// A failure that carries `message` as its detail, kept as it is.
    pub fn with_message(message: String) -> (error: ValidationError)
        ensures
            error.message == Some(message),
            error@ == Some(message@),
    {
        ValidationError { message: Some(message) }
    }
}

impl From<Option<String>> for ValidationError {
    /// A failure with the detail given, or with none.
    fn from(message: Option<String>) -> (error: ValidationError) {
        ValidationError { message }
    }
}

impl vstd::std_specs::convert::FromSpecImpl<Option<String>> for ValidationError {
    open spec fn obeys_from_spec() -> bool {
        true
    }

    open spec fn from_spec(message: Option<String>) -> ValidationError {
        ValidationError { message }
    }
}

impl From<String> for ValidationError {
    /// A failure that carries `message` as its detail.
    fn from(message: String) -> (error: ValidationError) {
        ValidationError { message: Some(message) }
    }
}

impl vstd::std_specs::convert::FromSpecImpl<String> for ValidationError {
    open spec fn obeys_from_spec() -> bool {
        true
    }

    open spec fn from_spec(message: String) -> ValidationError {
        ValidationError { message: Some(message) }
    }
}

} // verus!
