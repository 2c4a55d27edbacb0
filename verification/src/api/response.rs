//! The uniform error payload: a short machine-readable key and a
//! human-readable message.

use vstd::prelude::*;

verus! {

/// Ghost image of an error payload.
#[verifier::ext_equal]
pub ghost struct ErrorResponseView {
    pub error: Seq<char>,
    pub message: Seq<char>,
}

/// The error payload returned on every failure.
#[derive(Debug, Clone)]
pub struct ErrorResponse {
    error: String,
    message: String,
}

impl View for ErrorResponse {
    type V = ErrorResponseView;

    closed spec fn view(&self) -> ErrorResponseView {
        ErrorResponseView { error: self.error@, message: self.message@ }
    }
}

impl ErrorResponse {
    /// Assemble an error payload from its key and message.
    pub fn new(error: &str, message: &str) -> (r: ErrorResponse)
        ensures
            r@ == (ErrorResponseView { error: error@, message: message@ }),
    {
        ErrorResponse { error: String::from_str(error), message: String::from_str(message) }
    }

    pub fn error(&self) -> (r: &str)
        ensures
            r@ == self@.error,
    {
        self.error.as_str()
    }

    pub fn message(&self) -> (r: &str)
        ensures
            r@ == self@.message,
    {
        self.message.as_str()
    }
}

} // verus!
