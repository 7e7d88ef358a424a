use vstd::prelude::*;

verus! {

/// The kinds of failure that the link operations report.
#[derive(Debug, Clone, Copy, PartialEq, Eq, Structural)]
pub enum ErrorResponseType {
    BadRequest,
    Forbidden,
    InvalidUsage,
    NotFound,
    Storage,
    Unauthorized,
}

/// A failure with its kind and a human readable message.
#[derive(Debug)]
pub struct ErrorResponse {
    pub error: ErrorResponseType,
    pub message: String,
}

impl ErrorResponse {
    pub fn new(error: ErrorResponseType, message: String) -> (r: ErrorResponse)
        ensures
            r.error == error,
            r.message@ == message@,
    {
        ErrorResponse { error, message }
    }

    /// True when the error has the given kind and exactly the given message.
    pub open spec fn is(self, error: ErrorResponseType, message: Seq<char>) -> bool {
        self.error == error && self.message@ == message
    }
}

} // verus!
