//! How a method invocation went, where it did not go well.

use vstd::prelude::*;

verus! {

/// The canonical status codes of remote procedure calls.
#[derive(Debug, Clone, Copy, PartialEq, Eq, Structural)]
pub enum StatusCode {
    Success,
    Cancelled,
    Unknown,
    InvalidArgument,
    DeadlineExceeded,
    NotFound,
    AlreadyExists,
    PermissionDenied,
    ResourceExhausted,
    FailedPrecondition,
    Aborted,
    OutOfRange,
    Unimplemented,
    Internal,
    Unavailable,
    DataLoss,
    Unauthenticated,
}

/// A status code, and what there is to say about it.
#[derive(Debug, PartialEq, Eq)]
pub struct Status {
    pub code: StatusCode,
    pub message: Option<String>,
}

impl Status {
    /// A status that says nothing beyond its code.
    pub fn new(code: StatusCode) -> (status: Status)
        ensures
            status == (Status { code, message: None }),
    {
        Status { code, message: None }
    }

    /// A status with a message.
    pub fn new_with_message(code: StatusCode, message: String) -> (status: Status)
        ensures
            status == (Status { code, message: Some(message) }),
    {
        Status { code, message: Some(message) }
    }
}

} // verus!
