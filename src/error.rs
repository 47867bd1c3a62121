//! Errors that a request can end in, with their HTTP status.

use vstd::prelude::*;

verus! {

#[derive(Clone, Copy, Debug, PartialEq, Eq, Structural)]
pub enum ErrorKind {
    /// The request itself is malformed.
    BadRequest,
    /// The request is well formed but nothing matches it.
    NotFound,
    /// The database failed or answered out of contract.
    Internal,
}

pub open spec fn status_of(kind: ErrorKind) -> u16 {
    match kind {
        ErrorKind::BadRequest => 400,
        ErrorKind::NotFound => 404,
        ErrorKind::Internal => 500,
    }
}

/// An error response: its kind, which fixes the status, and the body text.
#[derive(Clone, Debug, PartialEq, Eq)]
pub struct ApiError {
    pub kind: ErrorKind,
    pub message: String,
}

impl ApiError {
    pub fn new(kind: ErrorKind, message: String) -> (r: ApiError)
        ensures
            r.kind == kind,
            r.message == message,
    {
        ApiError { kind, message }
    }

    /// The HTTP status code of the response.
    pub fn status(&self) -> (r: u16)
        ensures
            r == status_of(self.kind),
    {
        match self.kind {
            ErrorKind::BadRequest => 400,
            ErrorKind::NotFound => 404,
            ErrorKind::Internal => 500,
        }
    }
}

} // verus!
