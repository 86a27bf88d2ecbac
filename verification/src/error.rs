//! The error kinds that every operation of the library can surface.

use vstd::prelude::*;
use vstd::string::StringExecFns;

verus! {

/// A typed error value.  `NotFound` reports a resource that the remote
/// service (or a client-side list lookup) does not have; `InvalidArgument`
/// is the catch-all for malformed responses, unexpected HTTP statuses and
/// decode failures.  `Internal`, `PermissionDenied` and `AlreadyExists`
/// are reserved kinds that no operation currently produces.
#[derive(Debug)]
pub enum Error {
    Internal(String),
    NotFound(String),
    PermissionDenied(String),
    InvalidArgument(String),
    AlreadyExists(String),
}

impl Error {
    /// The human-readable message carried by the error.
    pub fn message(&self) -> (m: &String)
        ensures
            m@ == self.message_view(),
    {
        match self {
            Error::Internal(m) => m,
            Error::NotFound(m) => m,
            Error::PermissionDenied(m) => m,
            Error::InvalidArgument(m) => m,
            Error::AlreadyExists(m) => m,
        }
    }

    /// The message as a sequence of characters.
    pub open spec fn message_view(&self) -> Seq<char> {
        match self {
            Error::Internal(m) => m@,
            Error::NotFound(m) => m@,
            Error::PermissionDenied(m) => m@,
            Error::InvalidArgument(m) => m@,
            Error::AlreadyExists(m) => m@,
        }
    }
}

/// The decode error reported when a response value does not have the
/// shape a resource requires; `what` names the resource.
pub fn shape_error(what: &str) -> (e: Error)
    ensures
        e matches Error::InvalidArgument(m) && m@ == "failed to parse json: unexpected shape in "@
            + what@,
{
    Error::InvalidArgument("failed to parse json: unexpected shape in ".to_owned().concat(what))
}

} // verus!
