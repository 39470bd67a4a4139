//! Structured errors for the generation pipeline: a machine-readable kind
//! plus a human-readable message, set by the component that detects the
//! failure.

use vstd::prelude::*;

verus! {

/// What went wrong, as a machine-readable tag.
#[derive(Clone, Copy, Debug, PartialEq, Eq, Structural)]
pub enum ErrorKind {
    /// The requester could not be authenticated.
    NotAuthenticated,
    /// A referenced book, chapter or conversation does not exist or does not
    /// belong to the requester.
    NotFound,
    /// The text-completion backend failed for one stage of an operation.
    UpstreamGenerationFailure,
    /// The request was denied by the rate limiter before any backend call.
    RateLimited,
    /// The underlying document store reported an error.
    PersistenceFailure,
}

/// A pipeline failure: a kind for the machine and a message for a person.
#[derive(Clone, Debug)]
pub struct Error {
    pub kind: ErrorKind,
    pub message: String,
}

impl Error {
    /// Build an error of the given kind with the given message.
    pub fn new(kind: ErrorKind, message: &str) -> (r: Error)
        ensures
            r.kind == kind,
            r.message@ == message@,
    {
        Error { kind, message: message.to_owned() }
    }

    /// The human-readable message, for the caller's UI layer to render.
    pub fn text(&self) -> (r: String)
        ensures
            r@ == self.message@,
    {
        self.message.clone()
    }
}

} // verus!
