//! Application-level errors raised by read and write flows.
use vstd::prelude::*;

verus! {

/// Family of an application error.
#[derive(Clone, Copy, Debug, Eq, PartialEq, Structural)]
pub enum ApplicationErrorKind {
    /// The request cannot be served as it stands.
    InvalidRequest,
    /// The requested material does not exist.
    NotFound,
    /// Stored or resolved material contradicts an invariant of the flow.
    ConsistencyDefect,
    /// A dependency the flow reads from is unavailable.
    DependencyUnavailable,
}

/// Caller-safe application error: its family and a message.
#[derive(Debug, Eq, PartialEq)]
pub struct ApplicationError {
    /// Error family.
    pub kind: ApplicationErrorKind,
    /// Caller-safe message.
    pub message: String,
}

impl Clone for ApplicationError {
    fn clone(&self) -> (r: Self)
        ensures
            r == *self,
    {
        ApplicationError { kind: self.kind, message: self.message.clone() }
    }
}

impl ApplicationError {
    /// Creates an invalid-request error.
    pub fn invalid_request(message: &str) -> (r: Self)
        ensures
            r.kind == ApplicationErrorKind::InvalidRequest,
            r.message@ == message@,
    {
        ApplicationError { kind: ApplicationErrorKind::InvalidRequest, message: message.to_owned() }
    }

    /// Creates a not-found error.
    pub fn not_found(message: &str) -> (r: Self)
        ensures
            r.kind == ApplicationErrorKind::NotFound,
            r.message@ == message@,
    {
        ApplicationError { kind: ApplicationErrorKind::NotFound, message: message.to_owned() }
    }

    /// Creates a consistency-defect error.
    pub fn consistency_defect(message: &str) -> (r: Self)
        ensures
            r.kind == ApplicationErrorKind::ConsistencyDefect,
            r.message@ == message@,
    {
        ApplicationError { kind: ApplicationErrorKind::ConsistencyDefect, message: message.to_owned() }
    }

    /// Creates a dependency-unavailable error.
    pub fn dependency_unavailable(message: &str) -> (r: Self)
        ensures
            r.kind == ApplicationErrorKind::DependencyUnavailable,
            r.message@ == message@,
    {
        ApplicationError { kind: ApplicationErrorKind::DependencyUnavailable, message: message.to_owned() }
    }

    /// Returns whether the error reports an unavailable dependency.
    pub fn is_dependency_unavailable(&self) -> (r: bool)
        ensures
            r == (self.kind == ApplicationErrorKind::DependencyUnavailable),
    {
        matches!(self.kind, ApplicationErrorKind::DependencyUnavailable)
    }
}

} // verus!
