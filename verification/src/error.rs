//! Errors as the runtime reports them: a kind to act on and a description to
//! read.

use vstd::prelude::*;

verus! {

/// How a caller might want to respond to an error.
#[derive(Clone, Copy, Debug, PartialEq, Eq, Structural)]
pub enum ErrorKind {
    /// Something went wrong; the usual kind.
    Failed,
    /// A temporary lack of resources. Passed through from callees only.
    Overloaded,
    /// The connection that the operation needed is gone.
    Disconnected,
    /// The requested method is not implemented. Passed through from callees
    /// only.
    Unimplemented,
}

/// An error that kept an operation from completing.
#[derive(Debug, PartialEq, Eq)]
pub struct Error {
    /// What code that reacts to the error should look at.
    pub kind: ErrorKind,
    /// Human-readable description.
    pub description: String,
}

impl Error {
    /// A general failure with the given description.
    pub fn failed(description: String) -> (e: Error)
        ensures
            e.kind == ErrorKind::Failed,
            e.description == description,
    {
        Error { kind: ErrorKind::Failed, description }
    }

    /// A temporary lack of resources.
    pub fn overloaded(description: String) -> (e: Error)
        ensures
            e.kind == ErrorKind::Overloaded,
            e.description == description,
    {
        Error { kind: ErrorKind::Overloaded, description }
    }

    /// A lost connection.
    pub fn disconnected(description: String) -> (e: Error)
        ensures
            e.kind == ErrorKind::Disconnected,
            e.description == description,
    {
        Error { kind: ErrorKind::Disconnected, description }
    }

    /// A method that the callee does not implement.
    pub fn unimplemented(description: String) -> (e: Error)
        ensures
            e.kind == ErrorKind::Unimplemented,
            e.description == description,
    {
        Error { kind: ErrorKind::Unimplemented, description }
    }

    /// True when the error has the given kind and its description reads as
    /// `text`.
    pub open spec fn reads(&self, kind: ErrorKind, text: Seq<char>) -> bool {
        self.kind == kind && self.description@ == text
    }
}

impl Clone for Error {
    /// A copy with the same kind and the same description.
    fn clone(&self) -> (e: Error)
        ensures
            e == *self,
    {
        Error { kind: self.kind, description: self.description.clone() }
    }
}

} // verus!
