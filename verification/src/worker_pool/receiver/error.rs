//! The error type of the receive stage.

use vstd::prelude::*;

verus! {

/// The kinds of error of the receive stage.
#[derive(Debug, Clone, Copy, PartialEq, Eq, Hash, Structural)]
pub enum ErrorKind {
    InvalidInput,
}

/// An error of the receive stage: its kind, and what went wrong in words.
#[derive(Debug)]
pub struct Error {
    kind: ErrorKind,
    err: String,
}

impl Error {
    /// The kind of the error.
    pub closed spec fn spec_kind(&self) -> ErrorKind {
        self.kind
    }

    /// What went wrong, in words.
    pub closed spec fn spec_err(&self) -> Seq<char> {
        self.err@
    }

    /// An error of the given kind.
    pub fn new(kind: ErrorKind, err: String) -> (error: Error)
        ensures
            error.spec_kind() == kind,
            error.spec_err() == err@,
    {
        Error { kind, err }
    }

    /// The kind of the error.
    pub fn kind(&self) -> (kind: &ErrorKind)
        ensures
            *kind == self.spec_kind(),
    {
        &self.kind
    }

    /// What went wrong, in words.
    pub fn err(&self) -> (err: &String)
        ensures
            err@ == self.spec_err(),
    {
        &self.err
    }
}

} // verus!
