//! The error type shared by every capability method of this layer.
//!
//! The taxonomy is deliberately small: a read that ended before the
//! requested bytes could be produced, a write that could make no progress,
//! and an opaque failure of an underlying host stream. Conversion from a
//! host error is total: every host failure maps to one of these kinds.

use vstd::prelude::*;

verus! {

/// The kind of failure a capability method reports.
#[derive(Clone, Copy, Debug, PartialEq, Eq, Structural)]
pub enum ErrorKind {
    /// The source ended before the requested number of bytes was produced.
    UnexpectedEof,
    /// The destination accepted no bytes while some remained to be written.
    WriteZero,
    /// An opaque failure of the underlying host stream.
    Other,
}

/// An I/O failure, carrying only its [`ErrorKind`].
#[derive(Clone, Copy, Debug, PartialEq, Eq, Structural)]
pub struct Error {
    kind: ErrorKind,
}

impl Error {
    /// The kind of this error, as seen by specifications.
    pub closed spec fn spec_kind(self) -> ErrorKind {
        self.kind
    }

    /// Builds an error of the given kind.
    pub fn new(kind: ErrorKind) -> (r: Error)
        ensures
            r.spec_kind() == kind,
    {
        Error { kind }
    }

    /// The kind of this error.
    pub fn kind(&self) -> (r: ErrorKind)
        ensures
            r == self.spec_kind(),
    {
        self.kind
    }
}

} // verus!
