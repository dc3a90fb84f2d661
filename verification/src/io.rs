//! Errors of non-blocking operations.

use vstd::prelude::*;

verus! {

/// The kind of an I/O error.
#[derive(Debug, Clone, Copy, PartialEq, Eq, Structural)]
pub enum ErrorKind {
    NotFound,
    PermissionDenied,
    ConnectionRefused,
    ConnectionReset,
    ConnectionAborted,
    NotConnected,
    AddrInUse,
    AddrNotAvailable,
    BrokenPipe,
    AlreadyExists,
    /// The operation cannot complete now and did not block.
    WouldBlock,
    InvalidInput,
    InvalidData,
    TimedOut,
    WriteZero,
    Interrupted,
    UnexpectedEof,
    Other,
}

/// An I/O error, as far as the reactor looks at it: its kind.
#[derive(Debug, Clone, Copy, PartialEq, Eq, Structural)]
pub struct Error {
    pub kind: ErrorKind,
}

impl Error {
    /// An error of the given kind.
    pub fn new(kind: ErrorKind) -> (e: Error)
        ensures
            e.kind == kind,
    {
        Error { kind }
    }

    /// The kind of this error.
    pub fn kind(&self) -> (k: ErrorKind)
        ensures
            k == self.kind,
    {
        self.kind
    }
}

} // verus!
