//! The result of polling an operation that may have to wait.

use vstd::prelude::*;

verus! {

/// Whether a polled operation has completed.
#[derive(Debug, PartialEq, Eq, Structural)]
pub enum Poll<T> {
    /// The operation completed with this value.
    Ready(T),
    /// The operation cannot complete yet; the polling task is suspended
    /// until the continuation it handed over is invoked.
    Pending,
}

impl<T> Poll<T> {
    /// True iff the operation completed.
    pub fn is_ready(&self) -> (b: bool)
        ensures
            b == (*self is Ready),
    {
        match self {
            Poll::Ready(_) => true,
            Poll::Pending => false,
        }
    }

    /// True iff the polling task was suspended.
    pub fn is_pending(&self) -> (b: bool)
        ensures
            b == (*self is Pending),
    {
        match self {
            Poll::Ready(_) => false,
            Poll::Pending => true,
        }
    }
}

} // verus!
