//! Readiness flags of a resource.

use vstd::prelude::*;

verus! {

/// One of the two directions in which a resource can be ready.
#[derive(Debug, Clone, Copy, PartialEq, Eq, Structural)]
pub enum Direction {
    Read,
    Write,
}

/// A set of readiness flags: readable, writable and error.
#[derive(Debug, Clone, Copy, PartialEq, Eq, Structural)]
pub struct Ready {
    pub readable: bool,
    pub writable: bool,
    pub error: bool,
}

impl Ready {
    /// The set in which `dir` is ready: its own flag or the error flag is
    /// up. An error is reported to both directions.
    pub open spec fn covers(self, dir: Direction) -> bool {
        match dir {
            Direction::Read => self.readable || self.error,
            Direction::Write => self.writable || self.error,
        }
    }

    /// Flag-wise union.
    pub open spec fn union(self, other: Ready) -> Ready {
        Ready {
            readable: self.readable || other.readable,
            writable: self.writable || other.writable,
            error: self.error || other.error,
        }
    }

    /// `self` with the flag of `dir` taken down; the error flag stays.
    pub open spec fn without(self, dir: Direction) -> Ready {
        match dir {
            Direction::Read => Ready { readable: false, ..self },
            Direction::Write => Ready { writable: false, ..self },
        }
    }

    /// The empty set.
    pub fn empty() -> (r: Ready)
        ensures
            r == (Ready { readable: false, writable: false, error: false }),
    {
        Ready { readable: false, writable: false, error: false }
    }

    /// The set that holds only the readable flag.
    pub fn readable() -> (r: Ready)
        ensures
            r == (Ready { readable: true, writable: false, error: false }),
    {
        Ready { readable: true, writable: false, error: false }
    }

    /// The set that holds only the writable flag.
    pub fn writable() -> (r: Ready)
        ensures
            r == (Ready { readable: false, writable: true, error: false }),
    {
        Ready { readable: false, writable: true, error: false }
    }

    /// The set that holds only the error flag.
    pub fn error() -> (r: Ready)
        ensures
            r == (Ready { readable: false, writable: false, error: true }),
    {
        Ready { readable: false, writable: false, error: true }
    }

    /// True iff no flag is up.
    pub fn is_empty(&self) -> (b: bool)
        ensures
            b == (!self.readable && !self.writable && !self.error),
    {
        !self.readable && !self.writable && !self.error
    }

    /// True iff the readable flag is up.
    pub fn is_readable(&self) -> (b: bool)
        ensures
            b == self.readable,
    {
        self.readable
    }

    /// True iff the writable flag is up.
    pub fn is_writable(&self) -> (b: bool)
        ensures
            b == self.writable,
    {
        self.writable
    }

    /// True iff the error flag is up.
    pub fn is_error(&self) -> (b: bool)
        ensures
            b == self.error,
    {
        self.error
    }

    /// True iff `dir` is ready in this set.
    pub fn is_ready(&self, dir: Direction) -> (b: bool)
        ensures
            b == self.covers(dir),
    {
        match dir {
            Direction::Read => self.readable || self.error,
            Direction::Write => self.writable || self.error,
        }
    }

    /// The union of two sets.
    pub fn or(self, other: Ready) -> (r: Ready)
        ensures
            r == self.union(other),
    {
        Ready {
            readable: self.readable || other.readable,
            writable: self.writable || other.writable,
            error: self.error || other.error,
        }
    }

    /// This set with the flag of `dir` taken down.
    pub fn clear(self, dir: Direction) -> (r: Ready)
        ensures
            r == self.without(dir),
    {
        match dir {
            Direction::Read => Ready { readable: false, writable: self.writable, error: self.error },
            Direction::Write => Ready { readable: self.readable, writable: false, error: self.error },
        }
    }
}

} // verus!
