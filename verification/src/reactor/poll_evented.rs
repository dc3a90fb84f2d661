//! The consumer's end of a readiness bridge.

use vstd::prelude::*;
use crate::io::Error;
use crate::reactor::ready::{Direction, Ready};
use crate::reactor::Reactor;
use crate::task::Poll;

verus! {

/// The registration of one resource with a reactor: the slot of its
/// bridge. A resource that operates without blocking holds one beside its
/// raw handle and asks through it whether to try an operation.
#[derive(Debug, PartialEq, Eq)]
pub struct PollEvented {
    slot: usize,
}

impl PollEvented {
    /// The slot of the registration.
    pub closed spec fn spec_slot(&self) -> usize {
        self.slot
    }

    /// Registers a resource with `reactor`, with interest in both
    /// directions; see [`Reactor::register`]. Returns `None` where the
    /// reactor's table is full.
    pub fn new<W>(reactor: &mut Reactor<W>) -> (io: Option<PollEvented>)
        requires
            old(reactor).wf(),
        ensures
            final(reactor).wf(),
            match io {
                Some(p) => {
                    &&& !old(reactor)@.is_full()
                    &&& old(reactor)@.is_first_free(p.spec_slot() as int)
                    &&& final(reactor)@ == old(reactor)@.with_slot(
                        p.spec_slot() as int,
                        Some(crate::reactor::bridge::Bridge::fresh(p.spec_slot())),
                    )
                },
                None => old(reactor)@.is_full() && final(reactor)@ == old(reactor)@,
            },
    {
        match reactor.register() {
            Some(slot) => Some(PollEvented { slot }),
            None => None,
        }
    }

    /// The slot of the registration.
    pub fn slot(&self) -> (s: usize)
        ensures
            s == self.spec_slot(),
    {
        self.slot
    }

    /// Polls the read direction for the task whose continuation is
    /// `waker`; see [`Reactor::poll_ready`].
    pub fn poll_read_ready<W>(&self, reactor: &mut Reactor<W>, waker: W) -> (r: Poll<
        Result<Ready, Error>,
    >)
        requires
            old(reactor).wf(),
        ensures
            final(reactor).wf(),
            r == old(reactor)@.poll_result(self.spec_slot() as int, Direction::Read),
            final(reactor)@ == old(reactor)@.polled(
                self.spec_slot() as int,
                Direction::Read,
                waker,
            ),
    {
        reactor.poll_ready(self.slot, Direction::Read, waker)
    }

    /// Polls the write direction for the task whose continuation is
    /// `waker`; see [`Reactor::poll_ready`].
    pub fn poll_write_ready<W>(&self, reactor: &mut Reactor<W>, waker: W) -> (r: Poll<
        Result<Ready, Error>,
    >)
        requires
            old(reactor).wf(),
        ensures
            final(reactor).wf(),
            r == old(reactor)@.poll_result(self.spec_slot() as int, Direction::Write),
            final(reactor)@ == old(reactor)@.polled(
                self.spec_slot() as int,
                Direction::Write,
                waker,
            ),
    {
        reactor.poll_ready(self.slot, Direction::Write, waker)
    }

    /// Takes the read flag down after a read that would have blocked and
    /// stores `waker`; see [`Reactor::clear_ready`].
    pub fn clear_read_ready<W>(&self, reactor: &mut Reactor<W>, waker: W) -> (r: Result<
        (),
        Error,
    >)
        requires
            old(reactor).wf(),
        ensures
            final(reactor).wf(),
            r is Ok == old(reactor)@.registered(self.spec_slot() as int),
            r matches Err(e) ==> e.kind == crate::io::ErrorKind::Other,
            final(reactor)@ == old(reactor)@.cleared(
                self.spec_slot() as int,
                Direction::Read,
                waker,
            ),
    {
        reactor.clear_ready(self.slot, Direction::Read, waker)
    }

    /// Takes the write flag down after a write that would have blocked
    /// and stores `waker`; see [`Reactor::clear_ready`].
    pub fn clear_write_ready<W>(&self, reactor: &mut Reactor<W>, waker: W) -> (r: Result<
        (),
        Error,
    >)
        requires
            old(reactor).wf(),
        ensures
            final(reactor).wf(),
            r is Ok == old(reactor)@.registered(self.spec_slot() as int),
            r matches Err(e) ==> e.kind == crate::io::ErrorKind::Other,
            final(reactor)@ == old(reactor)@.cleared(
                self.spec_slot() as int,
                Direction::Write,
                waker,
            ),
    {
        reactor.clear_ready(self.slot, Direction::Write, waker)
    }

    /// Releases the registration; see [`Reactor::deregister`].
    pub fn deregister<W>(self, reactor: &mut Reactor<W>) -> (was: bool)
        requires
            old(reactor).wf(),
        ensures
            final(reactor).wf(),
            was == old(reactor)@.registered(self.spec_slot() as int),
            was ==> final(reactor)@ == old(reactor)@.with_slot(self.spec_slot() as int, None),
            !was ==> final(reactor)@ == old(reactor)@,
    {
        reactor.deregister(self.slot)
    }
}

} // verus!
