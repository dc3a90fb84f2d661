//! A Unix datagram socket as the reactor sees it.
//!
//! The socket itself belongs to the caller, who makes the system calls.
//! What stands here is the protocol around each call: poll the direction;
//! where it is not ready, suspend; else try the call; where the call would
//! have blocked, clear the direction and suspend; else hand the call's
//! result on as it is, failures included.

use vstd::prelude::*;
use crate::io::{Error, ErrorKind};
use crate::reactor::poll_evented::PollEvented;
use crate::reactor::ready::{Direction, Ready};
use crate::reactor::{Reactor, ReactorState};
use crate::task::Poll;

verus! {

/// True iff `r` is the failure of an operation that would have blocked.
pub open spec fn would_block<T>(r: Result<T, Error>) -> bool {
    r matches Err(e) && e.kind == ErrorKind::WouldBlock
}

/// What an operation on the resource under `slot` reports once its system
/// call has returned `attempt`: suspension where the call would have
/// blocked, else the call's result, unmodified. Where the call would have
/// blocked and nothing is registered under `slot`, the direction cannot be
/// cleared, and that failure is reported.
pub open spec fn attempt_result<W, T>(
    st: ReactorState<W>,
    slot: int,
    attempt: Result<T, Error>,
) -> Poll<Result<T, Error>> {
    if !would_block(attempt) {
        Poll::Ready(attempt)
    } else if st.registered(slot) {
        Poll::Pending
    } else {
        Poll::Ready(Err(Error { kind: ErrorKind::Other }))
    }
}

/// The reactor's state once the system call of an operation in `dir` on
/// the resource under `slot` has returned `attempt`: the direction is
/// cleared for the task where the call would have blocked, and nothing
/// changes where it did not.
pub open spec fn after_attempt<W, T>(
    st: ReactorState<W>,
    slot: int,
    dir: Direction,
    waker: W,
    attempt: Result<T, Error>,
) -> ReactorState<W> {
    if would_block(attempt) {
        st.cleared(slot, dir, waker)
    } else {
        st
    }
}

/// True iff an operation in `dir` on the resource under `slot` makes its
/// system call: the poll of `dir` finds the direction ready.
pub open spec fn attempts<W>(st: ReactorState<W>, slot: int, dir: Direction) -> bool {
    st.poll_result(slot, dir) matches Poll::Ready(Ok(_))
}

/// What an operation in `dir` on the resource under `slot` reports and
/// leaves behind where it makes no system call, for the task whose
/// continuation is `waker`: the task is suspended with its continuation
/// stored, or, where nothing is registered under `slot`, the poll's
/// failure is reported and nothing changes.
pub open spec fn not_attempted<W, T>(st: ReactorState<W>, slot: int, dir: Direction, waker: W) -> (
    Poll<Result<T, Error>>,
    ReactorState<W>,
) {
    match st.poll_result(slot, dir) {
        Poll::Ready(Err(e)) => (Poll::Ready(Err(e)), st),
        _ => (Poll::Pending, st.polled(slot, dir, waker)),
    }
}

/// What an operation in `dir` on the resource under `slot` reports and
/// leaves behind where its system call returned `attempt`.
pub open spec fn attempted<W, T>(
    st: ReactorState<W>,
    slot: int,
    dir: Direction,
    waker: W,
    attempt: Result<T, Error>,
) -> (Poll<Result<T, Error>>, ReactorState<W>) {
    (attempt_result(st, slot, attempt), after_attempt(st, slot, dir, waker, attempt))
}

/// An operation that suspends its task has stored the task's continuation
/// for the direction, whether it made the system call or not; so the next
/// event that covers the direction resumes the task. An operation whose
/// system call did not report that it would block leaves the reactor as
/// it was, readiness included, and reports the call's result itself.
pub proof fn law_suspended_operation_is_armed<W, T>(
    st: ReactorState<W>,
    slot: int,
    dir: Direction,
    waker: W,
    attempt: Result<T, Error>,
)
    requires
        st.registered(slot),
    ensures
        !attempts(st, slot, dir) ==> {
            let (r, after) = not_attempted::<W, T>(st, slot, dir, waker);
            r is Pending && after.bridge(slot).waker(dir) == Some(waker)
                && after.bridge(slot).readiness == st.bridge(slot).readiness
        },
        attempts(st, slot, dir) && would_block(attempt) ==> {
            let (r, after) = attempted(st, slot, dir, waker, attempt);
            r is Pending && after.bridge(slot).waker(dir) == Some(waker)
                && after.bridge(slot).readiness == st.bridge(slot).readiness.without(dir)
        },
        attempts(st, slot, dir) && !would_block(attempt) ==> attempted(
            st,
            slot,
            dir,
            waker,
            attempt,
        ) == (Poll::Ready(attempt), st),
{
}

/// An I/O object representing a Unix datagram socket.
#[derive(Debug)]
pub struct UnixDatagram {
    io: PollEvented,
}

/// Tells whether `r` is the failure of an operation that would have
/// blocked. Every other failure, and every success, is a final result.
pub fn is_wouldblock<T>(r: &Result<T, Error>) -> (b: bool)
    ensures
        b == would_block(*r),
{
    match r {
        Ok(_) => false,
        Err(e) => e.kind() == ErrorKind::WouldBlock,
    }
}

impl UnixDatagram {
    /// The slot under which the socket is registered.
    pub closed spec fn spec_slot(&self) -> usize {
        self.io.spec_slot()
    }

    /// Wraps a socket that is registered under `io`.
    pub fn new(io: PollEvented) -> (s: UnixDatagram)
        ensures
            s.spec_slot() == io.spec_slot(),
    {
        UnixDatagram { io }
    }

    /// The slot under which the socket is registered.
    pub fn slot(&self) -> (s: usize)
        ensures
            s == self.spec_slot(),
    {
        self.io.slot()
    }

    /// Test whether this socket is ready to be read or not.
    pub fn poll_read_ready<W>(&self, reactor: &mut Reactor<W>, waker: W) -> (r: Poll<
        Result<Ready, Error>,
    >)
        requires
            old(reactor).wf(),
        ensures
            final(reactor).wf(),
            r == old(reactor)@.poll_result(self.spec_slot() as int, Direction::Read),
            final(reactor)@ == old(reactor)@.polled(
                self.spec_slot() as int,
                Direction::Read,
                waker,
            ),
    {
        self.io.poll_read_ready(reactor, waker)
    }

    /// Test whether this socket is ready to be written to or not.
    pub fn poll_write_ready<W>(&self, reactor: &mut Reactor<W>, waker: W) -> (r: Poll<
        Result<Ready, Error>,
    >)
        requires
            old(reactor).wf(),
        ensures
            final(reactor).wf(),
            r == old(reactor)@.poll_result(self.spec_slot() as int, Direction::Write),
            final(reactor)@ == old(reactor)@.polled(
                self.spec_slot() as int,
                Direction::Write,
                waker,
            ),
    {
        self.io.poll_write_ready(reactor, waker)
    }

    /// Finishes an operation in `dir` whose system call has returned
    /// `attempt`, for the task whose continuation is `waker`.
    ///
    /// Where the call would have blocked, the direction is cleared, the
    /// continuation is stored and the task is suspended. Every other
    /// result is handed on as it is, and the readiness stays up: another
    /// poll may see it until the kernel says otherwise.
    pub fn finish<W, T>(
        &self,
        reactor: &mut Reactor<W>,
        dir: Direction,
        waker: W,
        attempt: Result<T, Error>,
    ) -> (r: Poll<Result<T, Error>>)
        requires
            old(reactor).wf(),
        ensures
            final(reactor).wf(),
            r == attempt_result(old(reactor)@, self.spec_slot() as int, attempt),
            final(reactor)@ == after_attempt(
                old(reactor)@,
                self.spec_slot() as int,
                dir,
                waker,
                attempt,
            ),
    {
        if is_wouldblock(&attempt) {
            match reactor.clear_ready(self.io.slot(), dir, waker) {
                Ok(()) => Poll::Pending,
                Err(e) => Poll::Ready(Err(e)),
            }
        } else {
            Poll::Ready(attempt)
        }
    }

    /// Runs one operation in `dir`: polls the direction, makes the system
    /// call `op` where the direction is ready, and finishes with what the
    /// call returned.
    fn poll_io<W, T, F: FnOnce() -> Result<T, Error>>(
        &self,
        reactor: &mut Reactor<W>,
        dir: Direction,
        waker: W,
        op: F,
    ) -> (r: Poll<Result<T, Error>>)
        requires
            old(reactor).wf(),
            call_requires(op, ()),
        ensures
            final(reactor).wf(),
            !attempts(old(reactor)@, self.spec_slot() as int, dir) ==> (r, final(reactor)@)
                == not_attempted::<W, T>(old(reactor)@, self.spec_slot() as int, dir, waker),
            attempts(old(reactor)@, self.spec_slot() as int, dir) ==> exists|
                attempt: Result<T, Error>,
            |
                call_ensures(op, (), attempt) && (r, final(reactor)@) == attempted(
                    old(reactor)@,
                    self.spec_slot() as int,
                    dir,
                    waker,
                    attempt,
                ),
    {
        let slot = self.io.slot();
        let ready = match reactor.readiness(slot) {
            Some(flags) => flags.is_ready(dir),
            None => false,
        };
        if ready {
            let attempt = op();
            let r = self.finish(reactor, dir, waker, attempt);
            proof {
                assert(call_ensures(op, (), attempt) && (r, reactor@) == attempted(
                    old(reactor)@,
                    self.spec_slot() as int,
                    dir,
                    waker,
                    attempt,
                ));
            }
            r
        } else {
            match reactor.poll_ready(slot, dir, waker) {
                Poll::Ready(Ok(_)) => Poll::Pending,
                Poll::Ready(Err(e)) => Poll::Ready(Err(e)),
                Poll::Pending => Poll::Pending,
            }
        }
    }

    /// Receives data from the socket.
    ///
    /// `recv` makes the system call. It is called at most once, and only
    /// where the socket is ready to be read. On success, the call's
    /// result is returned as it is.
    pub fn poll_recv_from<W, T, F: FnOnce() -> Result<T, Error>>(
        &self,
        reactor: &mut Reactor<W>,
        waker: W,
        recv: F,
    ) -> (r: Poll<Result<T, Error>>)
        requires
            old(reactor).wf(),
            call_requires(recv, ()),
        ensures
            final(reactor).wf(),
            !attempts(old(reactor)@, self.spec_slot() as int, Direction::Read) ==> (r, final(reactor)@)
                == not_attempted::<W, T>(old(reactor)@, self.spec_slot() as int, Direction::Read, waker),
            attempts(old(reactor)@, self.spec_slot() as int, Direction::Read) ==> exists|
                attempt: Result<T, Error>,
            |
                call_ensures(recv, (), attempt) && (r, final(reactor)@) == attempted(
                    old(reactor)@,
                    self.spec_slot() as int,
                    Direction::Read,
                    waker,
                    attempt,
                ),
    {
        self.poll_io(reactor, Direction::Read, waker, recv)
    }

    /// Sends data on the socket.
    ///
    /// `send` makes the system call. It is called at most once, and only
    /// where the socket is ready to be written to. On success, the call's
    /// result is returned as it is.
    pub fn poll_send_to<W, T, F: FnOnce() -> Result<T, Error>>(
        &self,
        reactor: &mut Reactor<W>,
        waker: W,
        send: F,
    ) -> (r: Poll<Result<T, Error>>)
        requires
            old(reactor).wf(),
            call_requires(send, ()),
        ensures
            final(reactor).wf(),
            !attempts(old(reactor)@, self.spec_slot() as int, Direction::Write) ==> (r, final(reactor)@)
                == not_attempted::<W, T>(old(reactor)@, self.spec_slot() as int, Direction::Write, waker),
            attempts(old(reactor)@, self.spec_slot() as int, Direction::Write) ==> exists|
                attempt: Result<T, Error>,
            |
                call_ensures(send, (), attempt) && (r, final(reactor)@) == attempted(
                    old(reactor)@,
                    self.spec_slot() as int,
                    Direction::Write,
                    waker,
                    attempt,
                ),
    {
        self.poll_io(reactor, Direction::Write, waker, send)
    }
}

} // verus!
