//! The readiness bridge: one record per registered resource.
//!
//! A bridge keeps the readiness that the multiplexer has reported for its
//! resource and, for each direction, at most one continuation to invoke
//! when that direction becomes ready. The multiplexer reports a transition
//! once; the flags kept here stay up until the consumer takes one down
//! after an operation that would have blocked.

use vstd::prelude::*;
use crate::reactor::ready::{Direction, Ready};
use crate::task::Poll;

verus! {

/// The continuations that one readiness event releases, one per direction
/// at most.
#[derive(Debug)]
pub struct Wakeups<W> {
    pub read: Option<W>,
    pub write: Option<W>,
}

impl<W> Wakeups<W> {
    /// The continuation released for `dir`, if any.
    pub open spec fn get(self, dir: Direction) -> Option<W> {
        match dir {
            Direction::Read => self.read,
            Direction::Write => self.write,
        }
    }

    /// The released continuations in the order in which they are invoked:
    /// the reader's, then the writer's.
    pub open spec fn in_order(self) -> Seq<W> {
        let r = match self.read {
            Some(w) => seq![w],
            None => Seq::<W>::empty(),
        };
        match self.write {
            Some(w) => r.push(w),
            None => r,
        }
    }
}

/// The record that ties one registered resource to the tasks waiting on it.
///
/// `W` is the continuation of a suspended task: a value that the bridge
/// stores and hands back, and that it never looks into.
#[derive(Debug)]
pub struct Bridge<W> {
    /// The slot under which the resource is registered.
    pub slot: usize,
    /// The readiness reported so far and not yet cleared.
    pub readiness: Ready,
    /// The continuation of the task waiting to read.
    pub read_waker: Option<W>,
    /// The continuation of the task waiting to write.
    pub write_waker: Option<W>,
}

impl<W> Bridge<W> {
    /// The continuation stored for `dir`.
    pub open spec fn waker(self, dir: Direction) -> Option<W> {
        match dir {
            Direction::Read => self.read_waker,
            Direction::Write => self.write_waker,
        }
    }

    /// `self` with the continuation of `dir` replaced.
    pub open spec fn with_waker(self, dir: Direction, w: Option<W>) -> Bridge<W> {
        match dir {
            Direction::Read => Bridge { read_waker: w, ..self },
            Direction::Write => Bridge { write_waker: w, ..self },
        }
    }

    /// The record of a resource just registered under `slot`.
    pub open spec fn fresh(slot: usize) -> Bridge<W> {
        Bridge {
            slot,
            readiness: Ready { readable: false, writable: false, error: false },
            read_waker: None,
            write_waker: None,
        }
    }

    /// The record after a poll of `dir` by a task whose continuation is `w`:
    /// unchanged where `dir` is ready, else with `w` in place of whatever
    /// was stored for `dir`.
    pub open spec fn polled(self, dir: Direction, w: W) -> Bridge<W> {
        if self.readiness.covers(dir) {
            self
        } else {
            self.with_waker(dir, Some(w))
        }
    }

    /// What a poll of `dir` reports.
    pub open spec fn poll_result(self, dir: Direction) -> Poll<Ready> {
        if self.readiness.covers(dir) {
            Poll::Ready(self.readiness)
        } else {
            Poll::Pending
        }
    }

    /// The record after the consumer found that an operation in `dir`
    /// would block: the flag of `dir` is down and `w` is stored.
    pub open spec fn cleared(self, dir: Direction, w: W) -> Bridge<W> {
        Bridge { readiness: self.readiness.without(dir), ..self.with_waker(dir, Some(w)) }
    }

    /// The continuation that the event `ev` releases for `dir`.
    pub open spec fn woken(self, ev: Ready, dir: Direction) -> Option<W> {
        if ev.covers(dir) {
            self.waker(dir)
        } else {
            None
        }
    }

    /// The record after the event `ev`: its flags are added, and the
    /// continuation of each direction that `ev` covers is gone. No flag is
    /// taken down.
    pub open spec fn delivered(self, ev: Ready) -> Bridge<W> {
        Bridge {
            slot: self.slot,
            readiness: self.readiness.union(ev),
            read_waker: if ev.covers(Direction::Read) { None } else { self.read_waker },
            write_waker: if ev.covers(Direction::Write) { None } else { self.write_waker },
        }
    }

    /// The continuations that the event `ev` releases.
    pub open spec fn released(self, ev: Ready) -> Wakeups<W> {
        Wakeups { read: self.woken(ev, Direction::Read), write: self.woken(ev, Direction::Write) }
    }

    /// The record after a sequence of events, delivered in order with no
    /// poll or clear in between.
    pub open spec fn delivered_all(self, events: Seq<Ready>) -> Bridge<W>
        decreases events.len(),
    {
        if events.len() == 0 {
            self
        } else {
            self.delivered_all(events.drop_last()).delivered(events.last())
        }
    }

    /// The continuations that a sequence of events releases for `dir`, in
    /// order.
    pub open spec fn woken_all(self, events: Seq<Ready>, dir: Direction) -> Seq<W>
        decreases events.len(),
    {
        if events.len() == 0 {
            Seq::<W>::empty()
        } else {
            let before = self.woken_all(events.drop_last(), dir);
            match self.delivered_all(events.drop_last()).woken(events.last(), dir) {
                Some(w) => before.push(w),
                None => before,
            }
        }
    }

    /// A record for a resource registered under `slot`: nothing is ready
    /// and nobody waits.
    pub fn new(slot: usize) -> (b: Bridge<W>)
        ensures
            b == Self::fresh(slot),
    {
        Bridge { slot, readiness: Ready::empty(), read_waker: None, write_waker: None }
    }

    /// Polls `dir` for the task whose continuation is `waker`.
    ///
    /// Where `dir` is not ready, `waker` replaces the continuation stored
    /// for `dir` and the task is suspended. Where it is, the flags are
    /// reported as they stand and nothing changes: no flag is consumed.
    pub fn poll_ready(&mut self, dir: Direction, waker: W) -> (r: Poll<Ready>)
        ensures
            r == old(self).poll_result(dir),
            *final(self) == old(self).polled(dir, waker),
    {
        if self.readiness.is_ready(dir) {
            Poll::Ready(self.readiness)
        } else {
            match dir {
                Direction::Read => {
                    self.read_waker = Some(waker);
                },
                Direction::Write => {
                    self.write_waker = Some(waker);
                },
            }
            Poll::Pending
        }
    }

    /// Polls the read direction; see [`Bridge::poll_ready`].
    pub fn poll_read_ready(&mut self, waker: W) -> (r: Poll<Ready>)
        ensures
            r == old(self).poll_result(Direction::Read),
            *final(self) == old(self).polled(Direction::Read, waker),
    {
        self.poll_ready(Direction::Read, waker)
    }

    /// Polls the write direction; see [`Bridge::poll_ready`].
    pub fn poll_write_ready(&mut self, waker: W) -> (r: Poll<Ready>)
        ensures
            r == old(self).poll_result(Direction::Write),
            *final(self) == old(self).polled(Direction::Write, waker),
    {
        self.poll_ready(Direction::Write, waker)
    }

    /// Takes the flag of `dir` down and stores `waker` for it.
    ///
    /// The consumer calls this right after an operation in `dir` reported
    /// that it would block, and only then: after an operation that went
    /// through, the flag stays up for the next poll.
    pub fn clear_ready(&mut self, dir: Direction, waker: W)
        ensures
            *final(self) == old(self).cleared(dir, waker),
    {
        self.readiness = self.readiness.clear(dir);
        match dir {
            Direction::Read => {
                self.read_waker = Some(waker);
            },
            Direction::Write => {
                self.write_waker = Some(waker);
            },
        }
    }

    /// Clears the read direction; see [`Bridge::clear_ready`].
    pub fn clear_read_ready(&mut self, waker: W)
        ensures
            *final(self) == old(self).cleared(Direction::Read, waker),
    {
        self.clear_ready(Direction::Read, waker)
    }

    /// Clears the write direction; see [`Bridge::clear_ready`].
    pub fn clear_write_ready(&mut self, waker: W)
        ensures
            *final(self) == old(self).cleared(Direction::Write, waker),
    {
        self.clear_ready(Direction::Write, waker)
    }

    /// Records the readiness event `ev` and hands out the continuations to
    /// invoke for it.
    ///
    /// The flags of `ev` are added to those kept. For each direction that
    /// `ev` covers, the stored continuation is taken out of the record, so
    /// it is handed out once; the flags themselves are left for the
    /// consumer.
    pub fn deliver(&mut self, ev: Ready) -> (w: Wakeups<W>)
        ensures
            w == old(self).released(ev),
            *final(self) == old(self).delivered(ev),
    {
        self.readiness = self.readiness.or(ev);
        let read = if ev.is_ready(Direction::Read) {
            self.read_waker.take()
        } else {
            None
        };
        let write = if ev.is_ready(Direction::Write) {
            self.write_waker.take()
        } else {
            None
        };
        Wakeups { read, write }
    }
}

/// True iff some event of `events` covers `dir`.
pub open spec fn some_covers(events: Seq<Ready>, dir: Direction) -> bool {
    exists|i: int| 0 <= i < events.len() && (#[trigger] events[i]).covers(dir)
}

/// One event releases, for each direction, nobody or the one continuation
/// stored for it, and only where the event covers the direction. The
/// continuation is then gone from the record, so the next event cannot
/// release it again; the flags only grow.
pub proof fn law_event_releases_stored_waker_once<W>(b: Bridge<W>, ev: Ready, dir: Direction)
    ensures
        b.released(ev).get(dir) == (if ev.covers(dir) { b.waker(dir) } else { None::<W> }),
        ev.covers(dir) ==> b.delivered(ev).waker(dir) is None,
        !ev.covers(dir) ==> b.delivered(ev).waker(dir) == b.waker(dir),
        b.delivered(ev).readiness.covers(dir) == (b.readiness.covers(dir) || ev.covers(dir)),
        b.released(ev).in_order().len() <= 2,
{
}

/// Over any sequence of events, with no poll or clear in between, the
/// continuation stored for a direction is released exactly once where some
/// event covers the direction, and not at all where none does. Nobody else
/// is released for that direction, and nobody twice.
pub proof fn law_stored_waker_released_exactly_once<W>(
    b: Bridge<W>,
    events: Seq<Ready>,
    dir: Direction,
)
    ensures
        b.woken_all(events, dir) == (match b.waker(dir) {
            Some(w) => if some_covers(events, dir) { seq![w] } else { Seq::<W>::empty() },
            None => Seq::<W>::empty(),
        }),
        b.delivered_all(events).waker(dir) == (if some_covers(events, dir) {
            None::<W>
        } else {
            b.waker(dir)
        }),
    decreases events.len(),
{
    if events.len() > 0 {
        let head = events.drop_last();
        law_stored_waker_released_exactly_once(b, head, dir);
        if some_covers(head, dir) {
            let i = choose|i: int| 0 <= i < head.len() && (#[trigger] head[i]).covers(dir);
            assert(events[i].covers(dir));
        }
        if events.last().covers(dir) {
            assert(events[events.len() - 1].covers(dir));
        }
        if some_covers(events, dir) && !events.last().covers(dir) {
            let i = choose|i: int| 0 <= i < events.len() && (#[trigger] events[i]).covers(dir);
            assert(head[i].covers(dir));
        }
    }
}

/// After a clear of `dir` for a task, the events that follow resume that
/// task exactly once where one of them covers `dir`, whoever waited there
/// before: the wakeup of the most recent waiter is neither lost nor
/// repeated.
pub proof fn law_clear_arms_one_wakeup<W>(b: Bridge<W>, dir: Direction, w: W, events: Seq<Ready>)
    ensures
        b.cleared(dir, w).woken_all(events, dir) == (if some_covers(events, dir) {
            seq![w]
        } else {
            Seq::<W>::empty()
        }),
        !b.cleared(dir, w).readiness.covers(dir) || b.readiness.error,
{
    law_stored_waker_released_exactly_once(b.cleared(dir, w), events, dir);
}

/// A poll that suspends arms the same single wakeup as a clear; a poll
/// that finds the direction ready changes nothing and arms none.
pub proof fn law_poll_arms_one_wakeup<W>(b: Bridge<W>, dir: Direction, w: W, events: Seq<Ready>)
    ensures
        b.poll_result(dir) is Pending ==> b.polled(dir, w).woken_all(events, dir) == (
        if some_covers(events, dir) {
            seq![w]
        } else {
            Seq::<W>::empty()
        }),
        b.poll_result(dir) is Ready ==> b.polled(dir, w) == b,
{
    law_stored_waker_released_exactly_once(b.polled(dir, w), events, dir);
}

/// A task suspended on a direction is resumed by the first event that
/// covers the direction, and its next poll then finds the direction ready.
pub proof fn law_event_resumes_suspended_poll<W>(b: Bridge<W>, dir: Direction, w: W, ev: Ready)
    requires
        b.poll_result(dir) is Pending,
        ev.covers(dir),
    ensures
        b.polled(dir, w).released(ev).get(dir) == Some(w),
        b.polled(dir, w).delivered(ev).poll_result(dir) is Ready,
{
}

/// An operation that went through leaves the flag up: polls of the same
/// direction keep reporting the same readiness until it is cleared.
pub proof fn law_ready_poll_is_repeatable<W>(b: Bridge<W>, dir: Direction, w1: W, w2: W)
    requires
        b.readiness.covers(dir),
    ensures
        b.polled(dir, w1) == b,
        b.polled(dir, w1).poll_result(dir) == b.poll_result(dir),
        b.polled(dir, w1).polled(dir, w2) == b,
{
}

} // verus!
