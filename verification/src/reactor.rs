//! The reactor: the table of registered resources and the dispatch of
//! readiness events to the tasks that wait for them.
//!
//! The reactor does not block and does not call the multiplexer. Its owner
//! blocks on the multiplexer, hands the drained events to [`Reactor::turn`]
//! and invokes the continuations that come back.

pub mod ready;
pub mod bridge;
pub mod background;
pub mod poll_evented;

use vstd::prelude::*;
use crate::io::{Error, ErrorKind};
use crate::reactor::bridge::{Bridge, Wakeups};
use crate::reactor::ready::{Direction, Ready};
use crate::task::Poll;

verus! {

/// The token under which the cross-thread interrupt is registered with the
/// multiplexer. No resource is registered under it.
pub const TOKEN_WAKEUP: usize = 0;

/// The token of the resource in slot 0; the resource in slot `s` has the
/// token `TOKEN_START + s`.
pub const TOKEN_START: usize = 1;

/// One readiness event as the multiplexer reports it.
#[derive(Debug, Clone, Copy, PartialEq, Eq, Structural)]
pub struct Event {
    /// The token of the resource, or [`TOKEN_WAKEUP`].
    pub token: usize,
    /// The readiness reported.
    pub readiness: Ready,
}

impl Event {
    /// The slot that the event's token stands for; negative for the
    /// interrupt's token, which stands for no slot.
    pub open spec fn slot(self) -> int {
        self.token - TOKEN_START
    }
}

/// The token under which the resource in `slot` is registered with the
/// multiplexer, or `None` where `slot` is too large to have one.
pub fn token_of(slot: usize) -> (t: Option<usize>)
    ensures
        t == if slot < usize::MAX {
            Some((slot + TOKEN_START) as usize)
        } else {
            None
        },
{
    if slot < usize::MAX {
        Some(slot + TOKEN_START)
    } else {
        None
    }
}

/// The slot that `token` stands for, or `None` for the interrupt's token.
pub fn slot_of(token: usize) -> (s: Option<usize>)
    ensures
        s == if token == TOKEN_WAKEUP {
            None
        } else {
            Some((token - TOKEN_START) as usize)
        },
{
    if token == TOKEN_WAKEUP {
        None
    } else {
        Some(token - TOKEN_START)
    }
}

/// What a reactor holds, as contracts see it.
pub struct ReactorState<W> {
    /// The table of registered resources, indexed by slot; a free slot
    /// holds `None`.
    pub slots: Seq<Option<Bridge<W>>>,
    /// Whether an interrupt was requested that no turn has consumed yet.
    pub wakeup_pending: bool,
}

impl<W> ReactorState<W> {
    /// True iff a resource is registered under `slot`.
    pub open spec fn registered(self, slot: int) -> bool {
        0 <= slot < self.slots.len() && self.slots[slot] is Some
    }

    /// The record of the resource registered under `slot`.
    pub open spec fn bridge(self, slot: int) -> Bridge<W>
        recommends
            self.registered(slot),
    {
        self.slots[slot]->0
    }

    /// True iff no resource is registered.
    pub open spec fn is_idle(self) -> bool {
        forall|i: int| 0 <= i < self.slots.len() ==> self.slots[i] is None
    }

    /// True iff `slot` is the lowest free slot: the first one that holds
    /// nothing, or the end of the table where every slot is taken.
    pub open spec fn is_first_free(self, slot: int) -> bool {
        &&& 0 <= slot <= self.slots.len()
        &&& forall|i: int| 0 <= i < slot ==> self.slots[i] is Some
        &&& slot < self.slots.len() ==> self.slots[slot] is None
    }

    /// True iff no slot is free and the table cannot grow.
    pub open spec fn is_full(self) -> bool {
        self.is_first_free(self.slots.len() as int) && self.slots.len() + 2 >= usize::MAX
    }

    /// The state with `b` stored under `slot`, the table grown by one
    /// where `slot` is its end.
    pub open spec fn with_slot(self, slot: int, b: Option<Bridge<W>>) -> ReactorState<W> {
        if slot == self.slots.len() {
            ReactorState { slots: self.slots.push(b), ..self }
        } else {
            ReactorState { slots: self.slots.update(slot, b), ..self }
        }
    }

    /// What a poll of `dir` on the resource under `slot` reports: what its
    /// bridge reports, or an error where nothing is registered there.
    pub open spec fn poll_result(self, slot: int, dir: Direction) -> Poll<Result<Ready, Error>> {
        if self.registered(slot) {
            match self.bridge(slot).poll_result(dir) {
                Poll::Ready(flags) => Poll::Ready(Ok(flags)),
                Poll::Pending => Poll::Pending,
            }
        } else {
            Poll::Ready(Err(Error { kind: ErrorKind::Other }))
        }
    }

    /// The state after a poll of `dir` on the resource under `slot` by a
    /// task whose continuation is `w`.
    pub open spec fn polled(self, slot: int, dir: Direction, w: W) -> ReactorState<W> {
        if self.registered(slot) {
            self.with_slot(slot, Some(self.bridge(slot).polled(dir, w)))
        } else {
            self
        }
    }

    /// The state after the flag of `dir` was cleared on the resource under
    /// `slot` for a task whose continuation is `w`.
    pub open spec fn cleared(self, slot: int, dir: Direction, w: W) -> ReactorState<W> {
        if self.registered(slot) {
            self.with_slot(slot, Some(self.bridge(slot).cleared(dir, w)))
        } else {
            self
        }
    }

    /// The state after a request for an interrupt.
    pub open spec fn interrupted(self) -> ReactorState<W> {
        ReactorState { wakeup_pending: true, ..self }
    }

    /// The state after one event. The interrupt's event consumes the
    /// pending interrupt; an event for a registered resource is delivered
    /// to its bridge; an event for a slot that holds nothing is dropped.
    pub open spec fn dispatched(self, ev: Event) -> ReactorState<W> {
        if ev.token == TOKEN_WAKEUP {
            ReactorState { wakeup_pending: false, ..self }
        } else if self.registered(ev.slot()) {
            self.with_slot(ev.slot(), Some(self.bridge(ev.slot()).delivered(ev.readiness)))
        } else {
            self
        }
    }

    /// The continuations that one event releases, in the order in which
    /// they are invoked.
    pub open spec fn dispatch_wakes(self, ev: Event) -> Seq<W> {
        if ev.token != TOKEN_WAKEUP && self.registered(ev.slot()) {
            self.bridge(ev.slot()).released(ev.readiness).in_order()
        } else {
            Seq::<W>::empty()
        }
    }

    /// The state after the events of one turn, taken in the order in which
    /// the multiplexer reported them.
    pub open spec fn turned(self, events: Seq<Event>) -> ReactorState<W>
        decreases events.len(),
    {
        if events.len() == 0 {
            self
        } else {
            self.turned(events.drop_last()).dispatched(events.last())
        }
    }

    /// The continuations that the events of one turn release, in order.
    pub open spec fn turn_wakes(self, events: Seq<Event>) -> Seq<W>
        decreases events.len(),
    {
        if events.len() == 0 {
            Seq::<W>::empty()
        } else {
            self.turn_wakes(events.drop_last()) + self.turned(events.drop_last()).dispatch_wakes(
                events.last(),
            )
        }
    }
}

/// The number of slots of `slots` that hold a resource.
pub open spec fn count_live<W>(slots: Seq<Option<Bridge<W>>>) -> nat
    decreases slots.len(),
{
    if slots.len() == 0 {
        0
    } else {
        count_live(slots.drop_last()) + if slots.last() is Some { 1nat } else { 0nat }
    }
}

/// Storing under a slot changes the count by what was and what is there.
pub proof fn lemma_count_live_update<W>(
    slots: Seq<Option<Bridge<W>>>,
    i: int,
    b: Option<Bridge<W>>,
)
    requires
        0 <= i < slots.len(),
    ensures
        count_live(slots.update(i, b)) + (if slots[i] is Some { 1nat } else { 0nat })
            == count_live(slots) + (if b is Some { 1nat } else { 0nat }),
    decreases slots.len(),
{
    let after = slots.update(i, b);
    if i == slots.len() - 1 {
        assert(after.drop_last() =~= slots.drop_last());
    } else {
        assert(after.drop_last() =~= slots.drop_last().update(i, b));
        lemma_count_live_update(slots.drop_last(), i, b);
    }
}

/// The count is zero exactly where every slot is free, and never exceeds
/// the length of the table.
pub proof fn lemma_count_live_bounds<W>(slots: Seq<Option<Bridge<W>>>)
    ensures
        count_live(slots) <= slots.len(),
        count_live(slots) == 0 <==> (forall|i: int| 0 <= i < slots.len() ==> slots[i] is None),
        count_live(slots) == slots.len() <==> (forall|i: int|
            0 <= i < slots.len() ==> slots[i] is Some),
    decreases slots.len(),
{
    if slots.len() > 0 {
        let head = slots.drop_last();
        lemma_count_live_bounds(head);
        assert(forall|i: int| 0 <= i < head.len() ==> head[i] == slots[i]);
        if count_live(slots) == 0 {
            assert forall|i: int| 0 <= i < slots.len() implies slots[i] is None by {
                if i < head.len() {
                    assert(head[i] is None);
                }
            }
        }
        if count_live(slots) == slots.len() {
            assert forall|i: int| 0 <= i < slots.len() implies slots[i] is Some by {
                if i < head.len() {
                    assert(head[i] is Some);
                }
            }
        }
    }
}

/// A turn neither registers nor releases a resource: the table keeps its
/// length, every slot stays taken or free as it was, and so the reactor is
/// idle after the turn exactly where it was before.
pub proof fn law_turn_keeps_registrations<W>(st: ReactorState<W>, events: Seq<Event>)
    ensures
        st.turned(events).slots.len() == st.slots.len(),
        forall|slot: int| st.turned(events).registered(slot) == st.registered(slot),
        st.turned(events).is_idle() == st.is_idle(),
    decreases events.len(),
{
    if events.len() > 0 {
        law_turn_keeps_registrations(st, events.drop_last());
        let mid = st.turned(events.drop_last());
        let end = st.turned(events);
        assert(end == mid.dispatched(events.last()));
        assert forall|slot: int| end.registered(slot) == st.registered(slot) by {
            assert(mid.registered(slot) == st.registered(slot));
        }
    }
    let end = st.turned(events);
    if st.is_idle() {
        assert forall|i: int| 0 <= i < end.slots.len() implies end.slots[i] is None by {
            assert(end.registered(i) == st.registered(i));
        }
    }
    if end.is_idle() {
        assert forall|i: int| 0 <= i < st.slots.len() implies st.slots[i] is None by {
            assert(end.registered(i) == st.registered(i));
        }
    }
}

/// The readiness that the events of a turn report for the resource in
/// `slot`, in order.
pub open spec fn addressed_to(events: Seq<Event>, slot: int) -> Seq<Ready>
    decreases events.len(),
{
    if events.len() == 0 {
        Seq::<Ready>::empty()
    } else {
        let before = addressed_to(events.drop_last(), slot);
        if events.last().token != TOKEN_WAKEUP && events.last().slot() == slot {
            before.push(events.last().readiness)
        } else {
            before
        }
    }
}

/// A turn brings each bridge the events addressed to its slot, in the
/// order of the turn, and nothing else: what holds of a bridge over any
/// sequence of events holds of every registered resource over any turn.
pub proof fn law_turn_delivers_to_each_bridge_its_events<W>(
    st: ReactorState<W>,
    events: Seq<Event>,
    slot: int,
)
    requires
        st.registered(slot),
    ensures
        st.turned(events).registered(slot),
        st.turned(events).bridge(slot) == st.bridge(slot).delivered_all(
            addressed_to(events, slot),
        ),
    decreases events.len(),
{
    law_turn_keeps_registrations(st, events);
    if events.len() > 0 {
        let head = events.drop_last();
        let ev = events.last();
        law_turn_delivers_to_each_bridge_its_events(st, head, slot);
        law_turn_keeps_registrations(st, head);
        let mid = st.turned(head);
        assert(mid.registered(slot));
        if ev.token != TOKEN_WAKEUP && ev.slot() == slot {
            let seen = addressed_to(head, slot);
            assert(seen.push(ev.readiness).drop_last() =~= seen);
            assert(seen.push(ev.readiness).last() == ev.readiness);
        }
    }
}

/// Two batches of events taken in one turn do what two turns do, one
/// batch each: events take effect in the order in which they are reported,
/// however they are split into turns.
pub proof fn law_turn_splits<W>(st: ReactorState<W>, first: Seq<Event>, second: Seq<Event>)
    ensures
        st.turned(first + second) == st.turned(first).turned(second),
        st.turn_wakes(first + second) == st.turn_wakes(first) + st.turned(first).turn_wakes(
            second,
        ),
    decreases second.len(),
{
    if second.len() == 0 {
        assert(first + second =~= first);
        assert(st.turn_wakes(first) + Seq::<W>::empty() =~= st.turn_wakes(first));
    } else {
        let all = first + second;
        assert(all.drop_last() =~= first + second.drop_last());
        assert(all.last() == second.last());
        law_turn_splits(st, first, second.drop_last());
        let mid = st.turned(first);
        let head_wakes = mid.turn_wakes(second.drop_last());
        let last_wakes = mid.turned(second.drop_last()).dispatch_wakes(second.last());
        assert((st.turn_wakes(first) + head_wakes) + last_wakes =~= st.turn_wakes(first) + (
        head_wakes + last_wakes));
    }
}

/// An event resumes at most one task per direction, so a turn resumes at
/// most two tasks per event.
pub proof fn law_turn_wakes_at_most_two_per_event<W>(st: ReactorState<W>, events: Seq<Event>)
    ensures
        st.turn_wakes(events).len() <= 2 * events.len(),
    decreases events.len(),
{
    if events.len() > 0 {
        law_turn_wakes_at_most_two_per_event(st, events.drop_last());
    }
}

/// An event for a registered resource releases what its bridge releases
/// and changes no other slot; the readiness kept for the resource only
/// grows.
pub proof fn law_event_reaches_only_its_bridge<W>(st: ReactorState<W>, ev: Event, other: int)
    requires
        ev.token != TOKEN_WAKEUP,
        st.registered(ev.slot()),
        0 <= other < st.slots.len(),
        other != ev.slot(),
    ensures
        st.dispatch_wakes(ev) == st.bridge(ev.slot()).released(ev.readiness).in_order(),
        st.dispatched(ev).bridge(ev.slot()) == st.bridge(ev.slot()).delivered(ev.readiness),
        st.dispatched(ev).slots[other] == st.slots[other],
        st.dispatched(ev).wakeup_pending == st.wakeup_pending,
{
}

/// Requests for an interrupt coalesce: a second request changes nothing.
/// The interrupt's event consumes the request, releases nobody and leaves
/// the table alone.
pub proof fn law_wakeup_is_idempotent<W>(st: ReactorState<W>, readiness: Ready)
    ensures
        st.interrupted().interrupted() == st.interrupted(),
        st.interrupted().dispatched(Event { token: TOKEN_WAKEUP, readiness }) == (ReactorState {
            wakeup_pending: false,
            ..st
        }),
        st.dispatch_wakes(Event { token: TOKEN_WAKEUP, readiness }) == Seq::<W>::empty(),
{
}

/// The table of registered resources with their bridges.
///
/// `W` is the continuation of a suspended task; see [`Bridge`].
pub struct Reactor<W> {
    slots: Vec<Option<Bridge<W>>>,
    live: usize,
    wakeup_pending: bool,
}

impl<W> View for Reactor<W> {
    type V = ReactorState<W>;

    closed spec fn view(&self) -> ReactorState<W> {
        ReactorState { slots: self.slots@, wakeup_pending: self.wakeup_pending }
    }
}

impl<W> Reactor<W> {
    /// The reactor's invariant: the table is short enough for every slot
    /// to have a token below the largest, the count of live slots is right, and each bridge
    /// knows its own slot. Every constructor establishes it and every
    /// method keeps it.
    pub closed spec fn wf(self) -> bool {
        &&& self.slots@.len() + 1 < usize::MAX
        &&& self.live == count_live(self.slots@)
        &&& forall|i: int|
            0 <= i < self.slots@.len() ==> (#[trigger] self.slots@[i] matches Some(b) ==> b.slot
                == i)
    }

    /// A reactor with no resource registered and no interrupt pending.
    pub fn new() -> (r: Reactor<W>)
        ensures
            r.wf(),
            r@.slots.len() == 0,
            !r@.wakeup_pending,
    {
        Reactor { slots: Vec::new(), live: 0, wakeup_pending: false }
    }

    /// True iff no resource is registered.
    pub fn is_idle(&self) -> (b: bool)
        requires
            self.wf(),
        ensures
            b == self@.is_idle(),
    {
        proof {
            lemma_count_live_bounds(self.slots@);
        }
        self.live == 0
    }

    /// Registers a resource: allocates the lowest free slot and stores a
    /// fresh bridge there. Slots of other resources are not touched.
    ///
    /// Returns the slot, or `None` where every slot is taken and the table
    /// has reached the largest size a token can address.
    pub fn register(&mut self) -> (slot: Option<usize>)
        requires
            old(self).wf(),
        ensures
            final(self).wf(),
            match slot {
                Some(s) => {
                    &&& !old(self)@.is_full()
                    &&& old(self)@.is_first_free(s as int)
                    &&& final(self)@ == old(self)@.with_slot(s as int, Some(Bridge::fresh(s)))
                },
                None => old(self)@.is_full() && final(self)@ == old(self)@,
            },
    {
        let n = self.slots.len();
        let mut i: usize = 0;
        while i < n && self.slots[i].is_some()
            invariant
                n == self.slots@.len(),
                0 <= i <= n,
                forall|j: int| 0 <= j < i ==> self.slots@[j] is Some,
            decreases n - i,
        {
            i = i + 1;
        }
        if i < n {
            proof {
                lemma_count_live_update(self.slots@, i as int, Some(Bridge::<W>::fresh(i)));
                lemma_count_live_bounds(self.slots@);
            }
            self.slots[i] = Some(Bridge::new(i));
            self.live = self.live + 1;
            Some(i)
        } else if n < usize::MAX - 2 {
            proof {
                let grown = self.slots@.push(Some(Bridge::<W>::fresh(i)));
                assert(grown.drop_last() =~= self.slots@);
                lemma_count_live_bounds(self.slots@);
            }
            self.slots.push(Some(Bridge::new(i)));
            self.live = self.live + 1;
            Some(i)
        } else {
            None
        }
    }

    /// Releases the registration under `slot` with whatever its bridge
    /// holds; the slot becomes free for a later registration.
    ///
    /// Returns whether a resource was registered there. Other slots are
    /// not touched.
    pub fn deregister(&mut self, slot: usize) -> (was: bool)
        requires
            old(self).wf(),
        ensures
            final(self).wf(),
            was == old(self)@.registered(slot as int),
            was ==> final(self)@ == old(self)@.with_slot(slot as int, None),
            !was ==> final(self)@ == old(self)@,
    {
        if slot < self.slots.len() && self.slots[slot].is_some() {
            proof {
                lemma_count_live_update(self.slots@, slot as int, None);
                lemma_count_live_bounds(self.slots@);
            }
            self.slots[slot] = None;
            self.live = self.live - 1;
            true
        } else {
            false
        }
    }

    /// True iff a resource is registered under `slot`.
    pub fn is_registered(&self, slot: usize) -> (b: bool)
        ensures
            b == self@.registered(slot as int),
    {
        slot < self.slots.len() && self.slots[slot].is_some()
    }

    /// The readiness kept for the resource under `slot`, or `None` where
    /// nothing is registered there.
    pub fn readiness(&self, slot: usize) -> (r: Option<Ready>)
        ensures
            r == if self@.registered(slot as int) {
                Some(self@.bridge(slot as int).readiness)
            } else {
                None
            },
    {
        if slot < self.slots.len() {
            match &self.slots[slot] {
                Some(b) => Some(b.readiness),
                None => None,
            }
        } else {
            None
        }
    }

    /// Requests that a turn which blocks, or is about to, returns early.
    ///
    /// Returns whether the interrupt has to be signalled to the
    /// multiplexer: it has not where one is pending already, so requests
    /// coalesce. The table is not touched.
    pub fn wakeup(&mut self) -> (signal: bool)
        requires
            old(self).wf(),
        ensures
            final(self).wf(),
            signal == !old(self)@.wakeup_pending,
            final(self)@ == old(self)@.interrupted(),
    {
        let signal = !self.wakeup_pending;
        self.wakeup_pending = true;
        signal
    }

    /// True iff an interrupt was requested that no turn has consumed.
    pub fn is_wakeup_pending(&self) -> (b: bool)
        ensures
            b == self@.wakeup_pending,
    {
        self.wakeup_pending
    }

    /// Polls `dir` on the resource under `slot` for the task whose
    /// continuation is `waker`; see [`Bridge::poll_ready`].
    ///
    /// Fails with an error of kind `Other` where nothing is registered
    /// under `slot`, and then changes nothing.
    pub fn poll_ready(&mut self, slot: usize, dir: Direction, waker: W) -> (r: Poll<
        Result<Ready, Error>,
    >)
        requires
            old(self).wf(),
        ensures
            final(self).wf(),
            r == old(self)@.poll_result(slot as int, dir),
            final(self)@ == old(self)@.polled(slot as int, dir, waker),
    {
        if slot < self.slots.len() {
            let r = match &mut self.slots[slot] {
                Some(b) => {
                    match b.poll_ready(dir, waker) {
                        Poll::Ready(flags) => Poll::Ready(Ok(flags)),
                        Poll::Pending => Poll::Pending,
                    }
                },
                None => Poll::Ready(Err(Error::new(ErrorKind::Other))),
            };
            proof {
                if old(self)@.registered(slot as int) {
                    let after = Some(old(self)@.bridge(slot as int).polled(dir, waker));
                    assert(self.slots@ =~= old(self).slots@.update(slot as int, after));
                    lemma_count_live_update(old(self).slots@, slot as int, after);
                } else {
                    assert(self.slots@ =~= old(self).slots@);
                }
            }
            r
        } else {
            Poll::Ready(Err(Error::new(ErrorKind::Other)))
        }
    }

    /// Takes the flag of `dir` down on the resource under `slot` and
    /// stores `waker` for it; see [`Bridge::clear_ready`].
    ///
    /// Fails with an error of kind `Other` where nothing is registered
    /// under `slot`, and then changes nothing.
    pub fn clear_ready(&mut self, slot: usize, dir: Direction, waker: W) -> (r: Result<(), Error>)
        requires
            old(self).wf(),
        ensures
            final(self).wf(),
            r == if old(self)@.registered(slot as int) {
                Ok::<(), Error>(())
            } else {
                Err::<(), Error>(Error { kind: ErrorKind::Other })
            },
            final(self)@ == old(self)@.cleared(slot as int, dir, waker),
    {
        if slot < self.slots.len() {
            let r = match &mut self.slots[slot] {
                Some(b) => {
                    b.clear_ready(dir, waker);
                    Ok(())
                },
                None => Err(Error::new(ErrorKind::Other)),
            };
            proof {
                if old(self)@.registered(slot as int) {
                    let after = Some(old(self)@.bridge(slot as int).cleared(dir, waker));
                    assert(self.slots@ =~= old(self).slots@.update(slot as int, after));
                    lemma_count_live_update(old(self).slots@, slot as int, after);
                } else {
                    assert(self.slots@ =~= old(self).slots@);
                }
            }
            r
        } else {
            Err(Error::new(ErrorKind::Other))
        }
    }

    /// Handles one event; see [`ReactorState::dispatched`].
    fn dispatch(&mut self, ev: Event) -> (w: Wakeups<W>)
        requires
            old(self).wf(),
        ensures
            final(self).wf(),
            final(self)@ == old(self)@.dispatched(ev),
            w.in_order() == old(self)@.dispatch_wakes(ev),
    {
        if ev.token == TOKEN_WAKEUP {
            self.wakeup_pending = false;
            Wakeups { read: None, write: None }
        } else if ev.token - TOKEN_START < self.slots.len() {
            let w = match &mut self.slots[ev.token - TOKEN_START] {
                Some(b) => b.deliver(ev.readiness),
                None => Wakeups { read: None, write: None },
            };
            proof {
                let slot = ev.slot();
                if old(self)@.registered(slot) {
                    let after = Some(old(self)@.bridge(slot).delivered(ev.readiness));
                    assert(self.slots@ =~= old(self).slots@.update(slot, after));
                    lemma_count_live_update(old(self).slots@, slot, after);
                } else {
                    assert(self.slots@ =~= old(self).slots@);
                }
            }
            w
        } else {
            Wakeups { read: None, write: None }
        }
    }

    /// Performs the dispatch of one turn of the event loop: takes the
    /// events that the multiplexer reported, in its order, and returns the
    /// continuations to invoke, in the order in which to invoke them.
    ///
    /// For each event the bridge of its resource records the readiness and
    /// gives up the continuation of each direction that the event covers.
    /// The interrupt's event releases nobody and consumes the pending
    /// interrupt. An event for a slot that holds nothing is dropped.
    pub fn turn(&mut self, events: &Vec<Event>) -> (wakes: Vec<W>)
        requires
            old(self).wf(),
        ensures
            final(self).wf(),
            final(self)@ == old(self)@.turned(events@),
            wakes@ == old(self)@.turn_wakes(events@),
    {
        let mut wakes: Vec<W> = Vec::new();
        let mut i: usize = 0;
        while i < events.len()
            invariant
                0 <= i <= events@.len(),
                self.wf(),
                self@ == old(self)@.turned(events@.take(i as int)),
                wakes@ == old(self)@.turn_wakes(events@.take(i as int)),
            decreases events@.len() - i,
        {
            proof {
                let upto = events@.take(i + 1);
                assert(upto.drop_last() =~= events@.take(i as int));
                assert(upto.last() == events@[i as int]);
            }
            let w = self.dispatch(events[i]);
            if let Some(r) = w.read {
                wakes.push(r);
            }
            if let Some(r) = w.write {
                wakes.push(r);
            }
            i = i + 1;
        }
        proof {
            assert(events@.take(i as int) =~= events@);
        }
        wakes
    }
}

} // verus!
