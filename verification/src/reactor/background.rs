//! The lifecycle of a reactor that runs on a thread of its own.
//!
//! The handle and the reactor thread share one state word and one slot for
//! the continuation of whoever waits for the thread to stop. The word only
//! moves forward: from running, to a request to shut down (once idle, or
//! now), to shut down. Requests come from any thread; the last step is
//! taken by the reactor thread alone, after its loop has ended.
//!
//! Spawning the thread, blocking on the multiplexer and interrupting it are
//! the caller's part. What is decided here: which word follows which, when
//! the loop stops, whether the thread has to be interrupted, and what a
//! poll of the completion signal reports.

use vstd::prelude::*;
use std::sync::atomic::AtomicUsize;
use std::sync::atomic::Ordering;
use std::sync::Arc;
use std::task::Waker;
use futures::task::AtomicWaker;
use crate::task::Poll;

verus! {

/// The word of a running reactor.
pub const RUNNING: usize = 0;

/// The word that asks the reactor thread to shut down once the reactor is
/// idle.
pub const SHUTDOWN_IDLE: usize = 1;

/// The word that asks the reactor thread to shut down immediately.
pub const SHUTDOWN_NOW: usize = 2;

/// The word of a reactor that has shut down.
pub const SHUTDOWN: usize = 3;

/// The state of a background reactor.
#[derive(Debug, Clone, Copy, PartialEq, Eq, Structural)]
pub enum ShutdownState {
    /// The reactor thread runs its loop.
    Running,
    /// The thread was asked to stop once no resource is registered.
    ShutdownIdle,
    /// The thread was asked to stop at once.
    ShutdownNow,
    /// The thread has left its loop and released the reactor.
    Shutdown,
}

/// What the reactor thread does next.
#[derive(Debug, Clone, Copy, PartialEq, Eq, Structural)]
pub enum RunAction {
    /// Block on the multiplexer and dispatch one turn.
    Turn,
    /// Leave the loop.
    Stop,
}

impl ShutdownState {
    /// The word that stands for this state.
    pub open spec fn spec_word(self) -> usize {
        match self {
            ShutdownState::Running => RUNNING,
            ShutdownState::ShutdownIdle => SHUTDOWN_IDLE,
            ShutdownState::ShutdownNow => SHUTDOWN_NOW,
            ShutdownState::Shutdown => SHUTDOWN,
        }
    }

    /// The state that the word `w` stands for, if any.
    pub open spec fn spec_from_word(w: usize) -> Option<ShutdownState> {
        if w == RUNNING {
            Some(ShutdownState::Running)
        } else if w == SHUTDOWN_IDLE {
            Some(ShutdownState::ShutdownIdle)
        } else if w == SHUTDOWN_NOW {
            Some(ShutdownState::ShutdownNow)
        } else if w == SHUTDOWN {
            Some(ShutdownState::Shutdown)
        } else {
            None
        }
    }

    /// The position of this state in the order `Running`, then the two
    /// requests, then `Shutdown`.
    pub open spec fn rank(self) -> nat {
        match self {
            ShutdownState::Running => 0,
            ShutdownState::ShutdownIdle => 1,
            ShutdownState::ShutdownNow => 1,
            ShutdownState::Shutdown => 2,
        }
    }

    /// The state after a request to shut down once idle: the request takes
    /// a running reactor to `ShutdownIdle` and changes no other state.
    pub open spec fn after_idle_request(self) -> ShutdownState {
        match self {
            ShutdownState::Running => ShutdownState::ShutdownIdle,
            s => s,
        }
    }

    /// The state after a request to shut down now: the request takes every
    /// state before `ShutdownNow` there and changes no other state.
    pub open spec fn after_now_request(self) -> ShutdownState {
        match self {
            ShutdownState::Running => ShutdownState::ShutdownNow,
            ShutdownState::ShutdownIdle => ShutdownState::ShutdownNow,
            s => s,
        }
    }

    /// Whether a request to shut down now, made in this state, changes the
    /// state; the reactor thread is interrupted exactly then.
    pub open spec fn now_request_wakes(self) -> bool {
        self == ShutdownState::Running || self == ShutdownState::ShutdownIdle
    }

    /// What the reactor thread does when it reads this state and finds the
    /// reactor idle or not.
    pub open spec fn spec_run_action(self, idle: bool) -> RunAction {
        match self {
            ShutdownState::ShutdownNow => RunAction::Stop,
            ShutdownState::ShutdownIdle => if idle {
                RunAction::Stop
            } else {
                RunAction::Turn
            },
            _ => RunAction::Turn,
        }
    }

    /// What a poll of the completion signal reports in this state.
    pub open spec fn completion(self) -> Poll<Result<(), ()>> {
        if self == ShutdownState::Shutdown {
            Poll::Ready(Ok(()))
        } else {
            Poll::Pending
        }
    }

    /// The word that stands for this state.
    pub fn word(self) -> (w: usize)
        ensures
            w == self.spec_word(),
            Self::spec_from_word(w) == Some(self),
    {
        match self {
            ShutdownState::Running => RUNNING,
            ShutdownState::ShutdownIdle => SHUTDOWN_IDLE,
            ShutdownState::ShutdownNow => SHUTDOWN_NOW,
            ShutdownState::Shutdown => SHUTDOWN,
        }
    }

    /// The state that the word `w` stands for, or `None` where `w` is no
    /// state's word.
    pub fn from_word(w: usize) -> (s: Option<ShutdownState>)
        ensures
            s == Self::spec_from_word(w),
            s matches Some(st) ==> st.spec_word() == w,
            s is None <==> w > SHUTDOWN,
    {
        if w == RUNNING {
            Some(ShutdownState::Running)
        } else if w == SHUTDOWN_IDLE {
            Some(ShutdownState::ShutdownIdle)
        } else if w == SHUTDOWN_NOW {
            Some(ShutdownState::ShutdownNow)
        } else if w == SHUTDOWN {
            Some(ShutdownState::Shutdown)
        } else {
            None
        }
    }

    /// True iff the reactor thread has shut down.
    pub fn is_shutdown(self) -> (b: bool)
        ensures
            b == (self == ShutdownState::Shutdown),
    {
        match self {
            ShutdownState::Shutdown => true,
            _ => false,
        }
    }

    /// The state after a request to shut down once idle.
    pub fn shutdown_on_idle(self) -> (s: ShutdownState)
        ensures
            s == self.after_idle_request(),
    {
        match self {
            ShutdownState::Running => ShutdownState::ShutdownIdle,
            s => s,
        }
    }

    /// The state after a request to shut down now, and whether the reactor
    /// thread has to be interrupted: it has where the request changed the
    /// state. At `ShutdownNow` and after, the request is a no-op.
    pub fn shutdown_now(self) -> (r: (ShutdownState, bool))
        ensures
            r.0 == self.after_now_request(),
            r.1 == self.now_request_wakes(),
    {
        match self {
            ShutdownState::Running => (ShutdownState::ShutdownNow, true),
            ShutdownState::ShutdownIdle => (ShutdownState::ShutdownNow, true),
            s => (s, false),
        }
    }

    /// Decides one iteration of the reactor thread's loop: stop on
    /// `ShutdownNow`, stop on `ShutdownIdle` where the reactor is idle,
    /// else take a turn.
    pub fn run_action(self, idle: bool) -> (a: RunAction)
        ensures
            a == self.spec_run_action(idle),
    {
        match self {
            ShutdownState::ShutdownNow => RunAction::Stop,
            ShutdownState::ShutdownIdle => if idle {
                RunAction::Stop
            } else {
                RunAction::Turn
            },
            _ => RunAction::Turn,
        }
    }

    /// What a poll of the completion signal reports: ready, with success,
    /// once the thread has shut down, and pending before. The shutdown
    /// protocol cannot fail, so the error is never reported.
    pub fn poll_completion(self) -> (r: Poll<Result<(), ()>>)
        ensures
            r == self.completion(),
    {
        match self {
            ShutdownState::Shutdown => Poll::Ready(Ok(())),
            _ => Poll::Pending,
        }
    }
}

/// One step of the protocol between the handle's owners and the reactor
/// thread.
#[derive(Debug, Clone, Copy, PartialEq, Eq, Structural)]
pub enum Transition {
    /// Some thread asks for a shutdown once the reactor is idle.
    RequestIdle,
    /// Some thread asks for a shutdown now; releasing the handle does.
    RequestNow,
    /// Some task polls the completion signal.
    PollCompletion,
    /// The handle is forgotten.
    Forget,
    /// The reactor thread reads the state at the top of its loop and finds
    /// the reactor idle or not.
    Loop { idle: bool },
}

impl ShutdownState {
    /// The state after one iteration of the reactor thread's loop that
    /// finds the reactor idle or not: where the loop stops, the thread
    /// releases the reactor and the state is `Shutdown`; where the thread
    /// takes a turn, and where it has stopped before, the state stays.
    pub open spec fn after_loop(self, idle: bool) -> ShutdownState {
        if self != ShutdownState::Shutdown && self.spec_run_action(idle) == RunAction::Stop {
            ShutdownState::Shutdown
        } else {
            self
        }
    }

    /// The state after one step of the protocol.
    pub open spec fn after(self, t: Transition) -> ShutdownState {
        match t {
            Transition::RequestIdle => self.after_idle_request(),
            Transition::RequestNow => self.after_now_request(),
            Transition::PollCompletion => self,
            Transition::Forget => self,
            Transition::Loop { idle } => self.after_loop(idle),
        }
    }

    /// The state after a sequence of steps.
    pub open spec fn after_all(self, steps: Seq<Transition>) -> ShutdownState
        decreases steps.len(),
    {
        if steps.len() == 0 {
            self
        } else {
            self.after_all(steps.drop_last()).after(steps.last())
        }
    }

    /// The state after one step of the protocol.
    pub fn step(self, t: Transition) -> (s: ShutdownState)
        ensures
            s == self.after(t),
    {
        match t {
            Transition::RequestIdle => self.shutdown_on_idle(),
            Transition::RequestNow => self.shutdown_now().0,
            Transition::PollCompletion => self,
            Transition::Forget => self,
            Transition::Loop { idle } => {
                if !self.is_shutdown() && self.run_action(idle) == RunAction::Stop {
                    ShutdownState::Shutdown
                } else {
                    self
                }
            },
        }
    }
}

/// The words are ordered as the states are: a state of higher rank has a
/// higher word, and every state's word decodes to the state.
pub proof fn law_words_follow_states(a: ShutdownState, b: ShutdownState)
    ensures
        ShutdownState::spec_from_word(a.spec_word()) == Some(a),
        a.rank() < b.rank() ==> a.spec_word() < b.spec_word(),
        a.spec_word() <= SHUTDOWN,
        a.spec_word() == b.spec_word() ==> a == b,
{
}

/// No step of the protocol takes the state back: its word never gets
/// smaller and its rank never gets lower.
pub proof fn law_step_is_monotonic(s: ShutdownState, t: Transition)
    ensures
        s.after(t).spec_word() >= s.spec_word(),
        s.after(t).rank() >= s.rank(),
{
}

/// Over any sequence of steps the state never decreases, and once it is
/// `Shutdown` it is `Shutdown` ever after.
pub proof fn law_state_never_decreases(s: ShutdownState, steps: Seq<Transition>)
    ensures
        s.after_all(steps).spec_word() >= s.spec_word(),
        s.after_all(steps).rank() >= s.rank(),
        s == ShutdownState::Shutdown ==> s.after_all(steps) == ShutdownState::Shutdown,
    decreases steps.len(),
{
    if steps.len() > 0 {
        law_state_never_decreases(s, steps.drop_last());
        law_step_is_monotonic(s.after_all(steps.drop_last()), steps.last());
    }
}

/// Only the reactor thread's loop takes the state to `Shutdown`, and only
/// where it stops: no request, no poll and no forgotten handle does.
pub proof fn law_only_the_loop_shuts_down(s: ShutdownState, t: Transition)
    requires
        s != ShutdownState::Shutdown,
        s.after(t) == ShutdownState::Shutdown,
    ensures
        t matches Transition::Loop { idle } && s.spec_run_action(idle) == RunAction::Stop,
{
}

/// Once the state is `Shutdown`, every poll of the completion signal
/// reports the same: ready, with success, whatever steps come in between
/// and however many polls there are.
pub proof fn law_completion_is_idempotent(s: ShutdownState, steps: Seq<Transition>)
    requires
        s == ShutdownState::Shutdown,
    ensures
        s.completion() == Poll::Ready(Ok::<(), ()>(())),
        s.after_all(steps).completion() == s.completion(),
{
    law_state_never_decreases(s, steps);
}

/// Before the state is `Shutdown`, the completion signal is pending.
pub proof fn law_completion_pending_before_shutdown(s: ShutdownState)
    ensures
        s.completion() is Ready <==> s == ShutdownState::Shutdown,
{
}

/// Forgetting the handle is no step of the state: the reactor thread keeps
/// running in whatever state it was.
pub proof fn law_forget_changes_nothing(s: ShutdownState)
    ensures
        s.after(Transition::Forget) == s,
        s.after(Transition::PollCompletion) == s,
{
}

/// After a request to shut down now, the very next iteration of the
/// reactor thread's loop stops, whether the reactor is idle or not: the
/// wait of whoever released the handle is bounded by one turn.
pub proof fn law_now_request_stops_next_iteration(s: ShutdownState, idle: bool)
    ensures
        s.after_now_request().after_loop(idle) == ShutdownState::Shutdown,
        s != ShutdownState::Shutdown ==> s.after_now_request().spec_run_action(idle)
            == RunAction::Stop,
        s.after_now_request().after_now_request() == s.after_now_request(),
        s.after_now_request().now_request_wakes() == false,
{
}

/// After a request to shut down once idle, the loop stops at the first
/// iteration that finds the reactor idle, and takes turns until then.
pub proof fn law_idle_request_stops_when_idle(idle: bool)
    ensures
        ShutdownState::Running.after_idle_request() == ShutdownState::ShutdownIdle,
        ShutdownState::ShutdownIdle.spec_run_action(idle) == (if idle {
            RunAction::Stop
        } else {
            RunAction::Turn
        }),
        ShutdownState::ShutdownIdle.after_loop(true) == ShutdownState::Shutdown,
        ShutdownState::ShutdownIdle.after_loop(false) == ShutdownState::ShutdownIdle,
        ShutdownState::Running.spec_run_action(idle) == RunAction::Turn,
{
}

/// `std::task::Waker`: the continuation of a suspended task. Nothing is
/// known of what is inside.
#[verifier::external_type_specification]
#[verifier::external_body]
pub struct ExWaker(Waker);

/// `futures::task::AtomicWaker`: a slot for one waker that threads share.
/// Nothing is known of what is inside.
#[verifier::external_type_specification]
#[verifier::external_body]
pub struct ExAtomicWaker(AtomicWaker);

/// Calls `futures::task::AtomicWaker::new`, which makes a slot with no
/// waker registered. Nothing is claimed of the result.
#[verifier::external_body]
fn atomic_waker_new() -> AtomicWaker {
    AtomicWaker::new()
}

/// Calls `futures::task::AtomicWaker::register`, which puts `waker` in the
/// place of the one registered before. It returns nothing, and nothing is
/// claimed of its effect.
#[verifier::external_body]
fn atomic_waker_register(slot: &AtomicWaker, waker: &Waker) {
    slot.register(waker)
}

/// Calls `futures::task::AtomicWaker::wake`, which takes the registered
/// waker out, if there is one, and wakes it. It returns nothing, and
/// nothing is claimed of its effect.
#[verifier::external_body]
fn atomic_waker_wake(slot: &AtomicWaker) {
    slot.wake()
}

/// Calls `Arc::clone`, which makes another pointer to the same allocation:
/// the result points to the value that `shared` points to.
#[verifier::external_body]
fn arc_clone(shared: &Arc<Shared>) -> (other: Arc<Shared>)
    ensures
        other == *shared,
{
    Arc::clone(shared)
}

/// The word that a request to shut down once idle leaves where it finds
/// the word `w`: a compare-and-swap from the word of `Running` to that of
/// `ShutdownIdle`.
pub open spec fn word_after_idle_request(w: usize) -> usize {
    if w == RUNNING {
        SHUTDOWN_IDLE
    } else {
        w
    }
}

/// The word that a request to shut down now leaves where it finds the
/// word `w`: the larger of `w` and the word of `ShutdownNow`.
pub open spec fn word_after_now_request(w: usize) -> usize {
    if w < SHUTDOWN_NOW {
        SHUTDOWN_NOW
    } else {
        w
    }
}

/// The steps on words are the steps on states: on the word of a state,
/// each request leaves the word of the state that the request leads to,
/// and the reactor thread is interrupted on the same occasions.
pub proof fn law_word_steps_follow_state_steps(s: ShutdownState)
    ensures
        word_after_idle_request(s.spec_word()) == s.after_idle_request().spec_word(),
        word_after_now_request(s.spec_word()) == s.after_now_request().spec_word(),
        word_wakes_on_now_request(s.spec_word()) == s.now_request_wakes(),
        word_after_now_request(s.spec_word()) >= s.spec_word(),
        word_after_idle_request(s.spec_word()) >= s.spec_word(),
{
}

/// True iff a request to shut down now that finds the word `w` moves it,
/// so that the reactor thread has to be interrupted.
pub open spec fn word_wakes_on_now_request(w: usize) -> bool {
    w < SHUTDOWN_NOW
}

/// Tells whether a request to shut down now that found the word `prev` has
/// moved it, so that the reactor thread has to be interrupted.
pub fn wakes_on_now_request(prev: usize) -> (wake: bool)
    ensures
        wake == word_wakes_on_now_request(prev),
        ShutdownState::spec_from_word(prev) matches Some(s) ==> wake == s.now_request_wakes(),
{
    prev < SHUTDOWN_NOW
}

/// What a poll of the completion signal reports when it reads the word
/// `w`: ready, with success, iff `w` is the word of `Shutdown`.
pub fn completion_of_word(w: usize) -> (r: Poll<Result<(), ()>>)
    ensures
        r == (if w == SHUTDOWN {
            Poll::Ready(Ok::<(), ()>(()))
        } else {
            Poll::Pending
        }),
        ShutdownState::spec_from_word(w) matches Some(s) ==> r == s.completion(),
{
    if w == SHUTDOWN {
        Poll::Ready(Ok(()))
    } else {
        Poll::Pending
    }
}

/// What the reactor thread does when it reads the word `w` and finds the
/// reactor idle or not: it stops iff `w` asks to stop now, or asks to stop
/// once idle and the reactor is idle.
pub fn run_action_of_word(w: usize, idle: bool) -> (a: RunAction)
    ensures
        a == (if w == SHUTDOWN_NOW || (w == SHUTDOWN_IDLE && idle) {
            RunAction::Stop
        } else {
            RunAction::Turn
        }),
        ShutdownState::spec_from_word(w) matches Some(s) ==> a == s.spec_run_action(idle),
{
    if w == SHUTDOWN_NOW {
        RunAction::Stop
    } else if w == SHUTDOWN_IDLE && idle {
        RunAction::Stop
    } else {
        RunAction::Turn
    }
}

/// The state that the handle and the reactor thread share.
#[derive(Debug)]
pub struct Shared {
    /// The state word; see [`ShutdownState`].
    shutdown: AtomicUsize,
    /// The waker of the task that waits for the thread to shut down.
    shutdown_task: AtomicWaker,
}

impl Shared {
    /// The cell that holds the state word.
    pub closed spec fn word_cell(&self) -> AtomicUsize {
        self.shutdown
    }

    /// True iff `w` is what one atomic read of the state word, in the
    /// strongest ordering, returned.
    pub open spec fn reads(&self, w: usize) -> bool {
        call_ensures(AtomicUsize::load, (&self.word_cell(), Ordering::SeqCst), w)
    }

    /// True iff `prev` is what one atomic maximum of the state word with
    /// the word of `ShutdownNow` found there before.
    pub open spec fn raised_from(&self, prev: usize) -> bool {
        call_ensures(
            AtomicUsize::fetch_max,
            (&self.word_cell(), SHUTDOWN_NOW, Ordering::SeqCst),
            prev,
        )
    }

    /// True iff `res` is the outcome of one compare-and-swap of the state
    /// word from the word of `Running` to that of `ShutdownIdle`.
    pub open spec fn idle_requested(&self, res: Result<usize, usize>) -> bool {
        call_ensures(
            AtomicUsize::compare_exchange,
            (&self.word_cell(), RUNNING, SHUTDOWN_IDLE, Ordering::SeqCst, Ordering::SeqCst),
            res,
        )
    }

    /// True iff the state was made anew: the word as that of `Running`,
    /// the waker slot with nobody registered.
    pub closed spec fn fresh(&self) -> bool {
        &&& call_ensures(AtomicUsize::new, (RUNNING,), self.shutdown)
        &&& call_ensures(atomic_waker_new, (), self.shutdown_task)
    }

    /// True iff `lw` was registered in the waker slot, in the place of
    /// whoever was registered before.
    pub closed spec fn registered_waiter(&self, lw: Waker) -> bool {
        call_ensures(atomic_waker_register, (&self.shutdown_task, &lw), ())
    }

    /// True iff the word of `Shutdown` was stored in the state word and
    /// the waker slot was woken.
    pub closed spec fn completed(&self) -> bool {
        &&& call_ensures(AtomicUsize::store, (&self.shutdown, SHUTDOWN, Ordering::SeqCst), ())
        &&& call_ensures(atomic_waker_wake, (&self.shutdown_task,), ())
    }

    /// The shared state of a reactor that is about to run: the word is
    /// that of `Running` and nobody waits.
    pub fn new() -> (s: Shared)
        ensures
            s.fresh(),
    {
        Shared { shutdown: AtomicUsize::new(RUNNING), shutdown_task: atomic_waker_new() }
    }

    /// Reads the state word.
    pub fn load(&self) -> (w: usize)
        ensures
            self.reads(w),
    {
        self.shutdown.load(Ordering::SeqCst)
    }

    /// Reads the state: the state of the word read. `None` would mean that
    /// the word is no state's word, which no method of this type ever
    /// stores.
    pub fn state(&self) -> (s: Option<ShutdownState>)
        ensures
            exists|w: usize| self.reads(w) && s == ShutdownState::spec_from_word(w),
    {
        ShutdownState::from_word(self.load())
    }

    /// True iff the word read is that of `Shutdown`.
    pub fn is_shutdown(&self) -> (b: bool)
        ensures
            exists|w: usize| self.reads(w) && b == (w == SHUTDOWN),
    {
        match ShutdownState::from_word(self.load()) {
            Some(s) => s.is_shutdown(),
            None => false,
        }
    }

    /// Asks the reactor thread to shut down once the reactor is idle: in
    /// one atomic step, moves the word from `Running` to `ShutdownIdle`
    /// and leaves every other word as it is. The caller then interrupts
    /// the reactor thread, so that it looks at the word.
    pub fn shutdown_on_idle(&self)
        ensures
            exists|res: Result<usize, usize>| self.idle_requested(res),
    {
        let res = self.shutdown.compare_exchange(
            RUNNING,
            SHUTDOWN_IDLE,
            Ordering::SeqCst,
            Ordering::SeqCst,
        );
        assert(self.idle_requested(res));
    }

    /// Asks the reactor thread to shut down now: in one atomic step, moves
    /// a word below that of `ShutdownNow` up to it and leaves every other
    /// word as it is.
    ///
    /// Returns whether the word was moved; the caller interrupts the
    /// reactor thread exactly then.
    pub fn shutdown_now(&self) -> (wake: bool)
        ensures
            exists|prev: usize| self.raised_from(prev) && wake == word_wakes_on_now_request(prev),
    {
        let prev = self.shutdown.fetch_max(SHUTDOWN_NOW, Ordering::SeqCst);
        assert(self.raised_from(prev));
        wakes_on_now_request(prev)
    }

    /// Decides one iteration of the reactor thread's loop from the word
    /// read now; see [`run_action_of_word`].
    pub fn run_action(&self, idle: bool) -> (a: RunAction)
        ensures
            exists|w: usize|
                self.reads(w) && a == (if w == SHUTDOWN_NOW || (w == SHUTDOWN_IDLE && idle) {
                    RunAction::Stop
                } else {
                    RunAction::Turn
                }),
    {
        run_action_of_word(self.load(), idle)
    }

    /// The reactor thread's last step, after it has left its loop and
    /// released the reactor: stores the word of `Shutdown` and wakes the
    /// task registered for the completion signal.
    pub fn complete(&self)
        ensures
            self.completed(),
    {
        self.shutdown.store(SHUTDOWN, Ordering::SeqCst);
        atomic_waker_wake(&self.shutdown_task);
    }

    /// Polls the completion signal for the task whose waker is `lw`.
    ///
    /// The waker is registered first, on every poll, and the word is read
    /// after: a thread that shuts down in between finds the waker. The
    /// result is ready, with success, iff the word read is that of
    /// `Shutdown`; the error is never reported.
    pub fn poll_shutdown(&self, lw: &Waker) -> (r: Poll<Result<(), ()>>)
        ensures
            self.registered_waiter(*lw),
            exists|w: usize|
                self.reads(w) && r == (if w == SHUTDOWN {
                    Poll::Ready(Ok::<(), ()>(()))
                } else {
                    Poll::Pending
                }),
    {
        atomic_waker_register(&self.shutdown_task, lw);
        completion_of_word(self.load())
    }
}

/// One owner's share of the state; the completion signal and the handle
/// each hold one.
#[derive(Debug)]
struct Inner {
    /// The state shared with the reactor thread.
    shared: Arc<Shared>,
}

impl Inner {
    /// True iff the reactor thread has shut down: the word read is that of
    /// `Shutdown`.
    fn is_shutdown(&self) -> (b: bool)
        ensures
            exists|w: usize| self.shared.reads(w) && b == (w == SHUTDOWN),
    {
        self.shared.is_shutdown()
    }

    /// Asks the reactor thread to shut down now; see
    /// [`Shared::shutdown_now`].
    fn shutdown_now(&self) -> (wake: bool)
        ensures
            exists|prev: usize|
                self.shared.raised_from(prev) && wake == word_wakes_on_now_request(prev),
    {
        self.shared.shutdown_now()
    }
}

/// Handle to a reactor that runs on a background thread.
///
/// Releasing the handle shuts the reactor down and waits for its thread;
/// [`Background::forget`] lets the thread run on instead.
#[derive(Debug)]
pub struct Background {
    /// When `None`, the reactor thread runs until the process ends.
    inner: Option<Inner>,
}

/// The completion signal: resolves once the reactor thread has shut down.
#[derive(Debug)]
pub struct Shutdown {
    inner: Inner,
}

impl Background {
    /// True iff the handle still holds its share of the state.
    pub closed spec fn attached(&self) -> bool {
        self.inner is Some
    }

    /// The state that the handle shares with the reactor thread.
    pub closed spec fn shared(&self) -> Shared
        recommends
            self.attached(),
    {
        *self.inner->0.shared
    }

    /// Makes the state for a reactor that is about to run in the
    /// background and returns the handle together with the reactor
    /// thread's share of the state. The caller starts the thread, which
    /// runs the loop that [`Shared::run_action`] decides and ends with
    /// [`Shared::complete`].
    pub fn new() -> (r: (Background, Arc<Shared>))
        ensures
            r.0.attached(),
            r.0.shared() == *r.1,
            r.0.shared().fresh(),
    {
        let shared = Arc::new(Shared::new());
        let shared2 = arc_clone(&shared);
        (Background { inner: Some(Inner { shared }) }, shared2)
    }

    /// Lets the reactor run on its thread until the process ends: gives
    /// the handle up without a request to shut down, so that the state
    /// word is left as it is and nobody waits for the thread.
    pub fn forget(self) {
        // The handle's share of the state is dropped here, and that is all.
        let _ = self.inner;
    }

    /// Asks the reactor thread to shut down once the reactor is idle and
    /// returns the completion signal. The caller interrupts the reactor
    /// thread, so that it looks at the request.
    ///
    /// Returns `None` where the handle was released before.
    pub fn shutdown_on_idle(self) -> (r: Option<Shutdown>)
        ensures
            r is Some == self.attached(),
            r matches Some(s) ==> s.shared() == self.shared(),
            r is Some ==> exists|res: Result<usize, usize>| self.shared().idle_requested(res),
    {
        match self.inner {
            Some(inner) => {
                inner.shared.shutdown_on_idle();
                Some(Shutdown { inner })
            },
            None => None,
        }
    }

    /// Asks the reactor thread to shut down now and returns the completion
    /// signal, together with whether the caller has to interrupt the
    /// reactor thread; see [`Shared::shutdown_now`].
    ///
    /// Returns `None` where the handle was released before.
    pub fn shutdown_now(self) -> (r: Option<(Shutdown, bool)>)
        ensures
            r is Some == self.attached(),
            r matches Some(s) ==> s.0.shared() == self.shared(),
            r matches Some(s) ==> exists|prev: usize|
                self.shared().raised_from(prev) && s.1 == word_wakes_on_now_request(prev),
    {
        match self.inner {
            Some(inner) => {
                let wake = inner.shutdown_now();
                Some((Shutdown { inner }, wake))
            },
            None => None,
        }
    }

    /// What releasing the handle does before it waits: asks the reactor
    /// thread to shut down now and hands out the completion signal,
    /// together with whether the caller has to interrupt the reactor
    /// thread. The caller then blocks on the signal, so that the thread
    /// has stopped when the release returns.
    ///
    /// Returns `None`, and asks for nothing, where the handle was released
    /// before. The handle holds no share of the state afterwards.
    pub fn release(&mut self) -> (r: Option<(Shutdown, bool)>)
        ensures
            r is Some == old(self).attached(),
            r matches Some(s) ==> s.0.shared() == old(self).shared(),
            r matches Some(s) ==> exists|prev: usize|
                old(self).shared().raised_from(prev) && s.1 == word_wakes_on_now_request(prev),
            !final(self).attached(),
    {
        let inner = match self.inner.take() {
            Some(i) => i,
            None => {
                return None;
            },
        };
        let wake = inner.shutdown_now();
        let shutdown = Shutdown { inner };
        Some((shutdown, wake))
    }
}

impl Shutdown {
    /// The state that the signal shares with the reactor thread.
    pub closed spec fn shared(&self) -> Shared {
        *self.inner.shared
    }

    /// Polls the signal for the task whose waker is `lw`: registers the
    /// waker, then reports ready, with success, iff the reactor thread has
    /// shut down; see [`Shared::poll_shutdown`].
    pub fn poll(&self, lw: &Waker) -> (r: Poll<Result<(), ()>>)
        ensures
            self.shared().registered_waiter(*lw),
            exists|w: usize|
                self.shared().reads(w) && r == (if w == SHUTDOWN {
                    Poll::Ready(Ok::<(), ()>(()))
                } else {
                    Poll::Pending
                }),
    {
        let r = self.inner.shared.poll_shutdown(lw);
        proof {
            let w = choose|w: usize|
                self.inner.shared.reads(w) && r == (if w == SHUTDOWN {
                    Poll::Ready(Ok::<(), ()>(()))
                } else {
                    Poll::Pending
                });
            assert(self.shared().reads(w));
        }
        r
    }

    /// True iff the reactor thread has shut down: the word read is that of
    /// `Shutdown`.
    pub fn is_shutdown(&self) -> (b: bool)
        ensures
            exists|w: usize| self.shared().reads(w) && b == (w == SHUTDOWN),
    {
        let b = self.inner.is_shutdown();
        proof {
            let w = choose|w: usize| self.inner.shared.reads(w) && b == (w == SHUTDOWN);
            assert(self.shared().reads(w));
        }
        b
    }
}

} // verus!
