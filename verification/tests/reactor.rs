use romio::io::{Error, ErrorKind};
use romio::reactor::ready::{Direction, Ready};
use romio::reactor::{slot_of, token_of, Event, Reactor, TOKEN_START, TOKEN_WAKEUP};
use romio::task::Poll;

fn ev(slot: usize, readiness: Ready) -> Event {
    Event { token: token_of(slot).expect("the slot has a token"), readiness }
}

#[test]
fn new_reactor_is_idle() {
    let r: Reactor<u32> = Reactor::new();
    assert!(r.is_idle());
    assert!(!r.is_wakeup_pending());
    assert!(!r.is_registered(0));
    assert_eq!(r.readiness(0), None);
}

#[test]
fn register_allocates_slots_in_order() {
    let mut r: Reactor<u32> = Reactor::new();
    assert_eq!(r.register(), Some(0));
    assert_eq!(r.register(), Some(1));
    assert_eq!(r.register(), Some(2));
    assert!(!r.is_idle());
    assert!(r.is_registered(0) && r.is_registered(1) && r.is_registered(2));
    assert!(!r.is_registered(3));
    assert_eq!(r.readiness(1), Some(Ready::empty()));
}

#[test]
fn deregister_frees_the_slot_for_reuse() {
    let mut r: Reactor<u32> = Reactor::new();
    assert_eq!(r.register(), Some(0));
    assert_eq!(r.register(), Some(1));
    assert_eq!(r.register(), Some(2));
    assert!(r.deregister(1));
    assert!(!r.is_registered(1));
    assert!(r.is_registered(0) && r.is_registered(2));
    assert_eq!(r.register(), Some(1));
    assert_eq!(r.register(), Some(3));
}

#[test]
fn deregister_of_a_free_slot_changes_nothing() {
    let mut r: Reactor<u32> = Reactor::new();
    assert!(!r.deregister(0));
    assert_eq!(r.register(), Some(0));
    assert!(!r.deregister(7));
    assert!(r.deregister(0));
    assert!(!r.deregister(0));
    assert!(r.is_idle());
}

#[test]
fn reactor_is_idle_again_after_last_deregistration() {
    let mut r: Reactor<u32> = Reactor::new();
    let a = r.register().unwrap();
    let b = r.register().unwrap();
    assert!(!r.is_idle());
    assert!(r.deregister(a));
    assert!(!r.is_idle());
    assert!(r.deregister(b));
    assert!(r.is_idle());
}

#[test]
fn a_reused_slot_starts_fresh() {
    let mut r: Reactor<u32> = Reactor::new();
    let a = r.register().unwrap();
    assert_eq!(r.poll_ready(a, Direction::Read, 1), Poll::Pending);
    let _ = r.turn(&vec![ev(a, Ready::writable())]);
    assert!(r.deregister(a));
    assert_eq!(r.register(), Some(a));
    assert_eq!(r.readiness(a), Some(Ready::empty()));
    assert_eq!(r.turn(&vec![ev(a, Ready::readable())]), Vec::<u32>::new());
}

#[test]
fn poll_on_unregistered_slot_fails() {
    let mut r: Reactor<u32> = Reactor::new();
    assert_eq!(
        r.poll_ready(0, Direction::Read, 1),
        Poll::Ready(Err(Error::new(ErrorKind::Other)))
    );
    assert_eq!(r.clear_ready(3, Direction::Write, 1), Err(Error::new(ErrorKind::Other)));
    assert!(r.is_idle());
}

#[test]
fn turn_wakes_the_suspended_reader() {
    let mut r: Reactor<u32> = Reactor::new();
    let a = r.register().unwrap();
    assert_eq!(r.poll_ready(a, Direction::Read, 42), Poll::Pending);
    assert_eq!(r.turn(&vec![ev(a, Ready::readable())]), vec![42]);
    assert_eq!(r.readiness(a), Some(Ready::readable()));
    assert_eq!(r.poll_ready(a, Direction::Read, 43), Poll::Ready(Ok(Ready::readable())));
}

#[test]
fn turn_without_events_wakes_nobody() {
    let mut r: Reactor<u32> = Reactor::new();
    let a = r.register().unwrap();
    assert_eq!(r.poll_ready(a, Direction::Read, 42), Poll::Pending);
    assert_eq!(r.turn(&Vec::new()), Vec::<u32>::new());
    assert_eq!(r.readiness(a), Some(Ready::empty()));
}

#[test]
fn turn_wakes_in_event_order() {
    let mut r: Reactor<u32> = Reactor::new();
    let a = r.register().unwrap();
    let b = r.register().unwrap();
    let c = r.register().unwrap();
    let _ = r.poll_ready(a, Direction::Read, 10);
    let _ = r.poll_ready(a, Direction::Write, 11);
    let _ = r.poll_ready(b, Direction::Read, 20);
    let _ = r.poll_ready(c, Direction::Write, 31);
    let events = vec![
        ev(c, Ready::writable()),
        ev(a, Ready::readable().or(Ready::writable())),
        ev(b, Ready::writable()),
        ev(b, Ready::readable()),
    ];
    assert_eq!(r.turn(&events), vec![31, 10, 11, 20]);
    assert_eq!(r.readiness(b), Some(Ready::readable().or(Ready::writable())));
}

#[test]
fn repeated_events_in_one_turn_wake_once() {
    let mut r: Reactor<u32> = Reactor::new();
    let a = r.register().unwrap();
    let _ = r.poll_ready(a, Direction::Read, 5);
    let events = vec![ev(a, Ready::readable()), ev(a, Ready::readable()), ev(a, Ready::error())];
    assert_eq!(r.turn(&events), vec![5]);
    assert_eq!(r.turn(&events), Vec::<u32>::new());
}

#[test]
fn events_for_unknown_tokens_are_dropped() {
    let mut r: Reactor<u32> = Reactor::new();
    let a = r.register().unwrap();
    let _ = r.poll_ready(a, Direction::Read, 5);
    let events = vec![
        ev(9, Ready::readable()),
        ev(a + 1, Ready::readable()),
        Event { token: usize::MAX, readiness: Ready::readable() },
    ];
    assert_eq!(r.turn(&events), Vec::<u32>::new());
    assert!(!r.is_registered(9));
    assert_eq!(r.readiness(a), Some(Ready::empty()));
}

#[test]
fn turn_does_not_change_registrations() {
    let mut r: Reactor<u32> = Reactor::new();
    let a = r.register().unwrap();
    let b = r.register().unwrap();
    assert!(r.deregister(a));
    let _ = r.turn(&vec![ev(a, Ready::readable()), ev(b, Ready::readable())]);
    assert!(!r.is_registered(a));
    assert!(r.is_registered(b));
    assert!(!r.is_idle());
    assert_eq!(r.register(), Some(a));
}

#[test]
fn wakeup_requests_coalesce() {
    let mut r: Reactor<u32> = Reactor::new();
    assert!(r.wakeup());
    assert!(r.is_wakeup_pending());
    assert!(!r.wakeup());
    assert!(!r.wakeup());
    assert!(r.is_wakeup_pending());
}

#[test]
fn wakeup_event_consumes_the_request_and_wakes_nobody() {
    let mut r: Reactor<u32> = Reactor::new();
    let a = r.register().unwrap();
    let _ = r.poll_ready(a, Direction::Read, 5);
    assert!(r.wakeup());
    let interrupt = Event { token: TOKEN_WAKEUP, readiness: Ready::readable() };
    assert_eq!(r.turn(&vec![interrupt]), Vec::<u32>::new());
    assert!(!r.is_wakeup_pending());
    assert_eq!(r.readiness(a), Some(Ready::empty()));
    assert!(r.wakeup());
}

#[test]
fn tokens_are_slots_shifted_past_the_wakeup_token() {
    assert_eq!(TOKEN_WAKEUP, 0);
    assert_eq!(TOKEN_START, 1);
    assert_eq!(token_of(0), Some(1));
    assert_eq!(token_of(41), Some(42));
    assert_eq!(token_of(usize::MAX - 1), Some(usize::MAX));
    assert_eq!(token_of(usize::MAX), None);
    assert_eq!(slot_of(TOKEN_WAKEUP), None);
    assert_eq!(slot_of(1), Some(0));
    assert_eq!(slot_of(42), Some(41));
    assert_eq!(slot_of(usize::MAX), Some(usize::MAX - 1));
}

#[test]
fn wakeup_event_does_not_reach_slot_zero() {
    let mut r: Reactor<u32> = Reactor::new();
    let a = r.register().unwrap();
    assert_eq!(a, 0);
    let _ = r.poll_ready(a, Direction::Read, 5);
    let interrupt = Event { token: TOKEN_WAKEUP, readiness: Ready::readable() };
    assert_eq!(r.turn(&vec![interrupt]), Vec::<u32>::new());
    assert_eq!(r.turn(&vec![Event { token: 1, readiness: Ready::readable() }]), vec![5]);
}

#[test]
fn clear_by_slot_rearms_the_task() {
    let mut r: Reactor<u32> = Reactor::new();
    let a = r.register().unwrap();
    let _ = r.turn(&vec![ev(a, Ready::writable())]);
    assert_eq!(r.poll_ready(a, Direction::Write, 1), Poll::Ready(Ok(Ready::writable())));
    assert_eq!(r.clear_ready(a, Direction::Write, 2), Ok(()));
    assert_eq!(r.readiness(a), Some(Ready::empty()));
    assert_eq!(r.turn(&vec![ev(a, Ready::writable())]), vec![2]);
}

#[test]
fn resources_do_not_disturb_each_other() {
    let mut r: Reactor<u32> = Reactor::new();
    let a = r.register().unwrap();
    let b = r.register().unwrap();
    let _ = r.poll_ready(a, Direction::Read, 1);
    let _ = r.poll_ready(b, Direction::Read, 2);
    assert_eq!(r.turn(&vec![ev(b, Ready::readable())]), vec![2]);
    assert_eq!(r.readiness(a), Some(Ready::empty()));
    assert_eq!(r.poll_ready(a, Direction::Read, 3), Poll::Pending);
    assert_eq!(r.turn(&vec![ev(a, Ready::readable())]), vec![3]);
}

fn armed() -> (Reactor<u32>, usize, usize) {
    let mut r: Reactor<u32> = Reactor::new();
    let a = r.register().unwrap();
    let b = r.register().unwrap();
    let _ = r.poll_ready(a, Direction::Read, 10);
    let _ = r.poll_ready(a, Direction::Write, 11);
    let _ = r.poll_ready(b, Direction::Read, 20);
    let _ = r.poll_ready(b, Direction::Write, 21);
    (r, a, b)
}

#[test]
fn one_turn_does_what_two_turns_do() {
    let (mut whole, a, b) = armed();
    let (mut split, _, _) = armed();
    let first = vec![ev(b, Ready::writable()), ev(a, Ready::readable())];
    let second = vec![ev(a, Ready::error()), ev(b, Ready::readable())];
    let mut all = first.clone();
    all.extend(second.iter().copied());

    let at_once = whole.turn(&all);
    let mut in_two = split.turn(&first);
    in_two.extend(split.turn(&second));

    assert_eq!(at_once, vec![21, 10, 11, 20]);
    assert_eq!(in_two, at_once);
    for slot in [a, b] {
        assert_eq!(whole.readiness(slot), split.readiness(slot));
    }
    assert_eq!(whole.readiness(a), Some(Ready::readable().or(Ready::error())));
    assert_eq!(whole.readiness(b), Some(Ready::readable().or(Ready::writable())));
}

#[test]
fn a_turn_wakes_at_most_two_tasks_per_event() {
    let (mut r, a, b) = armed();
    let both = Ready::readable().or(Ready::writable());
    let events = vec![ev(a, both), ev(a, both), ev(b, both), ev(b, Ready::error())];
    let wakes = r.turn(&events);
    assert_eq!(wakes, vec![10, 11, 20, 21]);
    assert!(wakes.len() <= 2 * events.len());
}
