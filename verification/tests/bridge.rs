use romio::reactor::bridge::{Bridge, Wakeups};
use romio::reactor::ready::{Direction, Ready};
use romio::task::Poll;

fn flags(readable: bool, writable: bool, error: bool) -> Ready {
    Ready { readable, writable, error }
}

fn order(w: Wakeups<u32>) -> Vec<u32> {
    let mut v = Vec::new();
    if let Some(r) = w.read {
        v.push(r);
    }
    if let Some(r) = w.write {
        v.push(r);
    }
    v
}

#[test]
fn ready_constructors_hold_one_flag_each() {
    assert_eq!(Ready::empty(), flags(false, false, false));
    assert_eq!(Ready::readable(), flags(true, false, false));
    assert_eq!(Ready::writable(), flags(false, true, false));
    assert_eq!(Ready::error(), flags(false, false, true));
    assert!(Ready::empty().is_empty());
    assert!(!Ready::readable().is_empty());
    assert!(Ready::readable().is_readable());
    assert!(!Ready::readable().is_writable());
    assert!(Ready::writable().is_writable());
    assert!(Ready::error().is_error());
}

#[test]
fn ready_union_and_clear() {
    let both = Ready::readable().or(Ready::writable());
    assert_eq!(both, flags(true, true, false));
    assert_eq!(both.clear(Direction::Read), flags(false, true, false));
    assert_eq!(both.clear(Direction::Write), flags(true, false, false));
    let with_error = both.or(Ready::error());
    assert_eq!(with_error.clear(Direction::Read), flags(false, true, true));
    assert_eq!(Ready::empty().or(Ready::empty()), Ready::empty());
}

#[test]
fn error_flag_makes_both_directions_ready() {
    assert!(Ready::error().is_ready(Direction::Read));
    assert!(Ready::error().is_ready(Direction::Write));
    assert!(Ready::readable().is_ready(Direction::Read));
    assert!(!Ready::readable().is_ready(Direction::Write));
    assert!(Ready::writable().is_ready(Direction::Write));
    assert!(!Ready::writable().is_ready(Direction::Read));
    assert!(!Ready::empty().is_ready(Direction::Read));
    assert!(!Ready::empty().is_ready(Direction::Write));
}

#[test]
fn poll_helpers_tell_the_variant() {
    assert!(Poll::Ready(3u8).is_ready());
    assert!(!Poll::Ready(3u8).is_pending());
    assert!(Poll::<u8>::Pending.is_pending());
    assert!(!Poll::<u8>::Pending.is_ready());
}

#[test]
fn fresh_bridge_is_not_ready_and_holds_nobody() {
    let b: Bridge<u32> = Bridge::new(5);
    assert_eq!(b.slot, 5);
    assert_eq!(b.readiness, Ready::empty());
    assert_eq!(b.read_waker, None);
    assert_eq!(b.write_waker, None);
}

#[test]
fn poll_on_unready_direction_stores_the_waker_and_suspends() {
    let mut b: Bridge<u32> = Bridge::new(0);
    assert_eq!(b.poll_read_ready(11), Poll::Pending);
    assert_eq!(b.read_waker, Some(11));
    assert_eq!(b.write_waker, None);
    assert_eq!(b.poll_write_ready(12), Poll::Pending);
    assert_eq!(b.write_waker, Some(12));
    assert_eq!(b.read_waker, Some(11));
}

#[test]
fn a_new_waker_replaces_the_old_one() {
    let mut b: Bridge<u32> = Bridge::new(0);
    assert_eq!(b.poll_read_ready(1), Poll::Pending);
    assert_eq!(b.poll_read_ready(2), Poll::Pending);
    assert_eq!(b.read_waker, Some(2));
    let w = b.deliver(Ready::readable());
    assert_eq!(order(w), vec![2]);
}

#[test]
fn poll_on_ready_direction_reports_flags_and_consumes_nothing() {
    let mut b: Bridge<u32> = Bridge::new(0);
    let _ = b.deliver(Ready::readable());
    assert_eq!(b.poll_read_ready(1), Poll::Ready(Ready::readable()));
    assert_eq!(b.read_waker, None);
    assert_eq!(b.poll_read_ready(2), Poll::Ready(Ready::readable()));
    assert_eq!(b.readiness, Ready::readable());
    assert_eq!(b.poll_write_ready(3), Poll::Pending);
    assert_eq!(b.write_waker, Some(3));
}

#[test]
fn clear_takes_the_flag_down_and_stores_the_waker() {
    let mut b: Bridge<u32> = Bridge::new(0);
    let _ = b.deliver(Ready::readable().or(Ready::writable()));
    b.clear_read_ready(9);
    assert_eq!(b.readiness, Ready::writable());
    assert_eq!(b.read_waker, Some(9));
    assert_eq!(b.poll_read_ready(10), Poll::Pending);
    assert_eq!(b.poll_write_ready(4), Poll::Ready(Ready::writable()));
    b.clear_write_ready(5);
    assert_eq!(b.readiness, Ready::empty());
    assert_eq!(b.write_waker, Some(5));
}

#[test]
fn clear_leaves_the_error_flag_up() {
    let mut b: Bridge<u32> = Bridge::new(0);
    let _ = b.deliver(Ready::readable().or(Ready::error()));
    b.clear_ready(Direction::Read, 1);
    assert_eq!(b.readiness, Ready::error());
    assert_eq!(b.poll_ready(Direction::Read, 2), Poll::Ready(Ready::error()));
    assert_eq!(b.read_waker, Some(1));
}

#[test]
fn event_wakes_only_the_matching_direction() {
    let mut b: Bridge<u32> = Bridge::new(0);
    let _ = b.poll_read_ready(1);
    let _ = b.poll_write_ready(2);
    let w = b.deliver(Ready::writable());
    assert_eq!(w.read, None);
    assert_eq!(w.write, Some(2));
    assert_eq!(b.read_waker, Some(1));
    assert_eq!(b.write_waker, None);
    assert_eq!(b.readiness, Ready::writable());
}

#[test]
fn event_for_both_directions_wakes_reader_then_writer() {
    let mut b: Bridge<u32> = Bridge::new(0);
    let _ = b.poll_write_ready(2);
    let _ = b.poll_read_ready(1);
    let w = b.deliver(Ready::readable().or(Ready::writable()));
    assert_eq!(order(w), vec![1, 2]);
}

#[test]
fn error_event_wakes_both_directions() {
    let mut b: Bridge<u32> = Bridge::new(0);
    let _ = b.poll_read_ready(1);
    let _ = b.poll_write_ready(2);
    let w = b.deliver(Ready::error());
    assert_eq!(order(w), vec![1, 2]);
    assert_eq!(b.readiness, Ready::error());
}

#[test]
fn empty_event_wakes_nobody() {
    let mut b: Bridge<u32> = Bridge::new(0);
    let _ = b.poll_read_ready(1);
    let w = b.deliver(Ready::empty());
    assert_eq!(order(w), Vec::<u32>::new());
    assert_eq!(b.read_waker, Some(1));
    assert_eq!(b.readiness, Ready::empty());
}

#[test]
fn waker_is_released_once_over_many_events() {
    let mut b: Bridge<u32> = Bridge::new(0);
    b.clear_read_ready(7);
    let mut released = Vec::new();
    for ev in [Ready::writable(), Ready::readable(), Ready::readable(), Ready::error()] {
        released.extend(order(b.deliver(ev)));
    }
    assert_eq!(released, vec![7]);
}

#[test]
fn waker_is_not_released_without_a_matching_event() {
    let mut b: Bridge<u32> = Bridge::new(0);
    b.clear_read_ready(7);
    let mut released = Vec::new();
    for ev in [Ready::writable(), Ready::empty(), Ready::writable()] {
        released.extend(order(b.deliver(ev)));
    }
    assert_eq!(released, Vec::<u32>::new());
    assert_eq!(b.read_waker, Some(7));
}

#[test]
fn each_clear_arms_exactly_one_wakeup() {
    let mut b: Bridge<u32> = Bridge::new(0);
    let mut released = Vec::new();
    for round in 0..3u32 {
        b.clear_read_ready(100 + round);
        released.extend(order(b.deliver(Ready::readable())));
        released.extend(order(b.deliver(Ready::readable())));
    }
    assert_eq!(released, vec![100, 101, 102]);
}

#[test]
fn flags_stay_up_after_delivery_until_cleared() {
    let mut b: Bridge<u32> = Bridge::new(0);
    let _ = b.poll_read_ready(1);
    let _ = b.deliver(Ready::readable());
    assert_eq!(b.poll_read_ready(2), Poll::Ready(Ready::readable()));
    assert_eq!(b.poll_read_ready(3), Poll::Ready(Ready::readable()));
    b.clear_read_ready(4);
    assert_eq!(b.poll_read_ready(5), Poll::Pending);
}
