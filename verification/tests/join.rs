use futures_concurrency::future::join::tuple::Join2;
use futures_concurrency::future::join::tuple::Join3;
use futures_concurrency::future::join::Join;
use std::cell::Cell;
use std::future;
use std::future::Future;
use std::rc::Rc;
use std::task::{Context, Poll, Waker};

/// A future that is pending for `rounds` polls and then ready with `value`;
/// `polled` counts how often it was polled.
fn after<T: Clone + Unpin>(
    rounds: u32,
    value: T,
    polled: Rc<Cell<u32>>,
) -> impl Future<Output = T> + Unpin {
    let mut left = rounds;
    future::poll_fn(move |_cx| {
        polled.set(polled.get() + 1);
        if left == 0 {
            Poll::Ready(value.clone())
        } else {
            left -= 1;
            Poll::Pending
        }
    })
}

fn counter() -> Rc<Cell<u32>> {
    Rc::new(Cell::new(0))
}

#[test]
fn join_of_two_ready_values() {
    let mut cx = Context::from_waker(Waker::noop());
    let mut join = (
        future::ready(1u8),
        future::ready("two"),
    )
        .join();
    assert!(!join.is_done());
    let out = join.poll(&mut cx);
    assert_eq!(out, Some((1u8, "two")));
    assert!(join.is_done());
}

#[test]
fn join_of_three_ready_values() {
    let mut cx = Context::from_waker(Waker::noop());
    let mut join = (
        future::ready(1u8),
        future::ready("two"),
        future::ready(3u16),
    )
        .join();
    assert!(!join.is_done());
    let out = join.poll(&mut cx);
    assert_eq!(out, Some((1u8, "two", 3u16)));
    assert!(join.is_done());
}

#[test]
fn join_of_four_ready_values() {
    let mut cx = Context::from_waker(Waker::noop());
    let mut join = (
        future::ready(1u8),
        future::ready("two"),
        future::ready(3u16),
        future::ready('4'),
    )
        .join();
    assert!(!join.is_done());
    let out = join.poll(&mut cx);
    assert_eq!(out, Some((1u8, "two", 3u16, '4')));
    assert!(join.is_done());
}

#[test]
fn join_of_five_ready_values() {
    let mut cx = Context::from_waker(Waker::noop());
    let mut join = (
        future::ready(1u8),
        future::ready("two"),
        future::ready(3u16),
        future::ready('4'),
        future::ready(5u32),
    )
        .join();
    assert!(!join.is_done());
    let out = join.poll(&mut cx);
    assert_eq!(out, Some((1u8, "two", 3u16, '4', 5u32)));
    assert!(join.is_done());
}

#[test]
fn join_of_six_ready_values() {
    let mut cx = Context::from_waker(Waker::noop());
    let mut join = (
        future::ready(1u8),
        future::ready("two"),
        future::ready(3u16),
        future::ready('4'),
        future::ready(5u32),
        future::ready(6i64),
    )
        .join();
    assert!(!join.is_done());
    let out = join.poll(&mut cx);
    assert_eq!(out, Some((1u8, "two", 3u16, '4', 5u32, 6i64)));
    assert!(join.is_done());
}

#[test]
fn join_of_seven_ready_values() {
    let mut cx = Context::from_waker(Waker::noop());
    let mut join = (
        future::ready(1u8),
        future::ready("two"),
        future::ready(3u16),
        future::ready('4'),
        future::ready(5u32),
        future::ready(6i64),
        future::ready("seven".to_string()),
    )
        .join();
    assert!(!join.is_done());
    let out = join.poll(&mut cx);
    assert_eq!(out, Some((1u8, "two", 3u16, '4', 5u32, 6i64, "seven".to_string())));
    assert!(join.is_done());
}

#[test]
fn join_of_eight_ready_values() {
    let mut cx = Context::from_waker(Waker::noop());
    let mut join = (
        future::ready(1u8),
        future::ready("two"),
        future::ready(3u16),
        future::ready('4'),
        future::ready(5u32),
        future::ready(6i64),
        future::ready("seven".to_string()),
        future::ready(8usize),
    )
        .join();
    assert!(!join.is_done());
    let out = join.poll(&mut cx);
    assert_eq!(out, Some((1u8, "two", 3u16, '4', 5u32, 6i64, "seven".to_string(), 8usize)));
    assert!(join.is_done());
}

#[test]
fn join_of_nine_ready_values() {
    let mut cx = Context::from_waker(Waker::noop());
    let mut join = (
        future::ready(1u8),
        future::ready("two"),
        future::ready(3u16),
        future::ready('4'),
        future::ready(5u32),
        future::ready(6i64),
        future::ready("seven".to_string()),
        future::ready(8usize),
        future::ready(9i8),
    )
        .join();
    assert!(!join.is_done());
    let out = join.poll(&mut cx);
    assert_eq!(out, Some((1u8, "two", 3u16, '4', 5u32, 6i64, "seven".to_string(), 8usize, 9i8)));
    assert!(join.is_done());
}

#[test]
fn join_of_ten_ready_values() {
    let mut cx = Context::from_waker(Waker::noop());
    let mut join = (
        future::ready(1u8),
        future::ready("two"),
        future::ready(3u16),
        future::ready('4'),
        future::ready(5u32),
        future::ready(6i64),
        future::ready("seven".to_string()),
        future::ready(8usize),
        future::ready(9i8),
        future::ready(true),
    )
        .join();
    assert!(!join.is_done());
    let out = join.poll(&mut cx);
    assert_eq!(out, Some((1u8, "two", 3u16, '4', 5u32, 6i64, "seven".to_string(), 8usize, 9i8, true)));
    assert!(join.is_done());
}

#[test]
fn join_of_eleven_ready_values() {
    let mut cx = Context::from_waker(Waker::noop());
    let mut join = (
        future::ready(1u8),
        future::ready("two"),
        future::ready(3u16),
        future::ready('4'),
        future::ready(5u32),
        future::ready(6i64),
        future::ready("seven".to_string()),
        future::ready(8usize),
        future::ready(9i8),
        future::ready(true),
        future::ready(11u64),
    )
        .join();
    assert!(!join.is_done());
    let out = join.poll(&mut cx);
    assert_eq!(out, Some((1u8, "two", 3u16, '4', 5u32, 6i64, "seven".to_string(), 8usize, 9i8, true, 11u64)));
    assert!(join.is_done());
}

#[test]
fn join_of_twelve_ready_values() {
    let mut cx = Context::from_waker(Waker::noop());
    let mut join = (
        future::ready(1u8),
        future::ready("two"),
        future::ready(3u16),
        future::ready('4'),
        future::ready(5u32),
        future::ready(6i64),
        future::ready("seven".to_string()),
        future::ready(8usize),
        future::ready(9i8),
        future::ready(true),
        future::ready(11u64),
        future::ready(12i32),
    )
        .join();
    assert!(!join.is_done());
    let out = join.poll(&mut cx);
    assert_eq!(out, Some((1u8, "two", 3u16, '4', 5u32, 6i64, "seven".to_string(), 8usize, 9i8, true, 11u64, 12i32)));
    assert!(join.is_done());
}

#[test]
fn join_waits_for_the_slowest() {
    let mut cx = Context::from_waker(Waker::noop());
    let fast = counter();
    let slow = counter();
    let mid = counter();
    let mut join = (
        after(0, "fast", fast.clone()),
        after(3, "slow", slow.clone()),
        after(1, "mid", mid.clone()),
    )
        .join();
    for _ in 0..3 {
        assert_eq!(join.poll(&mut cx), None);
        assert!(!join.is_done());
    }
    assert_eq!(join.poll(&mut cx), Some(("fast", "slow", "mid")));
    assert!(join.is_done());
    // Each future was polled until it was ready, and not once more.
    assert_eq!(fast.get(), 1);
    assert_eq!(slow.get(), 4);
    assert_eq!(mid.get(), 2);
}

#[test]
fn join_keeps_the_order_of_the_futures() {
    let mut cx = Context::from_waker(Waker::noop());
    // The last future is ready first, the first one last.
    let mut join = (
        after(2, 1u8, counter()),
        after(1, 2u8, counter()),
        after(0, 3u8, counter()),
    )
        .join();
    assert_eq!(join.poll(&mut cx), None);
    assert_eq!(join.poll(&mut cx), None);
    assert_eq!(join.poll(&mut cx), Some((1, 2, 3)));
}

#[test]
fn join_is_never_ready_while_a_future_is_pending() {
    let mut cx = Context::from_waker(Waker::noop());
    let mut join = (future::ready(1u8), future::pending::<u8>()).join();
    for _ in 0..50 {
        assert_eq!(join.poll(&mut cx), None);
        assert!(!join.is_done());
    }
    let mut join = (future::pending::<u8>(), future::ready(1u8)).join();
    for _ in 0..50 {
        assert_eq!(join.poll(&mut cx), None);
        assert!(!join.is_done());
    }
}

#[test]
fn join_of_mixed_futures() {
    let mut cx = Context::from_waker(Waker::noop());
    let mut join = Join2::new(future::ready("now"), after(1, 5u64, counter()));
    assert_eq!(join.poll(&mut cx), None);
    assert_eq!(join.poll(&mut cx), Some(("now", 5)));
    assert!(join.is_done());
}

#[test]
fn resolve_hands_out_ready_values_in_place() {
    let mut join = Join3::new(
        future::pending::<u8>(),
        future::pending::<&str>(),
        future::pending::<bool>(),
    );
    assert_eq!(join.resolve((Some(1), Some("two"), Some(true))), Some((1, "two", true)));
    assert!(join.is_done());
}

#[test]
fn resolve_waits_for_every_future() {
    let mut join = Join3::new(
        future::pending::<u8>(),
        future::pending::<&str>(),
        future::pending::<bool>(),
    );
    assert_eq!(join.resolve((None, Some("two"), None)), None);
    assert!(!join.is_done());
    assert_eq!(join.resolve((None, None, None)), None);
    // The second future was ready before: what is given for it now does not count.
    assert_eq!(join.resolve((None, Some("again"), Some(false))), None);
    assert!(!join.is_done());
    assert_eq!(join.resolve((Some(9), None, None)), Some((9, "two", false)));
    assert!(join.is_done());
}

#[test]
fn resolve_of_two() {
    let mut join = Join2::new(future::pending::<u8>(), future::pending::<u8>());
    assert_eq!(join.resolve((Some(1), None)), None);
    assert_eq!(join.resolve((Some(7), Some(2))), Some((1, 2)));
}
