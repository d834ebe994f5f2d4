use futures_concurrency::future::race_ok::vec::AggregateError;
use futures_concurrency::future::race_ok::vec::RaceOk as Race;
use futures_concurrency::future::race_ok::RaceOk;
use std::cell::Cell;
use std::future;
use std::future::Future;
use std::io::{Error, ErrorKind};
use std::rc::Rc;
use std::task::{Context, Poll, Waker};

/// Polls the race until it reports, and counts the polls.
fn drive<Fut, T, E>(race: &mut Race<Fut, T, E>) -> (Result<T, AggregateError<E>>, u32)
where
    Fut: Future<Output = Result<T, E>> + Unpin,
{
    let mut cx = Context::from_waker(Waker::noop());
    let mut polls = 0;
    loop {
        assert!(!race.is_done());
        polls += 1;
        if let Some(res) = race.poll(&mut cx) {
            assert!(race.is_done());
            return (res, polls);
        }
        assert!(polls < 1000);
    }
}

/// A future that is pending for `rounds` polls and then ready with `value`;
/// `polled` counts how often it was polled.
fn after<T: Clone + Unpin>(
    rounds: u32,
    value: T,
    polled: Rc<Cell<u32>>,
) -> impl Future<Output = T> + Unpin {
    let mut left = rounds;
    future::poll_fn(move |_cx| {
        polled.set(polled.get() + 1);
        if left == 0 {
            Poll::Ready(value.clone())
        } else {
            left -= 1;
            Poll::Pending
        }
    })
}

fn counter() -> Rc<Cell<u32>> {
    Rc::new(Cell::new(0))
}

#[test]
fn all_ok() {
    let mut race = vec![future::ready(Ok("hello")), future::ready(Ok("world"))].race_ok();
    let (res, _): (Result<&str, AggregateError<Error>>, u32) = drive(&mut race);
    assert!(res.is_ok());
}

#[test]
fn one_err() {
    let err = Error::new(ErrorKind::Other, "oh no");
    let mut race = vec![future::ready(Ok("hello")), future::ready(Err(err))].race_ok();
    let (res, _): (Result<&str, AggregateError<Error>>, u32) = drive(&mut race);
    assert_eq!(res.unwrap(), "hello");
}

#[test]
fn all_err() {
    let err1 = Error::new(ErrorKind::Other, "oops");
    let err2 = Error::new(ErrorKind::Other, "oh no");
    let mut race = vec![future::ready(Err(err1)), future::ready(Err(err2))].race_ok();
    let (res, _): (Result<&str, AggregateError<Error>>, u32) = drive(&mut race);
    let errs = res.unwrap_err();
    assert_eq!(errs[0].to_string(), "oops");
    assert_eq!(errs[1].to_string(), "oh no");
}

#[test]
fn lowest_index_wins_among_ready_successes() {
    let first = counter();
    let second = counter();
    let mut race = vec![
        after(0, Ok::<&str, String>("hello"), first.clone()),
        after(0, Ok("world"), second.clone()),
    ]
    .race_ok();
    let (res, polls) = drive(&mut race);
    assert_eq!(res.unwrap(), "hello");
    assert_eq!(polls, 1);
    // The future behind the winner was not polled at all.
    assert_eq!(first.get(), 1);
    assert_eq!(second.get(), 0);
}

#[test]
fn success_wins_whatever_the_order_of_readiness() {
    // The failure is ready first, the success three polls later.
    let mut race = vec![
        after(3, Ok::<&str, String>("hello"), counter()),
        after(0, Err("oh no".to_string()), counter()),
    ]
    .race_ok();
    let (res, polls) = drive(&mut race);
    assert_eq!(res.unwrap(), "hello");
    assert_eq!(polls, 4);

    // The success is ready first, the failure never.
    let mut race = vec![
        after(0, Ok::<&str, String>("hello"), counter()),
        after(1000, Err("oh no".to_string()), counter()),
    ]
    .race_ok();
    let (res, polls) = drive(&mut race);
    assert_eq!(res.unwrap(), "hello");
    assert_eq!(polls, 1);

    // The same with the failure in front.
    let mut race = vec![
        after(2, Err("oh no".to_string()), counter()),
        after(1, Ok::<&str, String>("hello"), counter()),
    ]
    .race_ok();
    let (res, polls) = drive(&mut race);
    assert_eq!(res.unwrap(), "hello");
    assert_eq!(polls, 2);
}

#[test]
fn a_later_success_that_is_ready_first_wins() {
    let mut race = vec![
        after(5, Ok::<&str, String>("slow"), counter()),
        after(1, Ok("fast"), counter()),
    ]
    .race_ok();
    let (res, polls) = drive(&mut race);
    assert_eq!(res.unwrap(), "fast");
    assert_eq!(polls, 2);
}

#[test]
fn errors_keep_the_order_of_the_futures() {
    // The futures fail in the order 2, 0, 1.
    let mut race = vec![
        after(1, Err::<u8, &str>("e0"), counter()),
        after(2, Err("e1"), counter()),
        after(0, Err("e2"), counter()),
    ]
    .race_ok();
    let (res, polls) = drive(&mut race);
    let errs = res.unwrap_err();
    assert_eq!(polls, 3);
    assert_eq!(errs.len(), 3);
    assert_eq!(*errs.get(0), "e0");
    assert_eq!(*errs.get(1), "e1");
    assert_eq!(*errs.get(2), "e2");
    assert_eq!(errs.into_inner(), vec!["e0", "e1", "e2"]);
}

#[test]
fn a_future_that_was_ready_is_not_polled_again() {
    let failed = counter();
    let slow = counter();
    let mut race = vec![
        after(0, Err::<u8, &str>("e0"), failed.clone()),
        after(3, Ok(7), slow.clone()),
    ]
    .race_ok();
    let (res, polls) = drive(&mut race);
    assert_eq!(res.unwrap(), 7);
    assert_eq!(polls, 4);
    assert_eq!(failed.get(), 1);
    assert_eq!(slow.get(), 4);
}

#[test]
fn no_futures_fail_at_once() {
    let futures: Vec<future::Ready<Result<u8, String>>> = Vec::new();
    let mut race = futures.race_ok();
    assert_eq!(race.len(), 0);
    assert!(!race.is_done());
    let mut cx = Context::from_waker(Waker::noop());
    let res = race.poll(&mut cx);
    let errs = res.unwrap().unwrap_err();
    assert_eq!(errs.len(), 0);
    assert!(race.is_done());
}

#[test]
fn pending_futures_report_nothing() {
    let mut race = vec![
        after(1000, Ok::<u8, &str>(1), counter()),
        after(0, Err("e1"), counter()),
    ]
    .race_ok();
    let mut cx = Context::from_waker(Waker::noop());
    assert!(race.poll(&mut cx).is_none());
    assert!(!race.is_done());
    assert!(race.poll(&mut cx).is_none());
    assert!(!race.is_done());
    assert_eq!(race.len(), 2);
}

#[test]
fn resolve_takes_the_first_success() {
    let mut race = vec![
        future::pending::<Result<&str, &str>>(),
        future::pending(),
        future::pending(),
    ]
    .race_ok();
    assert!(race.resolve(vec![None, Some(Err("e1")), None]).is_none());
    assert!(!race.is_done());
    // Slot 1 has failed already: what is given for it now does not count.
    let out = race.resolve(vec![None, Some(Ok("late")), Some(Ok("won"))]);
    assert_eq!(out.unwrap().unwrap(), "won");
    assert!(race.is_done());
}

#[test]
fn resolve_prefers_the_lower_index() {
    let mut race = vec![future::pending::<Result<&str, &str>>(), future::pending()].race_ok();
    let out = race.resolve(vec![Some(Ok("hello")), Some(Ok("world"))]);
    assert_eq!(out.unwrap().unwrap(), "hello");
}

#[test]
fn resolve_collects_the_errors_in_order() {
    let mut race = vec![
        future::pending::<Result<u8, &str>>(),
        future::pending(),
        future::pending(),
    ]
    .race_ok();
    assert!(race.resolve(vec![None, None, Some(Err("e2"))]).is_none());
    assert!(race.resolve(vec![Some(Err("e0")), None, None]).is_none());
    let out = race.resolve(vec![None, Some(Err("e1")), None]);
    let errs = out.unwrap().unwrap_err();
    assert_eq!(errs.to_string(), "e0e1e2");
    assert!(race.is_done());
}

#[test]
fn resolve_of_no_futures_is_the_empty_aggregate() {
    let futures: Vec<future::Pending<Result<u8, String>>> = Vec::new();
    let mut race = futures.race_ok();
    let errs = race.resolve(Vec::new()).unwrap().unwrap_err();
    assert_eq!(errs.len(), 0);
    assert_eq!(errs.to_string(), "");
}
