use futures_concurrency::utils::maybe_done::MaybeDone;
use std::future;
use std::task::{Context, Waker};

#[test]
fn a_ready_future_makes_the_cell_done() {
    let mut cx = Context::from_waker(Waker::noop());
    let mut cell = MaybeDone::new(future::ready(5u8));
    assert!(cell.is_pending());
    assert!(!cell.is_done());
    assert!(cell.output().is_none());
    assert!(cell.poll(&mut cx));
    assert!(cell.is_done());
    assert!(!cell.is_pending());
    assert_eq!(cell.output(), Some(&5));
    assert_eq!(cell.take(), 5);
    assert!(!cell.is_done());
    assert!(!cell.is_pending());
    assert!(cell.output().is_none());
}

#[test]
fn a_pending_future_leaves_the_cell_pending() {
    let mut cx = Context::from_waker(Waker::noop());
    let mut cell = MaybeDone::new(future::pending::<u8>());
    assert!(!cell.poll(&mut cx));
    assert!(cell.is_pending());
    assert!(!cell.poll(&mut cx));
    assert!(cell.is_pending());
    assert!(cell.output().is_none());
}

#[test]
fn settle_records_the_outcome() {
    let mut cell = MaybeDone::new(future::pending::<&str>());
    assert!(!cell.settle(None));
    assert!(cell.is_pending());
    assert!(cell.settle(Some("done")));
    assert!(cell.is_done());
    assert_eq!(cell.output(), Some(&"done"));
    assert_eq!(cell.take(), "done");
    assert!(!cell.is_pending() && !cell.is_done());
}
