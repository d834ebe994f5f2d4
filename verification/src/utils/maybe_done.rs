//! A type that wraps a future to keep track of its completion status.
use core::future::Future;
use core::pin::Pin;
use core::task::Context;
use core::task::Poll;
use vstd::prelude::*;

verus! {

/// The wake-up context that a poll hands to the futures below it.  Nothing
/// here looks inside it: it is carried through to `Future::poll`.
#[verifier::external_type_specification]
#[verifier::external_body]
pub struct ExContext<'a>(core::task::Context<'a>);

/// `Future::poll`, once, on a future that is free to move: `Some` with the
/// output when the future is ready, `None` when it is still pending.
///
/// Nothing is claimed of the outcome, which is the future's to decide.  A
/// future may panic when it is polled again after it was ready; a
/// [`MaybeDone`] drops its future as soon as it is ready, so none is.
#[verifier::external_body]
fn poll_unpin<Fut: Future + Unpin>(future: &mut Fut, cx: &mut Context<'_>) -> (outcome: Option<
    Fut::Output,
>) {
    match Pin::new(future).poll(cx) {
        Poll::Ready(output) => Some(output),
        Poll::Pending => None,
    }
}

/// What a [`MaybeDone`] holds, leaving out the future itself.
pub enum Slot<T> {
    /// The future has not been ready yet.
    Pending,
    /// The future was ready with this output, which nobody has taken.
    Done(T),
    /// The output has been taken.
    Gone,
}

impl<T> Slot<T> {
    /// The slot after one poll of its future with the given outcome: a pending
    /// slot whose future was ready holds the output; every other slot is as
    /// before.
    pub open spec fn settled(self, outcome: Option<T>) -> Slot<T> {
        match (self, outcome) {
            (Slot::Pending, Some(output)) => Slot::Done(output),
            _ => self,
        }
    }
}

/// A future that may have completed.
///
/// The cell goes from `Future` to `Done` when its future is ready, and from
/// `Done` to `Gone` when the output is taken, and never back.
pub enum MaybeDone<Fut: Future> {
    /// A not-yet-completed future.
    Future(Fut),
    /// The output of the completed future.
    Done(Fut::Output),
    /// The empty variant after the result of a [`MaybeDone`] has been
    /// taken using the [`take`](MaybeDone::take) method.
    Gone,
}

impl<Fut: Future> View for MaybeDone<Fut> {
    type V = Slot<Fut::Output>;

    open spec fn view(&self) -> Slot<Fut::Output> {
        match *self {
            MaybeDone::Future(_) => Slot::Pending,
            MaybeDone::Done(output) => Slot::Done(output),
            MaybeDone::Gone => Slot::Gone,
        }
    }
}

impl<Fut: Future> MaybeDone<Fut> {
    /// Create a new instance of `MaybeDone`.
    pub fn new(future: Fut) -> (cell: Self)
        ensures
            cell == MaybeDone::Future(future),
    {
        MaybeDone::Future(future)
    }

    /// Whether the future has not been ready yet.
    pub fn is_pending(&self) -> (r: bool)
        ensures
            r <==> self@ is Pending,
    {
        matches!(self, MaybeDone::Future(_))
    }

    /// Whether the cell holds an output that nobody has taken.
    pub fn is_done(&self) -> (r: bool)
        ensures
            r <==> self@ is Done,
    {
        matches!(self, MaybeDone::Done(_))
    }

    /// Records what one poll of the future gave.  With `Some` the cell drops
    /// its future and holds the output, and the result is `true`; with `None`
    /// the cell is left as it is, and the result is `false`.
    pub fn settle(&mut self, outcome: Option<Fut::Output>) -> (ready: bool)
        requires
            old(self)@ is Pending,
        ensures
            final(self)@ == old(self)@.settled(outcome),
            outcome is None ==> *final(self) == *old(self),
            ready <==> outcome is Some,
    {
        match outcome {
            Some(output) => {
                *self = MaybeDone::Done(output);
                true
            },
            None => false,
        }
    }

    /// Records what one poll of the future gave, if the cell is pending; a
    /// cell that is not pending stays as it is, and the outcome is dropped.
    pub(crate) fn settle_if_pending(&mut self, outcome: Option<Fut::Output>)
        ensures
            final(self)@ == old(self)@.settled(outcome),
            !(old(self)@ is Pending) || outcome is None ==> *final(self) == *old(self),
    {
        if self.is_pending() {
            self.settle(outcome);
        }
    }

    /// Returns a reference to the future's output, when the cell holds one.
    pub fn output(&self) -> (output: Option<&Fut::Output>)
        ensures
            match self@ {
                Slot::Done(value) => output == Some(&value),
                _ => output is None,
            },
    {
        match self {
            MaybeDone::Done(output) => Some(output),
            _ => None,
        }
    }

    /// Moves the output out of a cell that is done, and leaves the cell
    /// `Gone`.
    pub fn take(&mut self) -> (output: Fut::Output)
        requires
            old(self)@ is Done,
        ensures
            old(self)@ == Slot::Done(output),
            final(self)@ is Gone,
    {
        let mut cell = MaybeDone::Gone;
        core::mem::swap(self, &mut cell);
        match cell {
            MaybeDone::Done(output) => output,
            _ => vstd::pervasive::unreached(),
        }
    }
}

impl<Fut: Future + Unpin> MaybeDone<Fut> {
    /// Polls the future of a pending cell, once.  The result says whether the
    /// future was ready; if it was, the cell now holds its output, and if not,
    /// the cell is pending still.
    pub fn poll(&mut self, cx: &mut Context<'_>) -> (ready: bool)
        requires
            old(self)@ is Pending,
        ensures
            exists|outcome: Option<Fut::Output>|
                {
                    &&& final(self)@ == #[trigger] old(self)@.settled(outcome)
                    &&& ready <==> outcome is Some
                },
    {
        let outcome = match self {
            MaybeDone::Future(future) => poll_unpin(future, cx),
            _ => None,
        };
        let ready = self.settle(outcome);
        ready
    }

    /// Polls the future once if the cell is pending; a cell that is not
    /// pending stays as it is, and its future, if it had one, is gone and
    /// cannot be polled.
    pub(crate) fn poll_if_pending(&mut self, cx: &mut Context<'_>)
        ensures
            exists|outcome: Option<Fut::Output>|
                final(self)@ == #[trigger] old(self)@.settled(outcome),
            !(old(self)@ is Pending) ==> *final(self) == *old(self),
    {
        if self.is_pending() {
            self.poll(cx);
        } else {
            assert(self@ == old(self)@.settled(None));
        }
    }
}

} // verus!
