use crate::future::join::Join as JoinTrait;
use crate::utils::maybe_done::MaybeDone;
use crate::utils::maybe_done::Slot;
use core::future::Future;
use core::task::Context;
use vstd::prelude::*;

verus! {

/// Waits for two futures to complete, and hands out their outputs
/// together, in the order of the futures.
///
/// This `struct` is created by the [`join`] method on the [`Join`] trait.
///
/// [`join`]: crate::future::join::Join::join
/// [`Join`]: crate::future::join::Join
#[must_use]
pub struct Join2<A: Future, B: Future> {
    done: bool,
    a: MaybeDone<A>,
    b: MaybeDone<B>,
}

impl<A: Future, B: Future> Join2<A, B> {
    /// The cells, one for each future, in the order of the futures.
    pub closed spec fn cells(&self) -> (MaybeDone<A>, MaybeDone<B>) {
        (self.a, self.b)
    }

    /// What the cells hold, leaving out the futures.
    pub open spec fn slots(&self) -> (Slot<A::Output>, Slot<B::Output>) {
        (self.cells().0@, self.cells().1@)
    }

    /// Whether the join has handed out the outputs.  It must not be polled
    /// after that.
    pub closed spec fn completed(&self) -> bool {
        self.done
    }

    /// Whether no future has been ready yet.
    pub open spec fn all_pending(slots: (Slot<A::Output>, Slot<B::Output>)) -> bool {
        slots.0 is Pending && slots.1 is Pending
    }

    /// Whether every future was ready when it was polled.
    pub open spec fn all_some(outcomes: (Option<A::Output>, Option<B::Output>)) -> bool {
        outcomes.0 is Some && outcomes.1 is Some
    }

    /// Whether every cell that is pending in `after` holds the future that it
    /// holds in `before`.
    pub open spec fn futures_kept(
        before: (MaybeDone<A>, MaybeDone<B>),
        after: (MaybeDone<A>, MaybeDone<B>),
    ) -> bool {
        (after.0@ is Pending ==> after.0 == before.0)
            && (after.1@ is Pending ==> after.1 == before.1)
    }

    /// Whether every future has been ready, in the round with these outcomes
    /// or before it.
    pub open spec fn all_ready(
        slots: (Slot<A::Output>, Slot<B::Output>),
        outcomes: (Option<A::Output>, Option<B::Output>),
    ) -> bool {
        (slots.0 is Done || (slots.0 is Pending && outcomes.0 is Some))
            && (slots.1 is Done || (slots.1 is Pending && outcomes.1 is Some))
    }

    /// One round of the join: what the slots are afterwards, and what the
    /// round hands out.
    ///
    /// `outcomes` holds what each future gave when it was polled; an outcome
    /// counts only where the slot was pending.  If every slot then holds an
    /// output, all of them are taken and handed out together, in the order of
    /// the futures.  If not, nothing is handed out and the outputs stay where
    /// they are.
    pub open spec fn round(
        slots: (Slot<A::Output>, Slot<B::Output>),
        outcomes: (Option<A::Output>, Option<B::Output>),
    ) -> (
        (Slot<A::Output>, Slot<B::Output>),
        Option<(A::Output, B::Output)>,
    ) {
        let a = slots.0.settled(outcomes.0);
        let b = slots.1.settled(outcomes.1);
        if a is Done && b is Done {
            (
                (Slot::Gone, Slot::Gone),
                Some((a->Done_0, b->Done_0)),
            )
        } else {
            ((a, b), None)
        }
    }

    /// A join of these futures, none of them polled yet.
    pub fn new(a: A, b: B) -> (join: Self)
        ensures
            join.cells() == (MaybeDone::Future(a), MaybeDone::Future(b)),
            !join.completed(),
    {
        Join2 {
            done: false,
            a: MaybeDone::new(a),
            b: MaybeDone::new(b),
        }
    }

    /// Whether the join has handed out the outputs.
    pub fn is_done(&self) -> (done: bool)
        ensures
            done == self.completed(),
    {
        self.done
    }

    /// Takes the outputs if every cell holds one.
    fn finish(&mut self) -> (out: Option<(A::Output, B::Output)>)
        requires
            !old(self).completed(),
        ensures
            (final(self).slots(), out) == Self::round(
                old(self).slots(),
                (None, None),
            ),
            final(self).completed() <==> out is Some,
            out is None ==> *final(self) == *old(self),
    {
        let all_done = self.a.is_done() && self.b.is_done();
        if all_done {
            self.done = true;
            Some((self.a.take(), self.b.take()))
        } else {
            None
        }
    }

    /// Advances the join by one round in which the futures gave `outcomes`,
    /// as [`Join2::round`] says.
    ///
    /// The outputs are handed out only when every future has been ready, in
    /// this round or in one before it, and then each stands at the place of
    /// its future.  So when all two futures are ready with their values in
    /// the first round, the result is exactly those values, in that order.
    /// A cell that is pending afterwards holds the future that it held.
    pub fn resolve(
        &mut self,
        outcomes: (Option<A::Output>, Option<B::Output>),
    ) -> (out: Option<(A::Output, B::Output)>)
        requires
            !old(self).completed(),
        ensures
            (final(self).slots(), out) == Self::round(old(self).slots(), outcomes),
            final(self).completed() <==> out is Some,
            out is Some <==> Self::all_ready(old(self).slots(), outcomes),
            Self::futures_kept(old(self).cells(), final(self).cells()),
            Self::all_pending(old(self).slots()) && Self::all_some(outcomes) ==> out == Some(
                (outcomes.0->Some_0, outcomes.1->Some_0),
            ),
    {
        let (outcome_a, outcome_b) = outcomes;
        self.a.settle_if_pending(outcome_a);
        self.b.settle_if_pending(outcome_b);
        self.finish()
    }
}

impl<A: Future + Unpin, B: Future + Unpin> Join2<A, B> {
    /// Polls every future that is still pending, once and in the order of the
    /// futures, and then does as [`Join2::round`] says on what they gave.
    ///
    /// The outputs are handed out only when every future has been ready, in
    /// this poll or in one before it; there is no early exit.
    pub fn poll(&mut self, cx: &mut Context<'_>) -> (out: Option<(A::Output, B::Output)>)
        requires
            !old(self).completed(),
        ensures
            exists|outcomes: (Option<A::Output>, Option<B::Output>)|
                {
                    &&& (final(self).slots(), out) == #[trigger] Self::round(
                        old(self).slots(),
                        outcomes,
                    )
                    &&& out is Some <==> Self::all_ready(old(self).slots(), outcomes)
                },
            final(self).completed() <==> out is Some,
    {
        self.a.poll_if_pending(cx);
        let ghost given_a = choose|outcome: Option<A::Output>|
            self.a@ == #[trigger] old(self).a@.settled(outcome);
        self.b.poll_if_pending(cx);
        let ghost given_b = choose|outcome: Option<B::Output>|
            self.b@ == #[trigger] old(self).b@.settled(outcome);
        let ghost given = (given_a, given_b);
        let out = self.finish();
        assert((self.slots(), out) == Self::round(old(self).slots(), given));
        out
    }
}

impl<A: Future, B: Future> JoinTrait for (A, B) {
    type Output = (A::Output, B::Output);

    type Future = Join2<A, B>;

    /// A join of the futures of this tuple, in their order, none of them
    /// polled yet.
    fn join(self) -> (join: Join2<A, B>)
        ensures
            join.cells() == (MaybeDone::Future(self.0), MaybeDone::Future(self.1)),
            !join.completed(),
    {
        let (a, b) = self;
        Join2::new(a, b)
    }
}

} // verus!
