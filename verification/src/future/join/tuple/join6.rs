use crate::future::join::Join as JoinTrait;
use crate::utils::maybe_done::MaybeDone;
use crate::utils::maybe_done::Slot;
use core::future::Future;
use core::task::Context;
use vstd::prelude::*;

verus! {

/// Waits for six futures to complete, and hands out their outputs
/// together, in the order of the futures.
///
/// This `struct` is created by the [`join`] method on the [`Join`] trait.
///
/// [`join`]: crate::future::join::Join::join
/// [`Join`]: crate::future::join::Join
#[must_use]
pub struct Join6<A: Future, B: Future, C: Future, D: Future, E: Future, F: Future> {
    done: bool,
    a: MaybeDone<A>,
    b: MaybeDone<B>,
    c: MaybeDone<C>,
    d: MaybeDone<D>,
    e: MaybeDone<E>,
    f: MaybeDone<F>,
}

impl<A: Future, B: Future, C: Future, D: Future, E: Future, F: Future> Join6<A, B, C, D, E, F> {
    /// The cells, one for each future, in the order of the futures.
    pub closed spec fn cells(&self) -> (
        MaybeDone<A>, MaybeDone<B>, MaybeDone<C>, MaybeDone<D>, MaybeDone<E>, MaybeDone<F>,
    ) {
        (self.a, self.b, self.c, self.d, self.e, self.f)
    }

    /// What the cells hold, leaving out the futures.
    pub open spec fn slots(&self) -> (
        Slot<A::Output>, Slot<B::Output>, Slot<C::Output>, Slot<D::Output>, Slot<E::Output>,
        Slot<F::Output>,
    ) {
        (
            self.cells().0@, self.cells().1@, self.cells().2@, self.cells().3@, self.cells().4@,
            self.cells().5@,
        )
    }

    /// Whether the join has handed out the outputs.  It must not be polled
    /// after that.
    pub closed spec fn completed(&self) -> bool {
        self.done
    }

    /// Whether no future has been ready yet.
    pub open spec fn all_pending(slots: (
        Slot<A::Output>, Slot<B::Output>, Slot<C::Output>, Slot<D::Output>, Slot<E::Output>,
        Slot<F::Output>,
    )) -> bool {
        slots.0 is Pending && slots.1 is Pending && slots.2 is Pending && slots.3 is Pending
            && slots.4 is Pending && slots.5 is Pending
    }

    /// Whether every future was ready when it was polled.
    pub open spec fn all_some(outcomes: (
        Option<A::Output>, Option<B::Output>, Option<C::Output>, Option<D::Output>,
        Option<E::Output>, Option<F::Output>,
    )) -> bool {
        outcomes.0 is Some && outcomes.1 is Some && outcomes.2 is Some && outcomes.3 is Some
            && outcomes.4 is Some && outcomes.5 is Some
    }

    /// Whether every cell that is pending in `after` holds the future that it
    /// holds in `before`.
    pub open spec fn futures_kept(
        before: (
            MaybeDone<A>, MaybeDone<B>, MaybeDone<C>, MaybeDone<D>, MaybeDone<E>, MaybeDone<F>,
        ),
        after: (MaybeDone<A>, MaybeDone<B>, MaybeDone<C>, MaybeDone<D>, MaybeDone<E>, MaybeDone<F>),
    ) -> bool {
        (after.0@ is Pending ==> after.0 == before.0)
            && (after.1@ is Pending ==> after.1 == before.1)
            && (after.2@ is Pending ==> after.2 == before.2)
            && (after.3@ is Pending ==> after.3 == before.3)
            && (after.4@ is Pending ==> after.4 == before.4)
            && (after.5@ is Pending ==> after.5 == before.5)
    }

    /// Whether every future has been ready, in the round with these outcomes
    /// or before it.
    pub open spec fn all_ready(
        slots: (
            Slot<A::Output>, Slot<B::Output>, Slot<C::Output>, Slot<D::Output>, Slot<E::Output>,
            Slot<F::Output>,
        ),
        outcomes: (
            Option<A::Output>, Option<B::Output>, Option<C::Output>, Option<D::Output>,
            Option<E::Output>, Option<F::Output>,
        ),
    ) -> bool {
        (slots.0 is Done || (slots.0 is Pending && outcomes.0 is Some))
            && (slots.1 is Done || (slots.1 is Pending && outcomes.1 is Some))
            && (slots.2 is Done || (slots.2 is Pending && outcomes.2 is Some))
            && (slots.3 is Done || (slots.3 is Pending && outcomes.3 is Some))
            && (slots.4 is Done || (slots.4 is Pending && outcomes.4 is Some))
            && (slots.5 is Done || (slots.5 is Pending && outcomes.5 is Some))
    }

    /// One round of the join: what the slots are afterwards, and what the
    /// round hands out.
    ///
    /// `outcomes` holds what each future gave when it was polled; an outcome
    /// counts only where the slot was pending.  If every slot then holds an
    /// output, all of them are taken and handed out together, in the order of
    /// the futures.  If not, nothing is handed out and the outputs stay where
    /// they are.
    pub open spec fn round(
        slots: (
            Slot<A::Output>, Slot<B::Output>, Slot<C::Output>, Slot<D::Output>, Slot<E::Output>,
            Slot<F::Output>,
        ),
        outcomes: (
            Option<A::Output>, Option<B::Output>, Option<C::Output>, Option<D::Output>,
            Option<E::Output>, Option<F::Output>,
        ),
    ) -> (
        (
            Slot<A::Output>, Slot<B::Output>, Slot<C::Output>, Slot<D::Output>, Slot<E::Output>,
            Slot<F::Output>,
        ),
        Option<(A::Output, B::Output, C::Output, D::Output, E::Output, F::Output)>,
    ) {
        let a = slots.0.settled(outcomes.0);
        let b = slots.1.settled(outcomes.1);
        let c = slots.2.settled(outcomes.2);
        let d = slots.3.settled(outcomes.3);
        let e = slots.4.settled(outcomes.4);
        let f = slots.5.settled(outcomes.5);
        if a is Done && b is Done && c is Done && d is Done && e is Done && f is Done {
            (
                (Slot::Gone, Slot::Gone, Slot::Gone, Slot::Gone, Slot::Gone, Slot::Gone),
                Some((a->Done_0, b->Done_0, c->Done_0, d->Done_0, e->Done_0, f->Done_0)),
            )
        } else {
            ((a, b, c, d, e, f), None)
        }
    }

    /// A join of these futures, none of them polled yet.
    pub fn new(a: A, b: B, c: C, d: D, e: E, f: F) -> (join: Self)
        ensures
            join.cells() == (
                MaybeDone::Future(a), MaybeDone::Future(b), MaybeDone::Future(c),
                MaybeDone::Future(d), MaybeDone::Future(e), MaybeDone::Future(f),
            ),
            !join.completed(),
    {
        Join6 {
            done: false,
            a: MaybeDone::new(a),
            b: MaybeDone::new(b),
            c: MaybeDone::new(c),
            d: MaybeDone::new(d),
            e: MaybeDone::new(e),
            f: MaybeDone::new(f),
        }
    }

    /// Whether the join has handed out the outputs.
    pub fn is_done(&self) -> (done: bool)
        ensures
            done == self.completed(),
    {
        self.done
    }

    /// Takes the outputs if every cell holds one.
    fn finish(&mut self) -> (out: Option<(
        A::Output, B::Output, C::Output, D::Output, E::Output, F::Output,
    )>)
        requires
            !old(self).completed(),
        ensures
            (final(self).slots(), out) == Self::round(
                old(self).slots(),
                (None, None, None, None, None, None),
            ),
            final(self).completed() <==> out is Some,
            out is None ==> *final(self) == *old(self),
    {
        let all_done = self.a.is_done() && self.b.is_done() && self.c.is_done() && self.d.is_done()
            && self.e.is_done() && self.f.is_done();
        if all_done {
            self.done = true;
            Some((
                self.a.take(), self.b.take(), self.c.take(), self.d.take(), self.e.take(),
                self.f.take(),
            ))
        } else {
            None
        }
    }

    /// Advances the join by one round in which the futures gave `outcomes`,
    /// as [`Join6::round`] says.
    ///
    /// The outputs are handed out only when every future has been ready, in
    /// this round or in one before it, and then each stands at the place of
    /// its future.  So when all six futures are ready with their values in
    /// the first round, the result is exactly those values, in that order.
    /// A cell that is pending afterwards holds the future that it held.
    pub fn resolve(
        &mut self,
        outcomes: (
            Option<A::Output>, Option<B::Output>, Option<C::Output>, Option<D::Output>,
            Option<E::Output>, Option<F::Output>,
        ),
    ) -> (out: Option<(A::Output, B::Output, C::Output, D::Output, E::Output, F::Output)>)
        requires
            !old(self).completed(),
        ensures
            (final(self).slots(), out) == Self::round(old(self).slots(), outcomes),
            final(self).completed() <==> out is Some,
            out is Some <==> Self::all_ready(old(self).slots(), outcomes),
            Self::futures_kept(old(self).cells(), final(self).cells()),
            Self::all_pending(old(self).slots()) && Self::all_some(outcomes) ==> out == Some(
                (
                    outcomes.0->Some_0, outcomes.1->Some_0, outcomes.2->Some_0, outcomes.3->Some_0,
                    outcomes.4->Some_0, outcomes.5->Some_0,
                ),
            ),
    {
        let (outcome_a, outcome_b, outcome_c, outcome_d, outcome_e, outcome_f) = outcomes;
        self.a.settle_if_pending(outcome_a);
        self.b.settle_if_pending(outcome_b);
        self.c.settle_if_pending(outcome_c);
        self.d.settle_if_pending(outcome_d);
        self.e.settle_if_pending(outcome_e);
        self.f.settle_if_pending(outcome_f);
        self.finish()
    }
}

impl<
    A: Future + Unpin, B: Future + Unpin, C: Future + Unpin, D: Future + Unpin, E: Future + Unpin,
    F: Future + Unpin,
> Join6<A, B, C, D, E, F> {
    /// Polls every future that is still pending, once and in the order of the
    /// futures, and then does as [`Join6::round`] says on what they gave.
    ///
    /// The outputs are handed out only when every future has been ready, in
    /// this poll or in one before it; there is no early exit.
    pub fn poll(&mut self, cx: &mut Context<'_>) -> (out: Option<(
        A::Output, B::Output, C::Output, D::Output, E::Output, F::Output,
    )>)
        requires
            !old(self).completed(),
        ensures
            exists|outcomes: (
                Option<A::Output>, Option<B::Output>, Option<C::Output>, Option<D::Output>,
                Option<E::Output>, Option<F::Output>,
            )|
                {
                    &&& (final(self).slots(), out) == #[trigger] Self::round(
                        old(self).slots(),
                        outcomes,
                    )
                    &&& out is Some <==> Self::all_ready(old(self).slots(), outcomes)
                },
            final(self).completed() <==> out is Some,
    {
        self.a.poll_if_pending(cx);
        let ghost given_a = choose|outcome: Option<A::Output>|
            self.a@ == #[trigger] old(self).a@.settled(outcome);
        self.b.poll_if_pending(cx);
        let ghost given_b = choose|outcome: Option<B::Output>|
            self.b@ == #[trigger] old(self).b@.settled(outcome);
        self.c.poll_if_pending(cx);
        let ghost given_c = choose|outcome: Option<C::Output>|
            self.c@ == #[trigger] old(self).c@.settled(outcome);
        self.d.poll_if_pending(cx);
        let ghost given_d = choose|outcome: Option<D::Output>|
            self.d@ == #[trigger] old(self).d@.settled(outcome);
        self.e.poll_if_pending(cx);
        let ghost given_e = choose|outcome: Option<E::Output>|
            self.e@ == #[trigger] old(self).e@.settled(outcome);
        self.f.poll_if_pending(cx);
        let ghost given_f = choose|outcome: Option<F::Output>|
            self.f@ == #[trigger] old(self).f@.settled(outcome);
        let ghost given = (given_a, given_b, given_c, given_d, given_e, given_f);
        let out = self.finish();
        assert((self.slots(), out) == Self::round(old(self).slots(), given));
        out
    }
}

impl<
    A: Future, B: Future, C: Future, D: Future, E: Future, F: Future,
> JoinTrait for (A, B, C, D, E, F) {
    type Output = (A::Output, B::Output, C::Output, D::Output, E::Output, F::Output);

    type Future = Join6<A, B, C, D, E, F>;

    /// A join of the futures of this tuple, in their order, none of them
    /// polled yet.
    fn join(self) -> (join: Join6<A, B, C, D, E, F>)
        ensures
            join.cells() == (
                MaybeDone::Future(self.0), MaybeDone::Future(self.1), MaybeDone::Future(self.2),
                MaybeDone::Future(self.3), MaybeDone::Future(self.4), MaybeDone::Future(self.5),
            ),
            !join.completed(),
    {
        let (a, b, c, d, e, f) = self;
        Join6::new(a, b, c, d, e, f)
    }
}

} // verus!
