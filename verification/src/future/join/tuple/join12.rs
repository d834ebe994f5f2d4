use crate::future::join::Join as JoinTrait;
use crate::utils::maybe_done::MaybeDone;
use crate::utils::maybe_done::Slot;
use core::future::Future;
use core::task::Context;
use vstd::prelude::*;

verus! {

/// Waits for twelve futures to complete, and hands out their outputs
/// together, in the order of the futures.
///
/// This `struct` is created by the [`join`] method on the [`Join`] trait.
///
/// [`join`]: crate::future::join::Join::join
/// [`Join`]: crate::future::join::Join
#[must_use]
pub struct Join12<
    A: Future, B: Future, C: Future, D: Future, E: Future, F: Future, G: Future, H: Future,
    I: Future, J: Future, K: Future, L: Future,
> {
    done: bool,
    a: MaybeDone<A>,
    b: MaybeDone<B>,
    c: MaybeDone<C>,
    d: MaybeDone<D>,
    e: MaybeDone<E>,
    f: MaybeDone<F>,
    g: MaybeDone<G>,
    h: MaybeDone<H>,
    i: MaybeDone<I>,
    j: MaybeDone<J>,
    k: MaybeDone<K>,
    l: MaybeDone<L>,
}

impl<
    A: Future, B: Future, C: Future, D: Future, E: Future, F: Future, G: Future, H: Future,
    I: Future, J: Future, K: Future, L: Future,
> Join12<A, B, C, D, E, F, G, H, I, J, K, L> {
    /// The cells, one for each future, in the order of the futures.
    pub closed spec fn cells(&self) -> (
        MaybeDone<A>, MaybeDone<B>, MaybeDone<C>, MaybeDone<D>, MaybeDone<E>, MaybeDone<F>,
        MaybeDone<G>, MaybeDone<H>, MaybeDone<I>, MaybeDone<J>, MaybeDone<K>, MaybeDone<L>,
    ) {
        (
            self.a, self.b, self.c, self.d, self.e, self.f, self.g, self.h, self.i, self.j, self.k,
            self.l,
        )
    }

    /// What the cells hold, leaving out the futures.
    pub open spec fn slots(&self) -> (
        Slot<A::Output>, Slot<B::Output>, Slot<C::Output>, Slot<D::Output>, Slot<E::Output>,
        Slot<F::Output>, Slot<G::Output>, Slot<H::Output>, Slot<I::Output>, Slot<J::Output>,
        Slot<K::Output>, Slot<L::Output>,
    ) {
        (
            self.cells().0@, self.cells().1@, self.cells().2@, self.cells().3@, self.cells().4@,
            self.cells().5@, self.cells().6@, self.cells().7@, self.cells().8@, self.cells().9@,
            self.cells().10@, self.cells().11@,
        )
    }

    /// Whether the join has handed out the outputs.  It must not be polled
    /// after that.
    pub closed spec fn completed(&self) -> bool {
        self.done
    }

    /// Whether no future has been ready yet.
    pub open spec fn all_pending(slots: (
        Slot<A::Output>, Slot<B::Output>, Slot<C::Output>, Slot<D::Output>, Slot<E::Output>,
        Slot<F::Output>, Slot<G::Output>, Slot<H::Output>, Slot<I::Output>, Slot<J::Output>,
        Slot<K::Output>, Slot<L::Output>,
    )) -> bool {
        slots.0 is Pending && slots.1 is Pending && slots.2 is Pending && slots.3 is Pending
            && slots.4 is Pending && slots.5 is Pending && slots.6 is Pending && slots.7 is Pending
            && slots.8 is Pending && slots.9 is Pending && slots.10 is Pending
            && slots.11 is Pending
    }

    /// Whether every future was ready when it was polled.
    pub open spec fn all_some(outcomes: (
        Option<A::Output>, Option<B::Output>, Option<C::Output>, Option<D::Output>,
        Option<E::Output>, Option<F::Output>, Option<G::Output>, Option<H::Output>,
        Option<I::Output>, Option<J::Output>, Option<K::Output>, Option<L::Output>,
    )) -> bool {
        outcomes.0 is Some && outcomes.1 is Some && outcomes.2 is Some && outcomes.3 is Some
            && outcomes.4 is Some && outcomes.5 is Some && outcomes.6 is Some && outcomes.7 is Some
            && outcomes.8 is Some && outcomes.9 is Some && outcomes.10 is Some
            && outcomes.11 is Some
    }

    /// Whether every cell that is pending in `after` holds the future that it
    /// holds in `before`.
    pub open spec fn futures_kept(
        before: (
            MaybeDone<A>, MaybeDone<B>, MaybeDone<C>, MaybeDone<D>, MaybeDone<E>, MaybeDone<F>,
            MaybeDone<G>, MaybeDone<H>, MaybeDone<I>, MaybeDone<J>, MaybeDone<K>, MaybeDone<L>,
        ),
        after: (
            MaybeDone<A>, MaybeDone<B>, MaybeDone<C>, MaybeDone<D>, MaybeDone<E>, MaybeDone<F>,
            MaybeDone<G>, MaybeDone<H>, MaybeDone<I>, MaybeDone<J>, MaybeDone<K>, MaybeDone<L>,
        ),
    ) -> bool {
        (after.0@ is Pending ==> after.0 == before.0)
            && (after.1@ is Pending ==> after.1 == before.1)
            && (after.2@ is Pending ==> after.2 == before.2)
            && (after.3@ is Pending ==> after.3 == before.3)
            && (after.4@ is Pending ==> after.4 == before.4)
            && (after.5@ is Pending ==> after.5 == before.5)
            && (after.6@ is Pending ==> after.6 == before.6)
            && (after.7@ is Pending ==> after.7 == before.7)
            && (after.8@ is Pending ==> after.8 == before.8)
            && (after.9@ is Pending ==> after.9 == before.9)
            && (after.10@ is Pending ==> after.10 == before.10)
            && (after.11@ is Pending ==> after.11 == before.11)
    }

    /// Whether every future has been ready, in the round with these outcomes
    /// or before it.
    pub open spec fn all_ready(
        slots: (
            Slot<A::Output>, Slot<B::Output>, Slot<C::Output>, Slot<D::Output>, Slot<E::Output>,
            Slot<F::Output>, Slot<G::Output>, Slot<H::Output>, Slot<I::Output>, Slot<J::Output>,
            Slot<K::Output>, Slot<L::Output>,
        ),
        outcomes: (
            Option<A::Output>, Option<B::Output>, Option<C::Output>, Option<D::Output>,
            Option<E::Output>, Option<F::Output>, Option<G::Output>, Option<H::Output>,
            Option<I::Output>, Option<J::Output>, Option<K::Output>, Option<L::Output>,
        ),
    ) -> bool {
        (slots.0 is Done || (slots.0 is Pending && outcomes.0 is Some))
            && (slots.1 is Done || (slots.1 is Pending && outcomes.1 is Some))
            && (slots.2 is Done || (slots.2 is Pending && outcomes.2 is Some))
            && (slots.3 is Done || (slots.3 is Pending && outcomes.3 is Some))
            && (slots.4 is Done || (slots.4 is Pending && outcomes.4 is Some))
            && (slots.5 is Done || (slots.5 is Pending && outcomes.5 is Some))
            && (slots.6 is Done || (slots.6 is Pending && outcomes.6 is Some))
            && (slots.7 is Done || (slots.7 is Pending && outcomes.7 is Some))
            && (slots.8 is Done || (slots.8 is Pending && outcomes.8 is Some))
            && (slots.9 is Done || (slots.9 is Pending && outcomes.9 is Some))
            && (slots.10 is Done || (slots.10 is Pending && outcomes.10 is Some))
            && (slots.11 is Done || (slots.11 is Pending && outcomes.11 is Some))
    }

    /// One round of the join: what the slots are afterwards, and what the
    /// round hands out.
    ///
    /// `outcomes` holds what each future gave when it was polled; an outcome
    /// counts only where the slot was pending.  If every slot then holds an
    /// output, all of them are taken and handed out together, in the order of
    /// the futures.  If not, nothing is handed out and the outputs stay where
    /// they are.
    pub open spec fn round(
        slots: (
            Slot<A::Output>, Slot<B::Output>, Slot<C::Output>, Slot<D::Output>, Slot<E::Output>,
            Slot<F::Output>, Slot<G::Output>, Slot<H::Output>, Slot<I::Output>, Slot<J::Output>,
            Slot<K::Output>, Slot<L::Output>,
        ),
        outcomes: (
            Option<A::Output>, Option<B::Output>, Option<C::Output>, Option<D::Output>,
            Option<E::Output>, Option<F::Output>, Option<G::Output>, Option<H::Output>,
            Option<I::Output>, Option<J::Output>, Option<K::Output>, Option<L::Output>,
        ),
    ) -> (
        (
            Slot<A::Output>, Slot<B::Output>, Slot<C::Output>, Slot<D::Output>, Slot<E::Output>,
            Slot<F::Output>, Slot<G::Output>, Slot<H::Output>, Slot<I::Output>, Slot<J::Output>,
            Slot<K::Output>, Slot<L::Output>,
        ),
        Option<(
            A::Output, B::Output, C::Output, D::Output, E::Output, F::Output, G::Output, H::Output,
            I::Output, J::Output, K::Output, L::Output,
        )>,
    ) {
        let a = slots.0.settled(outcomes.0);
        let b = slots.1.settled(outcomes.1);
        let c = slots.2.settled(outcomes.2);
        let d = slots.3.settled(outcomes.3);
        let e = slots.4.settled(outcomes.4);
        let f = slots.5.settled(outcomes.5);
        let g = slots.6.settled(outcomes.6);
        let h = slots.7.settled(outcomes.7);
        let i = slots.8.settled(outcomes.8);
        let j = slots.9.settled(outcomes.9);
        let k = slots.10.settled(outcomes.10);
        let l = slots.11.settled(outcomes.11);
        if a is Done && b is Done && c is Done && d is Done && e is Done && f is Done && g is Done
            && h is Done && i is Done && j is Done && k is Done && l is Done {
            (
                (
                    Slot::Gone, Slot::Gone, Slot::Gone, Slot::Gone, Slot::Gone, Slot::Gone,
                    Slot::Gone, Slot::Gone, Slot::Gone, Slot::Gone, Slot::Gone, Slot::Gone,
                ),
                Some((
                    a->Done_0, b->Done_0, c->Done_0, d->Done_0, e->Done_0, f->Done_0, g->Done_0,
                    h->Done_0, i->Done_0, j->Done_0, k->Done_0, l->Done_0,
                )),
            )
        } else {
            ((a, b, c, d, e, f, g, h, i, j, k, l), None)
        }
    }

    /// A join of these futures, none of them polled yet.
    pub fn new(
        a: A, b: B, c: C, d: D, e: E, f: F, g: G, h: H, i: I, j: J, k: K, l: L,
    ) -> (join: Self)
        ensures
            join.cells() == (
                MaybeDone::Future(a), MaybeDone::Future(b), MaybeDone::Future(c),
                MaybeDone::Future(d), MaybeDone::Future(e), MaybeDone::Future(f),
                MaybeDone::Future(g), MaybeDone::Future(h), MaybeDone::Future(i),
                MaybeDone::Future(j), MaybeDone::Future(k), MaybeDone::Future(l),
            ),
            !join.completed(),
    {
        Join12 {
            done: false,
            a: MaybeDone::new(a),
            b: MaybeDone::new(b),
            c: MaybeDone::new(c),
            d: MaybeDone::new(d),
            e: MaybeDone::new(e),
            f: MaybeDone::new(f),
            g: MaybeDone::new(g),
            h: MaybeDone::new(h),
            i: MaybeDone::new(i),
            j: MaybeDone::new(j),
            k: MaybeDone::new(k),
            l: MaybeDone::new(l),
        }
    }

    /// Whether the join has handed out the outputs.
    pub fn is_done(&self) -> (done: bool)
        ensures
            done == self.completed(),
    {
        self.done
    }

    /// Takes the outputs if every cell holds one.
    fn finish(&mut self) -> (out: Option<(
        A::Output, B::Output, C::Output, D::Output, E::Output, F::Output, G::Output, H::Output,
        I::Output, J::Output, K::Output, L::Output,
    )>)
        requires
            !old(self).completed(),
        ensures
            (final(self).slots(), out) == Self::round(
                old(self).slots(),
                (None, None, None, None, None, None, None, None, None, None, None, None),
            ),
            final(self).completed() <==> out is Some,
            out is None ==> *final(self) == *old(self),
    {
        let all_done = self.a.is_done() && self.b.is_done() && self.c.is_done() && self.d.is_done()
            && self.e.is_done() && self.f.is_done() && self.g.is_done() && self.h.is_done()
            && self.i.is_done() && self.j.is_done() && self.k.is_done() && self.l.is_done();
        if all_done {
            self.done = true;
            Some((
                self.a.take(), self.b.take(), self.c.take(), self.d.take(), self.e.take(),
                self.f.take(), self.g.take(), self.h.take(), self.i.take(), self.j.take(),
                self.k.take(), self.l.take(),
            ))
        } else {
            None
        }
    }

    /// Advances the join by one round in which the futures gave `outcomes`,
    /// as [`Join12::round`] says.
    ///
    /// The outputs are handed out only when every future has been ready, in
    /// this round or in one before it, and then each stands at the place of
    /// its future.  So when all twelve futures are ready with their values in
    /// the first round, the result is exactly those values, in that order.
    /// A cell that is pending afterwards holds the future that it held.
    pub fn resolve(
        &mut self,
        outcomes: (
            Option<A::Output>, Option<B::Output>, Option<C::Output>, Option<D::Output>,
            Option<E::Output>, Option<F::Output>, Option<G::Output>, Option<H::Output>,
            Option<I::Output>, Option<J::Output>, Option<K::Output>, Option<L::Output>,
        ),
    ) -> (out: Option<(
        A::Output, B::Output, C::Output, D::Output, E::Output, F::Output, G::Output, H::Output,
        I::Output, J::Output, K::Output, L::Output,
    )>)
        requires
            !old(self).completed(),
        ensures
            (final(self).slots(), out) == Self::round(old(self).slots(), outcomes),
            final(self).completed() <==> out is Some,
            out is Some <==> Self::all_ready(old(self).slots(), outcomes),
            Self::futures_kept(old(self).cells(), final(self).cells()),
            Self::all_pending(old(self).slots()) && Self::all_some(outcomes) ==> out == Some(
                (
                    outcomes.0->Some_0, outcomes.1->Some_0, outcomes.2->Some_0, outcomes.3->Some_0,
                    outcomes.4->Some_0, outcomes.5->Some_0, outcomes.6->Some_0, outcomes.7->Some_0,
                    outcomes.8->Some_0, outcomes.9->Some_0, outcomes.10->Some_0,
                    outcomes.11->Some_0,
                ),
            ),
    {
        let (
            outcome_a, outcome_b, outcome_c, outcome_d, outcome_e, outcome_f, outcome_g, outcome_h,
            outcome_i, outcome_j, outcome_k, outcome_l,
        ) = outcomes;
        self.a.settle_if_pending(outcome_a);
        self.b.settle_if_pending(outcome_b);
        self.c.settle_if_pending(outcome_c);
        self.d.settle_if_pending(outcome_d);
        self.e.settle_if_pending(outcome_e);
        self.f.settle_if_pending(outcome_f);
        self.g.settle_if_pending(outcome_g);
        self.h.settle_if_pending(outcome_h);
        self.i.settle_if_pending(outcome_i);
        self.j.settle_if_pending(outcome_j);
        self.k.settle_if_pending(outcome_k);
        self.l.settle_if_pending(outcome_l);
        self.finish()
    }
}

impl<
    A: Future + Unpin, B: Future + Unpin, C: Future + Unpin, D: Future + Unpin, E: Future + Unpin,
    F: Future + Unpin, G: Future + Unpin, H: Future + Unpin, I: Future + Unpin, J: Future + Unpin,
    K: Future + Unpin, L: Future + Unpin,
> Join12<A, B, C, D, E, F, G, H, I, J, K, L> {
    /// Polls every future that is still pending, once and in the order of the
    /// futures, and then does as [`Join12::round`] says on what they gave.
    ///
    /// The outputs are handed out only when every future has been ready, in
    /// this poll or in one before it; there is no early exit.
    pub fn poll(&mut self, cx: &mut Context<'_>) -> (out: Option<(
        A::Output, B::Output, C::Output, D::Output, E::Output, F::Output, G::Output, H::Output,
        I::Output, J::Output, K::Output, L::Output,
    )>)
        requires
            !old(self).completed(),
        ensures
            exists|outcomes: (
                Option<A::Output>, Option<B::Output>, Option<C::Output>, Option<D::Output>,
                Option<E::Output>, Option<F::Output>, Option<G::Output>, Option<H::Output>,
                Option<I::Output>, Option<J::Output>, Option<K::Output>, Option<L::Output>,
            )|
                {
                    &&& (final(self).slots(), out) == #[trigger] Self::round(
                        old(self).slots(),
                        outcomes,
                    )
                    &&& out is Some <==> Self::all_ready(old(self).slots(), outcomes)
                },
            final(self).completed() <==> out is Some,
    {
        self.a.poll_if_pending(cx);
        let ghost given_a = choose|outcome: Option<A::Output>|
            self.a@ == #[trigger] old(self).a@.settled(outcome);
        self.b.poll_if_pending(cx);
        let ghost given_b = choose|outcome: Option<B::Output>|
            self.b@ == #[trigger] old(self).b@.settled(outcome);
        self.c.poll_if_pending(cx);
        let ghost given_c = choose|outcome: Option<C::Output>|
            self.c@ == #[trigger] old(self).c@.settled(outcome);
        self.d.poll_if_pending(cx);
        let ghost given_d = choose|outcome: Option<D::Output>|
            self.d@ == #[trigger] old(self).d@.settled(outcome);
        self.e.poll_if_pending(cx);
        let ghost given_e = choose|outcome: Option<E::Output>|
            self.e@ == #[trigger] old(self).e@.settled(outcome);
        self.f.poll_if_pending(cx);
        let ghost given_f = choose|outcome: Option<F::Output>|
            self.f@ == #[trigger] old(self).f@.settled(outcome);
        self.g.poll_if_pending(cx);
        let ghost given_g = choose|outcome: Option<G::Output>|
            self.g@ == #[trigger] old(self).g@.settled(outcome);
        self.h.poll_if_pending(cx);
        let ghost given_h = choose|outcome: Option<H::Output>|
            self.h@ == #[trigger] old(self).h@.settled(outcome);
        self.i.poll_if_pending(cx);
        let ghost given_i = choose|outcome: Option<I::Output>|
            self.i@ == #[trigger] old(self).i@.settled(outcome);
        self.j.poll_if_pending(cx);
        let ghost given_j = choose|outcome: Option<J::Output>|
            self.j@ == #[trigger] old(self).j@.settled(outcome);
        self.k.poll_if_pending(cx);
        let ghost given_k = choose|outcome: Option<K::Output>|
            self.k@ == #[trigger] old(self).k@.settled(outcome);
        self.l.poll_if_pending(cx);
        let ghost given_l = choose|outcome: Option<L::Output>|
            self.l@ == #[trigger] old(self).l@.settled(outcome);
        let ghost given = (
            given_a, given_b, given_c, given_d, given_e, given_f, given_g, given_h, given_i,
            given_j, given_k, given_l,
        );
        let out = self.finish();
        assert((self.slots(), out) == Self::round(old(self).slots(), given));
        out
    }
}

impl<
    A: Future, B: Future, C: Future, D: Future, E: Future, F: Future, G: Future, H: Future,
    I: Future, J: Future, K: Future, L: Future,
> JoinTrait for (A, B, C, D, E, F, G, H, I, J, K, L) {
    type Output = (
        A::Output, B::Output, C::Output, D::Output, E::Output, F::Output, G::Output, H::Output,
        I::Output, J::Output, K::Output, L::Output,
    );

    type Future = Join12<A, B, C, D, E, F, G, H, I, J, K, L>;

    /// A join of the futures of this tuple, in their order, none of them
    /// polled yet.
    fn join(self) -> (join: Join12<A, B, C, D, E, F, G, H, I, J, K, L>)
        ensures
            join.cells() == (
                MaybeDone::Future(self.0), MaybeDone::Future(self.1), MaybeDone::Future(self.2),
                MaybeDone::Future(self.3), MaybeDone::Future(self.4), MaybeDone::Future(self.5),
                MaybeDone::Future(self.6), MaybeDone::Future(self.7), MaybeDone::Future(self.8),
                MaybeDone::Future(self.9), MaybeDone::Future(self.10), MaybeDone::Future(self.11),
            ),
            !join.completed(),
    {
        let (a, b, c, d, e, f, g, h, i, j, k, l) = self;
        Join12::new(a, b, c, d, e, f, g, h, i, j, k, l)
    }
}

} // verus!
