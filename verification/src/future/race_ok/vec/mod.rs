use crate::future::race_ok::RaceOk as RaceOkTrait;
use crate::utils::maybe_done::MaybeDone;
use crate::utils::maybe_done::Slot;
use core::future::Future;
use core::task::Context;
use vstd::prelude::*;

pub mod error;

pub use error::AggregateError;

verus! {

/// Whether the slot holds a success that nobody has taken.
pub open spec fn succeeded<T, E>(slot: Slot<Result<T, E>>) -> bool {
    slot matches Slot::Done(Ok(_))
}

/// Whether the slot holds a failure that nobody has taken.
pub open spec fn failed<T, E>(slot: Slot<Result<T, E>>) -> bool {
    slot matches Slot::Done(Err(_))
}

/// The slots after each future has been polled once, with these outcomes.
pub open spec fn settled_all<T, E>(
    slots: Seq<Slot<Result<T, E>>>,
    outcomes: Seq<Option<Result<T, E>>>,
) -> Seq<Slot<Result<T, E>>> {
    Seq::new(slots.len(), |i: int| slots[i].settled(outcomes[i]))
}

/// The least index at or after `from` whose slot holds a success, or the
/// number of slots when there is none.
pub open spec fn first_success_from<T, E>(slots: Seq<Slot<Result<T, E>>>, from: int) -> int
    decreases slots.len() - from,
{
    if from < 0 || from >= slots.len() {
        slots.len() as int
    } else if succeeded(slots[from]) {
        from
    } else {
        first_success_from(slots, from + 1)
    }
}

/// The least index whose slot holds a success, or the number of slots when
/// there is none.
pub open spec fn first_success<T, E>(slots: Seq<Slot<Result<T, E>>>) -> int {
    first_success_from(slots, 0)
}

/// One round of the race: what the slots are afterwards, and what the round
/// reports.
///
/// The futures are polled in ascending order, and `outcomes[i]` is what the
/// future of slot `i` gave (it counts only where the slot was pending).  The
/// first slot that then holds a success wins: its value is taken and
/// reported, and the slots after it are left as they were.  Without a
/// success, the round reports the errors of all slots, in the order of the
/// slots, if every slot holds a failure; else it reports nothing.
pub open spec fn round<T, E>(
    slots: Seq<Slot<Result<T, E>>>,
    outcomes: Seq<Option<Result<T, E>>>,
) -> (Seq<Slot<Result<T, E>>>, Option<Result<T, Seq<E>>>) {
    let settled = settled_all(slots, outcomes);
    let winner = first_success(settled);
    if winner < slots.len() {
        (
            Seq::new(
                slots.len(),
                |i: int|
                    if i < winner {
                        settled[i]
                    } else if i == winner {
                        Slot::Gone
                    } else {
                        slots[i]
                    },
            ),
            Some(Ok(settled[winner]->Done_0->Ok_0)),
        )
    } else if forall|i: int| 0 <= i < settled.len() ==> failed(#[trigger] settled[i]) {
        (
            Seq::new(slots.len(), |i: int| Slot::Gone),
            Some(Err(Seq::new(slots.len(), |i: int| settled[i]->Done_0->Err_0))),
        )
    } else {
        (settled, None)
    }
}

/// What a poll reports, with the errors as a sequence.
pub open spec fn report<T, E>(out: Option<Result<T, AggregateError<E>>>) -> Option<
    Result<T, Seq<E>>,
> {
    match out {
        Some(Ok(value)) => Some(Ok(value)),
        Some(Err(error)) => Some(Err(error@)),
        None => None,
    }
}

/// The first success is where a slot holds a success and no slot before it
/// does; where no slot holds one, it is the number of slots.
pub proof fn lemma_first_success<T, E>(slots: Seq<Slot<Result<T, E>>>, from: int, winner: int)
    requires
        0 <= from <= winner <= slots.len(),
        forall|j: int| from <= j < winner ==> !succeeded(#[trigger] slots[j]),
        winner < slots.len() ==> succeeded(slots[winner]),
    ensures
        first_success_from(slots, from) == winner,
    decreases winner - from,
{
    if from < winner {
        lemma_first_success(slots, from + 1, winner);
    }
}

/// The lowest success wins: if after the polls slot `winner` holds the success
/// `value` and no slot before it holds one, the round reports `value`, takes
/// it from its slot, and leaves every slot behind it as it was before the
/// round.
pub proof fn lemma_lowest_success_wins<T, E>(
    slots: Seq<Slot<Result<T, E>>>,
    outcomes: Seq<Option<Result<T, E>>>,
    winner: int,
    value: T,
)
    requires
        0 <= winner < slots.len(),
        slots[winner].settled(outcomes[winner]) == Slot::Done(Ok::<T, E>(value)),
        forall|j: int| 0 <= j < winner ==> !succeeded(#[trigger] slots[j].settled(outcomes[j])),
    ensures
        round(slots, outcomes).1 == Some(Ok::<T, Seq<E>>(value)),
        round(slots, outcomes).0.len() == slots.len(),
        round(slots, outcomes).0[winner] is Gone,
        forall|j: int|
            winner < j < slots.len() ==> (#[trigger] round(slots, outcomes).0[j]) == slots[j],
        forall|j: int|
            0 <= j < winner ==> (#[trigger] round(slots, outcomes).0[j]) == slots[j].settled(
                outcomes[j],
            ),
{
    lemma_first_success(settled_all(slots, outcomes), 0, winner);
}

/// A round reports a success exactly when, after the polls, some slot holds
/// one: a success is never passed over, whatever the other futures did and
/// in whatever order the futures were ready.
pub proof fn lemma_success_is_reported<T, E>(
    slots: Seq<Slot<Result<T, E>>>,
    outcomes: Seq<Option<Result<T, E>>>,
)
    ensures
        round(slots, outcomes).1 matches Some(Ok(_)) <==> exists|i: int|
            0 <= i < slots.len() && succeeded(#[trigger] slots[i].settled(outcomes[i])),
{
    let settled = settled_all(slots, outcomes);
    lemma_first_success_is_least(settled, 0);
    if first_success(settled) >= slots.len() {
        assert forall|i: int| 0 <= i < slots.len() implies !succeeded(
            #[trigger] slots[i].settled(outcomes[i]),
        ) by {
            assert(!succeeded(settled[i]));
        }
    }
}

/// A round reports an error exactly when, after the polls, every slot holds a
/// failure, and the error then holds the failures of all slots, in the order
/// of the slots.  With no slots at all that is the empty aggregate.
pub proof fn lemma_error_is_all_failures<T, E>(
    slots: Seq<Slot<Result<T, E>>>,
    outcomes: Seq<Option<Result<T, E>>>,
)
    ensures
        round(slots, outcomes).1 matches Some(Err(_)) <==> forall|i: int|
            0 <= i < slots.len() ==> failed(#[trigger] slots[i].settled(outcomes[i])),
        round(slots, outcomes).1 matches Some(Err(errors)) ==> {
            &&& errors.len() == slots.len()
            &&& forall|i: int|
                0 <= i < slots.len() ==> slots[i].settled(outcomes[i]) == Slot::Done(
                    Err::<T, E>(#[trigger] errors[i]),
                )
        },
        slots.len() == 0 ==> round(slots, outcomes).1 == Some(
            Err::<T, Seq<E>>(Seq::<E>::empty()),
        ),
{
    let settled = settled_all(slots, outcomes);
    lemma_first_success_is_least(settled, 0);
    if forall|i: int| 0 <= i < settled.len() ==> failed(#[trigger] settled[i]) {
        assert forall|i: int| 0 <= i < slots.len() implies failed(
            #[trigger] slots[i].settled(outcomes[i]),
        ) by {
            assert(failed(settled[i]));
        }
        if slots.len() == 0 {
            assert(round(slots, outcomes).1->Some_0->Err_0 =~= Seq::<E>::empty());
        }
    }
}

/// What the first success is: an index at or after `from` and no greater than
/// the number of slots; no slot from `from` up to it holds a success; and the
/// slot at it does, unless it is the number of slots.
pub proof fn lemma_first_success_is_least<T, E>(slots: Seq<Slot<Result<T, E>>>, from: int)
    requires
        0 <= from <= slots.len(),
    ensures
        from <= first_success_from(slots, from) <= slots.len(),
        forall|j: int|
            from <= j < first_success_from(slots, from) ==> !succeeded(#[trigger] slots[j]),
        first_success_from(slots, from) < slots.len() ==> succeeded(
            slots[first_success_from(slots, from)],
        ),
    decreases slots.len() - from,
{
    if from < slots.len() && !succeeded(slots[from]) {
        lemma_first_success_is_least(slots, from + 1);
    }
}

/// Whether the cell holds a success that nobody has taken.
fn holds_success<Fut, T, E>(cell: &MaybeDone<Fut>) -> (r: bool) where
    Fut: Future<Output = Result<T, E>>,

    ensures
        r <==> succeeded(cell@),
{
    match cell.output() {
        Some(Ok(_)) => true,
        _ => false,
    }
}

/// Wait for the first successful future to complete.
///
/// This `struct` is created by the [`race_ok`] method on the [`RaceOk`] trait.
/// See its documentation for more.
///
/// [`race_ok`]: crate::future::race_ok::RaceOk::race_ok
/// [`RaceOk`]: crate::future::race_ok::RaceOk
#[must_use]
#[verifier::reject_recursive_types(T)]
#[verifier::reject_recursive_types(E)]
pub struct RaceOk<Fut, T, E> where Fut: Future<Output = Result<T, E>> {
    elems: Vec<MaybeDone<Fut>>,
    done: bool,
}

impl<Fut, T, E> RaceOk<Fut, T, E> where Fut: Future<Output = Result<T, E>> {
    /// The cells, one for each future, in the order of the futures.
    pub closed spec fn cells(&self) -> Seq<MaybeDone<Fut>> {
        self.elems@
    }

    /// What the cells hold, leaving out the futures.
    pub open spec fn slots(&self) -> Seq<Slot<Result<T, E>>> {
        Seq::new(self.cells().len(), |i: int| self.cells()[i]@)
    }

    /// Whether the race has reported its result.  It must not be polled
    /// after that.
    pub closed spec fn completed(&self) -> bool {
        self.done
    }

    /// The number of futures in the race.
    pub fn len(&self) -> (len: usize)
        ensures
            len == self.cells().len(),
    {
        self.elems.len()
    }

    /// Whether the race has reported its result.
    pub fn is_done(&self) -> (done: bool)
        ensures
            done == self.completed(),
    {
        self.done
    }

    /// Takes the success out of the cell at `index` and closes the race.
    fn take_success(&mut self, index: usize) -> (value: T)
        requires
            index < old(self).cells().len(),
            succeeded(old(self).cells()[index as int]@),
        ensures
            final(self).cells() == old(self).cells().update(index as int, MaybeDone::Gone),
            final(self).completed(),
            old(self).cells()[index as int]@ == Slot::Done(Ok::<T, E>(value)),
    {
        self.done = true;
        match self.elems[index].take() {
            Ok(value) => value,
            Err(_) => vstd::pervasive::unreached(),
        }
    }

    /// Takes the failure out of every cell, in the order of the cells.
    fn take_failures(&mut self) -> (errors: Vec<E>)
        requires
            forall|i: int|
                0 <= i < old(self).cells().len() ==> failed((#[trigger] old(self).cells()[i])@),
        ensures
            final(self).cells() == Seq::new(
                old(self).cells().len(),
                |i: int| MaybeDone::<Fut>::Gone,
            ),
            final(self).completed() == old(self).completed(),
            errors@ == Seq::new(
                old(self).cells().len(),
                |i: int| old(self).cells()[i]@->Done_0->Err_0,
            ),
    {
        let n = self.elems.len();
        let mut errors: Vec<E> = Vec::with_capacity(n);
        assert forall|j: int| 0 <= j < n implies failed((#[trigger] old(self).elems@[j])@) by {
            assert(failed(old(self).cells()[j]@));
        }
        let mut i: usize = 0;
        while i < n
            invariant
                i <= n,
                n == self.elems@.len(),
                n == old(self).elems@.len(),
                self.done == old(self).done,
                errors@.len() == i,
                forall|j: int| 0 <= j < i ==> (#[trigger] self.elems@[j]) == MaybeDone::<Fut>::Gone,
                forall|j: int|
                    0 <= j < i ==> (#[trigger] errors@[j]) == old(self).elems@[j]@->Done_0->Err_0,
                forall|j: int| i <= j < n ==> (#[trigger] self.elems@[j]) == old(self).elems@[j],
                forall|j: int| 0 <= j < n ==> failed((#[trigger] old(self).elems@[j])@),
            decreases n - i,
        {
            match self.elems[i].take() {
                Err(error) => errors.push(error),
                Ok(_) => vstd::pervasive::unreached(),
            }
            i += 1;
        }
        errors
    }
}

impl<Fut, T, E> RaceOk<Fut, T, E> where Fut: Future<Output = Result<T, E>> {
    /// Advances the race by one round in which the futures gave `outcomes`,
    /// one for each future and in their order, as [`round`] says.  An outcome
    /// counts only where the cell was pending, and those behind the first
    /// success are dropped unused.  A cell that is pending afterwards holds
    /// the future that it held.
    pub fn resolve(&mut self, outcomes: Vec<Option<Result<T, E>>>) -> (out: Option<
        Result<T, AggregateError<E>>,
    >)
        requires
            !old(self).completed(),
            outcomes@.len() == old(self).cells().len(),
        ensures
            final(self).slots() == round(old(self).slots(), outcomes@).0,
            report(out) == round(old(self).slots(), outcomes@).1,
            final(self).completed() <==> out is Some,
            forall|i: int|
                0 <= i < old(self).cells().len() && (#[trigger] final(self).cells()[i])@ is Pending
                    ==> final(self).cells()[i] == old(self).cells()[i],
    {
        let mut rest = outcomes;
        let ghost before = self.slots();
        let ghost given = outcomes@;
        let ghost settled = settled_all(before, given);
        let n = self.elems.len();
        let mut all_done = true;
        let mut i: usize = 0;
        while i < n
            invariant
                i <= n,
                n == self.elems@.len(),
                n == old(self).elems@.len(),
                n == rest@.len(),
                given == outcomes@,
                n == given.len(),
                before == old(self).slots(),
                settled == settled_all(before, given),
                !self.done,
                forall|j: int| 0 <= j < i ==> (#[trigger] self.elems@[j])@ == settled[j],
                forall|j: int|
                    0 <= j < i && (#[trigger] self.elems@[j])@ is Pending ==> self.elems@[j] == old(
                        self,
                    ).elems@[j],
                forall|j: int| 0 <= j < i ==> !succeeded(#[trigger] settled[j]),
                forall|j: int| i <= j < n ==> (#[trigger] self.elems@[j]) == old(self).elems@[j],
                forall|j: int| i <= j < n ==> (#[trigger] rest@[j]) == given[j],
                all_done <==> forall|j: int| 0 <= j < i ==> (#[trigger] settled[j]) is Done,
            decreases n - i,
        {
            let outcome = rest[i].take();
            self.elems[i].settle_if_pending(outcome);
            if holds_success(&self.elems[i]) {
                proof {
                    lemma_first_success(settled, 0, i as int);
                }
                let value = self.take_success(i);
                return Some(Ok(value));
            }
            if !self.elems[i].is_done() {
                all_done = false;
            }
            i += 1;
        }
        proof {
            lemma_first_success(settled, 0, n as int);
        }
        if all_done {
            let errors = self.take_failures();
            self.done = true;
            assert(errors@ =~= round(before, given).1->Some_0->Err_0);
            Some(Err(AggregateError::new(errors)))
        } else {
            None
        }
    }
}

impl<Fut, T, E> RaceOk<Fut, T, E> where Fut: Future<Output = Result<T, E>> + Unpin {
    /// Polls the futures that are still pending, in ascending order, and
    /// reports as [`round`] says on what they gave: the first success, taken
    /// at once and with no future behind it polled; or, when every future has
    /// failed, the errors of all in the order of the futures; or nothing yet.
    /// With no futures at all it reports the empty aggregate at once.
    pub fn poll(&mut self, cx: &mut Context<'_>) -> (out: Option<Result<T, AggregateError<E>>>)
        requires
            !old(self).completed(),
        ensures
            exists|outcomes: Seq<Option<Result<T, E>>>|
                {
                    &&& outcomes.len() == old(self).cells().len()
                    &&& final(self).slots() == (#[trigger] round(old(self).slots(), outcomes)).0
                    &&& report(out) == round(old(self).slots(), outcomes).1
                    &&& forall|i: int|
                        first_success(settled_all(old(self).slots(), outcomes)) < i < old(
                            self,
                        ).cells().len() ==> (#[trigger] final(self).cells()[i]) == old(
                            self,
                        ).cells()[i]
                },
            final(self).completed() <==> out is Some,
            old(self).cells().len() == 0 ==> report(out) == Some(
                Err::<T, Seq<E>>(Seq::<E>::empty()),
            ),
    {
        let ghost before = self.slots();
        let n = self.elems.len();
        let ghost mut given: Seq<Option<Result<T, E>>> = Seq::new(n as nat, |j: int| None);
        let ghost mut settled = settled_all(before, given);
        let mut all_done = true;
        let mut i: usize = 0;
        while i < n
            invariant
                i <= n,
                n == self.elems@.len(),
                n == old(self).elems@.len(),
                n == given.len(),
                before == old(self).slots(),
                settled == settled_all(before, given),
                !self.done,
                forall|j: int| 0 <= j < i ==> (#[trigger] self.elems@[j])@ == settled[j],
                forall|j: int| 0 <= j < i ==> !succeeded(#[trigger] settled[j]),
                forall|j: int| i <= j < n ==> (#[trigger] self.elems@[j]) == old(self).elems@[j],
                forall|j: int| i <= j < n ==> (#[trigger] given[j]) is None,
                all_done <==> forall|j: int| 0 <= j < i ==> (#[trigger] settled[j]) is Done,
            decreases n - i,
        {
            if self.elems[i].is_pending() {
                self.elems[i].poll(cx);
                proof {
                    let outcome = choose|outcome: Option<Result<T, E>>|
                        self.elems@[i as int]@ == #[trigger] before[i as int].settled(outcome);
                    let earlier = settled;
                    given = given.update(i as int, outcome);
                    settled = settled_all(before, given);
                    assert forall|j: int| 0 <= j < n && j != i implies #[trigger] settled[j]
                        == earlier[j] by {}
                    assert forall|j: int| 0 <= j < n && j != i implies settled[j]
                        == #[trigger] earlier[j] by {}
                }
            }
            assert(self.elems@[i as int]@ == settled[i as int]);
            if holds_success(&self.elems[i]) {
                proof {
                    lemma_first_success(settled, 0, i as int);
                }
                let value = self.take_success(i);
                assert(self.slots() =~= round(before, given).0);
                return Some(Ok(value));
            }
            if !self.elems[i].is_done() {
                all_done = false;
            }
            i += 1;
        }
        proof {
            lemma_first_success(settled, 0, n as int);
        }
        if all_done {
            let errors = self.take_failures();
            self.done = true;
            assert(errors@ =~= round(before, given).1->Some_0->Err_0);
            assert(n == 0 ==> errors@ =~= Seq::<E>::empty());
            Some(Err(AggregateError::new(errors)))
        } else {
            None
        }
    }
}

impl<Fut, T, E> RaceOkTrait for Vec<Fut> where Fut: Future<Output = Result<T, E>> {
    type Output = T;

    type Error = AggregateError<E>;

    type Future = RaceOk<Fut, T, E>;

    /// A race over these futures, in this order, none of them polled yet.
    fn race_ok(self) -> (race: RaceOk<Fut, T, E>)
        ensures
            race.cells() == self@.map_values(|future: Fut| MaybeDone::Future(future)),
            !race.completed(),
    {
        let ghost futures = self@;
        let mut elems: Vec<MaybeDone<Fut>> = Vec::with_capacity(self.len());
        for future in it: self.into_iter()
            invariant
                it.seq() == futures,
                elems@ == futures.take(it.index() as int).map_values(
                    |future: Fut| MaybeDone::Future(future),
                ),
        {
            elems.push(MaybeDone::new(future));
        }
        RaceOk { elems, done: false }
    }
}

} // verus!
