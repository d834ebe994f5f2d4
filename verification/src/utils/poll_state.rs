use vstd::prelude::*;

verus! {

/// Enumerate the current poll state.
#[derive(Debug, Clone, Copy, PartialEq, Eq, Structural)]
pub enum PollState {
    /// Polling the underlying future.
    Pending,
    /// Data has been written to the output structure
    /// and the future should no longer be polled.
    Done,
    /// Data has been consumed from the output structure,
    /// and we should no longer reason about it.
    Consumed,
}

impl PollState {
    /// Returns `true` if the poll state is [`PollState::Pending`].
    #[must_use]
    pub fn is_pending(&self) -> (r: bool)
        ensures
            r <==> *self is Pending,
    {
        matches!(self, Self::Pending)
    }

    /// Returns `true` if the poll state is [`PollState::Done`].
    #[must_use]
    pub fn is_done(&self) -> (r: bool)
        ensures
            r <==> *self is Done,
    {
        matches!(self, Self::Done)
    }

    /// Returns `true` if the poll state is [`PollState::Consumed`].
    #[must_use]
    pub fn is_consumed(&self) -> (r: bool)
        ensures
            r <==> *self is Consumed,
    {
        matches!(self, Self::Consumed)
    }
}

impl Default for PollState {
    /// A fresh state is pending.
    fn default() -> (r: Self)
        ensures
            r is Pending,
    {
        PollState::Pending
    }
}

/// The longest store that is kept inline: with it the whole store takes three
/// machine words.
pub const MAX_INLINE_ENTRIES: usize = (usize::BITS / 8) as usize * 3 - 2;


/// `Vec::reserve_exact`: makes room for `additional` more states and leaves
/// the contents as they are.  The call panics when the new capacity passes
/// `isize::MAX` bytes; a state takes one byte, and `requires` keeps the total
/// below that.
#[verifier::external_body]
fn reserve_exact(states: &mut Vec<PollState>, additional: usize)
    requires
        old(states)@.len() + additional <= isize::MAX,
    ensures
        final(states)@ == old(states)@,
{
    states.reserve_exact(additional);
}

/// `Vec::into_boxed_slice`: the same states, in the same order, as a boxed
/// slice.
#[verifier::external_body]
fn into_boxed_slice(states: Vec<PollState>) -> (boxed: Box<[PollState]>)
    ensures
        boxed@ == states@,
{
    states.into_boxed_slice()
}

/// What backs a [`PollStates`]: a short inline array of which the first
/// `len` entries count, or a boxed slice.
enum Backing {
    Inline(u8, [PollState; MAX_INLINE_ENTRIES]),
    Boxed(Box<[PollState]>),
}

/// A fixed-length store of poll states, one per slot.
///
/// Its length is set when it is made and never changes.  A store of at most
/// [`MAX_INLINE_ENTRIES`] slots lives inline; a longer one lives in one heap
/// allocation.  Reads and writes go by index, whatever the backing.
pub struct PollStates {
    backing: Backing,
}

impl View for PollStates {
    type V = Seq<PollState>;

    /// The slots, in order.
    closed spec fn view(&self) -> Seq<PollState> {
        match self.backing {
            Backing::Inline(len, states) => states@.take(len as int),
            Backing::Boxed(states) => states@,
        }
    }
}

impl PollStates {
    /// An inline store counts no more entries than its array has.  Every
    /// store that [`PollStates::new`] makes is well formed, and every method
    /// keeps it so.
    pub closed spec fn wf(&self) -> bool {
        match self.backing {
            Backing::Inline(len, _) => len <= MAX_INLINE_ENTRIES,
            Backing::Boxed(_) => true,
        }
    }

    /// Whether the slots are stored inline rather than on the heap.
    pub closed spec fn inline(&self) -> bool {
        self.backing is Inline
    }

    /// A store of `len` slots, every one of them pending.  It is inline
    /// exactly when `len` is at most [`MAX_INLINE_ENTRIES`].
    pub fn new(len: usize) -> (states: Self)
        requires
            len <= isize::MAX,
        ensures
            states.wf(),
            states@.len() == len,
            forall|i: int| 0 <= i < len ==> states@[i] is Pending,
            states.inline() <==> len <= MAX_INLINE_ENTRIES,
    {
        if len <= MAX_INLINE_ENTRIES {
            PollStates {
                backing: Backing::Inline(len as u8, [PollState::Pending; MAX_INLINE_ENTRIES]),
            }
        } else {
            let mut states: Vec<PollState> = Vec::new();
            reserve_exact(&mut states, len);
            states.resize(len, PollState::Pending);
            PollStates { backing: Backing::Boxed(into_boxed_slice(states)) }
        }
    }

    /// Whether the slots are stored inline rather than on the heap.
    pub fn is_inline(&self) -> (r: bool)
        ensures
            r == self.inline(),
    {
        matches!(self.backing, Backing::Inline(..))
    }

    /// The slots as a slice.
    pub fn deref(&self) -> (slice: &[PollState])
        requires
            self.wf(),
        ensures
            slice@ == self@,
    {
        match &self.backing {
            Backing::Inline(len, states) => vstd::slice::slice_subrange(
                states.as_slice(),
                0,
                *len as usize,
            ),
            Backing::Boxed(states) => &**states,
        }
    }

    /// The slots as a slice that can be written through.  A slice is as long
    /// when the borrow ends as when it began, and then the store holds what
    /// the slice holds.
    pub fn deref_mut(&mut self) -> (slice: &mut [PollState])
        requires
            old(self).wf(),
        ensures
            slice@ == old(self)@,
            final(self).wf(),
            final(self).inline() == old(self).inline(),
            final(slice)@.len() == slice@.len() ==> final(self)@ == final(slice)@,
    {
        match &mut self.backing {
            Backing::Inline(len, states) => {
                let (head, _) = states.split_at_mut(*len as usize);
                head
            },
            Backing::Boxed(states) => &mut **states,
        }
    }

    /// The number of slots.
    pub fn len(&self) -> (len: usize)
        requires
            self.wf(),
        ensures
            len == self@.len(),
    {
        self.deref().len()
    }

    /// The state of slot `index`.
    pub fn get(&self, index: usize) -> (state: PollState)
        requires
            self.wf(),
            index < self@.len(),
        ensures
            state == self@[index as int],
    {
        self.deref()[index]
    }

    /// Writes `state` to slot `index`.  A later read of that slot gives
    /// `state` back; every other slot, the length and the backing stay as
    /// they were.
    pub fn set(&mut self, index: usize, state: PollState)
        requires
            old(self).wf(),
            index < old(self)@.len(),
        ensures
            final(self).wf(),
            final(self)@ == old(self)@.update(index as int, state),
            final(self)@[index as int] == state,
            final(self).inline() == old(self).inline(),
    {
        let slice = self.deref_mut();
        slice[index] = state;
    }
}

} // verus!
