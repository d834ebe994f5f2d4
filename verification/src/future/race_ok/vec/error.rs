use core::fmt::Display;
use vstd::prelude::*;
use vstd::string::to_string_from_display_ensures;
use vstd::string::StringExecFns;

verus! {

/// A collection of errors, one for each future that failed, in the order of
/// the futures and not in the order in which they failed.
#[derive(Debug)]
pub struct AggregateError<E> {
    inner: Vec<E>,
}

impl<E> View for AggregateError<E> {
    type V = Seq<E>;

    /// The errors, in order.
    closed spec fn view(&self) -> Seq<E> {
        self.inner@
    }
}

/// The texts of `parts`, one after the other.
pub open spec fn concat(parts: Seq<String>) -> Seq<char>
    decreases parts.len(),
{
    if parts.len() == 0 {
        Seq::empty()
    } else {
        concat(parts.drop_last()) + parts.last()@
    }
}

/// `parts` holds, for each error in turn, a text that `to_string` gives for
/// it.
pub open spec fn describes<E: Display>(errors: Seq<E>, parts: Seq<String>) -> bool {
    &&& parts.len() == errors.len()
    &&& forall|i: int|
        0 <= i < errors.len() ==> to_string_from_display_ensures::<E>(
            &errors[i],
            #[trigger] parts[i],
        )
}

impl<E> AggregateError<E> {
    /// An aggregate of the given errors, in the given order.
    pub fn new(inner: Vec<E>) -> (error: Self)
        ensures
            error@ == inner@,
    {
        AggregateError { inner }
    }

    /// The number of errors.
    pub fn len(&self) -> (len: usize)
        ensures
            len == self@.len(),
    {
        self.inner.len()
    }

    /// The error of the future at `index`.
    pub fn get(&self, index: usize) -> (error: &E)
        requires
            index < self@.len(),
        ensures
            *error == self@[index as int],
    {
        &self.inner[index]
    }

    /// The errors themselves, in order.
    pub fn into_inner(self) -> (inner: Vec<E>)
        ensures
            inner@ == self@,
    {
        self.inner
    }
}

impl<E: Display> AggregateError<E> {
    /// The errors' descriptions, one after the other, in the order of the
    /// errors.
    pub fn to_string(&self) -> (text: String)
        ensures
            exists|parts: Seq<String>| #[trigger] describes(self@, parts) && text@ == concat(parts),
    {
        let mut text = String::new();
        let ghost mut parts: Seq<String> = Seq::empty();
        let n = self.inner.len();
        let mut i: usize = 0;
        while i < n
            invariant
                n == self.inner@.len(),
                i <= n,
                parts.len() == i,
                forall|j: int|
                    0 <= j < i ==> to_string_from_display_ensures::<E>(
                        &self.inner@[j],
                        #[trigger] parts[j],
                    ),
                text@ == concat(parts),
            decreases n - i,
        {
            let part = self.inner[i].to_string();
            text.append(part.as_str());
            proof {
                assert(parts.push(part).drop_last() == parts);
                parts = parts.push(part);
            }
            i += 1;
        }
        assert(describes(self@, parts));
        text
    }
}

impl<E> core::ops::Deref for AggregateError<E> {
    type Target = Vec<E>;

    /// The errors as a vector: indexing and iteration go through it.
    fn deref(&self) -> (inner: &Vec<E>)
        ensures
            inner@ == self@,
    {
        &self.inner
    }
}

impl<E> core::ops::DerefMut for AggregateError<E> {
    /// The errors as a vector that can be changed: what it holds when the
    /// borrow ends is what the aggregate holds.
    fn deref_mut(&mut self) -> (inner: &mut Vec<E>)
        ensures
            inner@ == old(self)@,
            final(self)@ == final(inner)@,
    {
        &mut self.inner
    }
}

} // verus!
