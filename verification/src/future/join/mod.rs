//! Wait for every future of a group.
use vstd::prelude::*;

pub mod tuple;

verus! {

/// Wait for all futures to complete.
///
/// Awaits multiple futures simultaneously, returning the output of the
/// futures once all complete.
pub trait Join {
    /// The outputs of the futures, together.
    type Output;

    /// The combinator that the futures are handed to.
    type Future;

    /// Hands the futures to a combinator, none of them polled yet.
    fn join(self) -> Self::Future;
}

} // verus!
