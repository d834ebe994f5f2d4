//! Wait for the first future that succeeds.
use vstd::prelude::*;

pub mod vec;

verus! {

/// Wait for the first successful future to complete.
///
/// Awaits multiple futures simultaneously, returning the output of the first
/// future which completes with `Ok`.  If no future completes successfully,
/// returns an aggregate error of all failed futures.
pub trait RaceOk {
    /// The output of a future that succeeded.
    type Output;

    /// The aggregate of the errors, when every future failed.
    type Error;

    /// The combinator that the futures are handed to.
    type Future;

    /// Hands the futures to a combinator, none of them polled yet.
    fn race_ok(self) -> Self::Future;
}

} // verus!
