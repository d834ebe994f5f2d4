//! Combinators that drive several futures to one combined result.
//!
//! [`future::join`] waits for every future of a tuple of two to twelve, and
//! hands out the tuple of their outputs.  [`future::race_ok`] waits over a
//! vector of fallible futures for the first success, or for all of them to
//! fail.  Both are built from [`utils::MaybeDone`], a cell that remembers
//! whether its future has finished.  [`utils::PollStates`] is a compact
//! store of one completion state per slot.
//!
//! A combinator here is a state machine that is polled by hand.  Its `poll`
//! takes the wake-up context and polls the futures that are still pending;
//! its `resolve` advances the same state machine by one round whose outcomes
//! are given.  What a round does is a function of the slots and the outcomes,
//! and `poll` does a round on whatever the futures returned.  A combinator
//! must not be polled again once it has reported: `poll` and `resolve` ask
//! for that, and `is_done` tells.
pub mod future;
pub mod utils;
