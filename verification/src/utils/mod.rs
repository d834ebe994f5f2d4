//! Bookkeeping shared by the combinators.
pub mod maybe_done;
pub mod poll_state;

pub use maybe_done::MaybeDone;
pub use maybe_done::Slot;
pub use poll_state::PollState;
pub use poll_state::PollStates;
