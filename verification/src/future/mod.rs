//! The combinators themselves.
pub mod join;
pub mod race_ok;

pub use join::Join;
pub use race_ok::RaceOk;
