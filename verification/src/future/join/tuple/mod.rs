//! Joins of tuples, one combinator for each length from two to twelve.
pub mod join2;
pub mod join3;
pub mod join4;
pub mod join5;
pub mod join6;
pub mod join7;
pub mod join8;
pub mod join9;
pub mod join10;
pub mod join11;
pub mod join12;

pub use join2::Join2;
pub use join3::Join3;
pub use join4::Join4;
pub use join5::Join5;
pub use join6::Join6;
pub use join7::Join7;
pub use join8::Join8;
pub use join9::Join9;
pub use join10::Join10;
pub use join11::Join11;
pub use join12::Join12;
