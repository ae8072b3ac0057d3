//! A set that remembers which values it has seen without keeping them.
//!
//! Only a 64-bit digest of each value is stored. Two values with the same
//! digest are taken for one: that is the price of not cloning the values.

pub mod hasher;
pub mod laws;
pub mod seen;
pub mod table;

pub use seen::SeenSet;
