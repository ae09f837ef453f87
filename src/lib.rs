//! A small record store: text values kept under 32-bit signed keys in a
//! persistent map of the NEAR SDK, with insert, lookup, removal and clearing.
pub mod backing;
pub mod laws;
pub mod store;

pub use store::Todo;
