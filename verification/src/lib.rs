//! A stablecoin supply monitor whose lifecycle (connect, fetch, display) is
//! enforced twice: once by the type of the handle, once by checks at run time.
//!
//! The library decides and computes; whoever drives it performs the network
//! round trips and hands the replies back.

pub mod constants;
pub mod monitors;
