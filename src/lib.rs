//! A round-based BFT consensus engine with a network-clock sanity check.
pub mod ntp;
pub mod tally;
pub mod engine;
pub mod laws;
pub mod timer;
