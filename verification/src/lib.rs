//! Core of a black-box fuzzing harness for external turn-based game engines.
//!
//! The library holds the protocol message shapes and their wire encoding,
//! the abstract `Requester` transport contract, and the exploration engine
//! that drives a game engine through randomly generated commands,
//! classifying every outcome.

pub mod api;
pub mod fuzz;
pub mod requester;
pub mod rng;
pub mod text;
pub mod wire;
