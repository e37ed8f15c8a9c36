//! Round-based simulation core of a small idle-mining game.
//!
//! A player and three computer-controlled miners passively earn gold,
//! spend it on two upgrade tracks, and donate part of it each round;
//! at the end of a round the donations are ranked and the lower a
//! miner ranks, the more damage it takes.
//!
//! Gold is counted in thousandths of a gold piece and time in
//! milliseconds of a monotonic clock, both as plain integers; the
//! host loop that renders the state and translates pointer input
//! into commands lives outside this crate.

pub mod bot_policy;
pub mod game_state;
pub mod miner;
pub mod rng;
pub mod scoring;
