//! A pay-to-play game core: a participant escrows tokens to open a game
//! session, a physical trigger activates it, a score is submitted once, and a
//! capacity-bounded global leaderboard keeps the highest scores.
//!
//! The surrounding ledger runtime owns accounts, signatures, token transfers
//! and clocks; this crate holds the session lifecycle state machine and the
//! leaderboard aggregation, stated and proved over plain values.

pub mod errors;
pub mod game;
pub mod leaderboard;
pub mod player;
pub mod session;
