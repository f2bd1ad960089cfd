//! A verified blackjack game engine: card scoring, dealing, an automated
//! dealer policy, outcome judging, and a per-account session state machine
//! coupled to a balance ledger.

pub mod card;
pub mod contract;
pub mod error;
pub mod game;
pub mod msg;
pub mod random;
pub mod state;
pub mod store;
