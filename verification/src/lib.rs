//! Noughts and crosses played through a ledger: the rules of the game, the
//! byte layout of its persisted record, the instruction that applies one move
//! to that record, and the requests a client assembles for the ledger.

pub mod client;
pub mod codec;
pub mod error;
pub mod game;
pub mod identity;
pub mod instruction;
pub mod program;
pub mod utils;
