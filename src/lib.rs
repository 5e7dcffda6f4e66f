//! A house-banked craps engine: payout table, dice resolver, player and game
//! ledgers, bet admission and settlement, all verified.

pub mod dice;

pub mod error;
pub mod payout;
pub mod game;
pub mod position;
pub mod bet;
pub mod settle;
pub mod claim;
pub mod laws;
pub mod bindings;
