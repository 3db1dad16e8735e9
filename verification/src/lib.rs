//! Ledger-backed liquid staking for the SOuL Sanctuary token family.

pub mod address;
pub mod codec;
pub mod entrypoint;
pub mod error;
pub mod fixed_point;
pub mod game;
pub mod impact;
pub mod instruction;
pub mod ledger;
pub mod lst;
pub mod processor;
pub mod state;
pub mod token;
pub mod vesting;
