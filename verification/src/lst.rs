//! The liquid-staking pool: records, operations and their handlers.

pub mod instruction;
pub mod processor;
pub mod state;
