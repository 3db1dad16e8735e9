//! Vesting schedules: tokens that are released to a beneficiary over time.

pub mod instruction;
pub mod processor;
pub mod state;
