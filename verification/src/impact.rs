//! Reports on environmental impact, their verifiers and their disputes.

pub mod instruction;
pub mod processor;
pub mod state;
