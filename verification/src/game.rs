//! The quest game: players, their inventories and the quests they take.

pub mod instruction;
pub mod state;
