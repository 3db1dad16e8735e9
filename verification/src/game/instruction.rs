//! The operations of the quest game, and the errors they fail with.

use vstd::prelude::*;
use crate::address::Address;
use crate::game::state::{EnvironmentalImpact, GeoLocation};

verus! {

/// One operation of the game with its payload.
#[derive(Clone, Debug)]
pub enum GameInstruction {
    /// Create the game's record. Signed by its authority.
    InitializeGame,
    /// Create a player's record. Signed by the player.
    InitializePlayer,
    /// Start a quest. Signed by the player.
    StartQuest { quest_id: u64 },
    /// Complete a quest and collect its rewards. Signed by the player.
    CompleteQuest { quest_id: u64, environmental_data: EnvironmentalImpact, location: GeoLocation },
    /// Hand in collected data. Signed by the player.
    CollectData { data_type: DataType, location: GeoLocation, impact: EnvironmentalImpact },
    /// Use an item. Signed by the player.
    UseItem { item_id: u64 },
    /// Craft an item. Signed by the player.
    CraftItem { recipe_id: u64 },
    /// Offer a trade to another player. Signed by the player who offers.
    TradeItems { offered_items: Vec<u64>, requested_items: Vec<u64>, target_player: Address },
    /// Claim the reward of an achievement. Signed by the player.
    ClaimAchievement { achievement_id: u64 },
    /// Buy back energy. Signed by the player.
    RestoreEnergy { amount: u8 },
    /// Change a player's experience and level. Signed by the authority.
    UpdatePlayerStats { experience_gain: u64, level_up: bool },
}

/// The kinds of data a player can collect.
#[derive(Clone, Copy, Debug, PartialEq, Eq, Structural)]
pub enum DataType {
    AirQuality,
    WaterQuality,
    SoilComposition,
    Biodiversity,
    ForestDensity,
    EnergyUsage,
    WeatherData,
}

/// Why an operation of the game was refused.
#[derive(Clone, Copy, Debug, PartialEq, Eq, Structural)]
pub enum GameError {
    InvalidInstruction,
    NotRentExempt,
    AlreadyInitialized,
    NotInitialized,
    InvalidPlayer,
    InvalidQuest,
    QuestNotStarted,
    QuestAlreadyCompleted,
    InsufficientEnergy,
    InsufficientLevel,
    InvalidItem,
    InvalidTrade,
    InvalidAchievement,
    InvalidLocation,
    InvalidEnvironmentalData,
}

} // verus!
