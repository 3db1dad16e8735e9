//! The records of the quest game and what a player can do with them.

use vstd::prelude::*;
use crate::address::Address;

verus! {

/// The game-wide record.
#[derive(Clone, Copy, Debug)]
pub struct GameState {
    pub is_initialized: bool,
    pub authority: Address,
    pub total_players: u64,
    pub total_quests_completed: u64,
    pub total_rewards_distributed: u64,
    pub last_update: i64,
}

/// One player's record.
#[derive(Clone, Debug)]
pub struct PlayerState {
    pub owner: Address,
    pub experience: u64,
    pub level: u16,
    pub quests_completed: u64,
    pub rewards_earned: u64,
    pub inventory: PlayerInventory,
    pub achievements: Vec<Achievement>,
    pub last_quest_time: i64,
    /// From 0 to 100.
    pub energy: u8,
    pub collection_power: u64,
}

/// What a player owns.
#[derive(Clone, Debug)]
pub struct PlayerInventory {
    pub items: Vec<Item>,
    pub collectibles: Vec<Collectible>,
    pub resources: Resources,
}

/// A tool in a player's inventory.
#[derive(Clone, Debug)]
pub struct Item {
    pub id: u64,
    pub item_type: ItemType,
    pub rarity: Rarity,
    pub power: u16,
    pub attributes: Vec<Attribute>,
}

/// The kinds of tool.
#[derive(Clone, Copy, Debug, PartialEq, Eq, Structural)]
pub enum ItemType {
    Sensor,
    Drone,
    WaterTester,
    SoilAnalyzer,
    BiodiversityScanner,
    EnergyMeter,
    WeatherStation,
}

/// Something a player has collected at a place.
#[derive(Clone, Copy, Debug)]
pub struct Collectible {
    pub id: u64,
    pub collectible_type: CollectibleType,
    pub rarity: Rarity,
    pub power: u16,
    pub location: GeoLocation,
    pub timestamp: i64,
    pub environmental_impact: EnvironmentalImpact,
}

/// The kinds of collectible.
#[derive(Clone, Copy, Debug, PartialEq, Eq, Structural)]
pub enum CollectibleType {
    Tree,
    WaterSource,
    Wildlife,
    CleanEnergy,
    Ecosystem,
    Conservation,
}

/// The currencies of the game.
#[derive(Clone, Copy, Debug, PartialEq, Eq, Structural)]
pub struct Resources {
    pub energy_crystals: u64,
    pub eco_tokens: u64,
    pub research_points: u64,
}

/// An achievement a player has earned.
#[derive(Clone, Copy, Debug, PartialEq, Eq, Structural)]
pub struct Achievement {
    pub id: u64,
    pub achievement_type: AchievementType,
    pub timestamp: i64,
    pub reward: u64,
}

/// The kinds of achievement.
#[derive(Clone, Copy, Debug, PartialEq, Eq, Structural)]
pub enum AchievementType {
    DataCollector,
    Conservationist,
    WaterGuardian,
    EnergyInnovator,
    BiodiversityHero,
    CommunityLeader,
}

/// A quest a player can take.
#[derive(Clone, Debug)]
pub struct Quest {
    pub id: u64,
    pub quest_type: QuestType,
    pub difficulty: u8,
    pub rewards: QuestRewards,
    pub requirements: QuestRequirements,
    pub location: Option<GeoLocation>,
    pub time_limit: Option<u64>,
}

/// The kinds of quest.
#[derive(Clone, Copy, Debug, PartialEq, Eq, Structural)]
pub enum QuestType {
    DataCollection,
    Conservation,
    Research,
    Community,
    Special,
}

/// What a completed quest gives.
#[derive(Clone, Debug)]
pub struct QuestRewards {
    pub experience: u64,
    pub eco_tokens: u64,
    pub items: Vec<Item>,
    pub achievement: Option<Achievement>,
}

/// What a quest asks of the player who starts it.
#[derive(Clone, Debug)]
pub struct QuestRequirements {
    pub min_level: u16,
    pub required_items: Vec<ItemType>,
    pub required_collectibles: Vec<CollectibleType>,
    pub energy_cost: u8,
}

/// A place on earth.
#[derive(Clone, Copy, Debug, PartialEq, Eq, Structural)]
pub struct GeoLocation {
    /// In millionths of a degree.
    pub latitude: i64,
    /// In millionths of a degree.
    pub longitude: i64,
    /// In meters.
    pub altitude: i32,
}

/// The impact measured with a collectible or a quest.
#[derive(Clone, Copy, Debug, PartialEq, Eq, Structural)]
pub struct EnvironmentalImpact {
    pub carbon_offset: u64,
    pub water_saved: u64,
    pub energy_saved: u64,
    pub biodiversity_impact: u16,
}

/// One measured quality of an item.
#[derive(Clone, Copy, Debug, PartialEq, Eq, Structural)]
pub struct Attribute {
    pub attribute_type: AttributeType,
    pub value: u16,
}

/// The qualities an item can be measured by.
#[derive(Clone, Copy, Debug, PartialEq, Eq, Structural)]
pub enum AttributeType {
    Accuracy,
    Range,
    Efficiency,
    Durability,
    Speed,
}

/// How rare an item or a collectible is.
#[derive(Clone, Copy, Debug, PartialEq, Eq, Structural)]
pub enum Rarity {
    Common,
    Uncommon,
    Rare,
    Epic,
    Legendary,
}

/// The power of the first `n` items, summed.
pub open spec fn item_power(items: Seq<Item>, n: int) -> int
    decreases n,
{
    if n <= 0 {
        0
    } else {
        item_power(items, n - 1) + items[n - 1].power
    }
}

/// The power of the first `n` collectibles, summed.
pub open spec fn collectible_power(collectibles: Seq<Collectible>, n: int) -> int
    decreases n,
{
    if n <= 0 {
        0
    } else {
        collectible_power(collectibles, n - 1) + collectibles[n - 1].power
    }
}

impl PlayerState {
    /// Whether the inventory holds an item of the kind.
    pub open spec fn spec_has_item(&self, kind: ItemType) -> bool {
        exists|i: int|
            0 <= i < self.inventory.items@.len() && (#[trigger] self.inventory.items@[i]).item_type
                == kind
    }

    /// Whether the inventory holds a collectible of the kind.
    pub open spec fn spec_has_collectible(&self, kind: CollectibleType) -> bool {
        exists|i: int|
            0 <= i < self.inventory.collectibles@.len() && (
            #[trigger] self.inventory.collectibles@[i]).collectible_type == kind
    }

    /// Whether the inventory holds an item of each of the kinds.
    pub open spec fn spec_has_required_items(&self, required: Seq<ItemType>) -> bool {
        forall|j: int| 0 <= j < required.len() ==> self.spec_has_item(#[trigger] required[j])
    }

    /// Whether the inventory holds a collectible of each of the kinds.
    pub open spec fn spec_has_required_collectibles(&self, required: Seq<CollectibleType>) -> bool {
        forall|j: int|
            0 <= j < required.len() ==> self.spec_has_collectible(#[trigger] required[j])
    }

    /// Whether the player may start the quest: level and energy suffice, and
    /// the inventory holds every kind of item and collectible it asks for.
    pub open spec fn spec_can_start_quest(&self, quest: &Quest) -> bool {
        &&& self.level >= quest.requirements.min_level
        &&& self.energy >= quest.requirements.energy_cost
        &&& self.spec_has_required_items(quest.requirements.required_items@)
        &&& self.spec_has_required_collectibles(quest.requirements.required_collectibles@)
    }

    /// The player's collection power: the power of all items and
    /// collectibles, and a hundred for each level.
    pub open spec fn spec_collection_power(&self) -> int {
        item_power(self.inventory.items@, self.inventory.items@.len() as int) + collectible_power(
            self.inventory.collectibles@,
            self.inventory.collectibles@.len() as int,
        ) + self.level * 100
    }

    /// Whether the player may start the quest.
    pub fn can_start_quest(&self, quest: &Quest) -> (r: bool)
        ensures
            r == self.spec_can_start_quest(quest),
    {
        self.level >= quest.requirements.min_level && self.energy >= quest.requirements.energy_cost
            && self.has_required_items(quest.requirements.required_items.as_slice())
            && self.has_required_collectibles(quest.requirements.required_collectibles.as_slice())
    }

    fn has_item(&self, kind: ItemType) -> (r: bool)
        ensures
            r == self.spec_has_item(kind),
    {
        let mut i: usize = 0;
        while i < self.inventory.items.len()
            invariant
                i <= self.inventory.items@.len(),
                forall|k: int| 0 <= k < i ==> (#[trigger] self.inventory.items@[k]).item_type != kind,
            decreases self.inventory.items@.len() - i,
        {
            if self.inventory.items[i].item_type == kind {
                return true;
            }
            i += 1;
        }
        false
    }

    fn has_collectible(&self, kind: CollectibleType) -> (r: bool)
        ensures
            r == self.spec_has_collectible(kind),
    {
        let mut i: usize = 0;
        while i < self.inventory.collectibles.len()
            invariant
                i <= self.inventory.collectibles@.len(),
                forall|k: int|
                    0 <= k < i ==> (#[trigger] self.inventory.collectibles@[k]).collectible_type
                        != kind,
            decreases self.inventory.collectibles@.len() - i,
        {
            if self.inventory.collectibles[i].collectible_type == kind {
                return true;
            }
            i += 1;
        }
        false
    }

    /// Whether the inventory holds an item of each of the kinds.
    pub fn has_required_items(&self, required_items: &[ItemType]) -> (r: bool)
        ensures
            r == self.spec_has_required_items(required_items@),
    {
        let mut j: usize = 0;
        while j < required_items.len()
            invariant
                j <= required_items@.len(),
                forall|k: int| 0 <= k < j ==> self.spec_has_item(#[trigger] required_items@[k]),
            decreases required_items@.len() - j,
        {
            if !self.has_item(required_items[j]) {
                return false;
            }
            j += 1;
        }
        true
    }

    /// Whether the inventory holds a collectible of each of the kinds.
    pub fn has_required_collectibles(&self, required_collectibles: &[CollectibleType]) -> (r: bool)
        ensures
            r == self.spec_has_required_collectibles(required_collectibles@),
    {
        let mut j: usize = 0;
        while j < required_collectibles.len()
            invariant
                j <= required_collectibles@.len(),
                forall|k: int|
                    0 <= k < j ==> self.spec_has_collectible(#[trigger] required_collectibles@[k]),
            decreases required_collectibles@.len() - j,
        {
            if !self.has_collectible(required_collectibles[j]) {
                return false;
            }
            j += 1;
        }
        true
    }

    /// The player's collection power, which must fit in 64 bits.
    pub fn calculate_collection_power(&self) -> (r: u64)
        requires
            self.spec_collection_power() <= u64::MAX,
        ensures
            r == self.spec_collection_power(),
    {
        match self.checked_collection_power() {
            Some(power) => power,
            None => 0,
        }
    }

    /// The player's collection power; `None` exactly when it does not fit
    /// in 64 bits.
    pub fn checked_collection_power(&self) -> (r: Option<u64>)
        ensures
            r is Some <==> self.spec_collection_power() <= u64::MAX,
            r is Some ==> r->0 == self.spec_collection_power(),
    {
        let items = &self.inventory.items;
        let collectibles = &self.inventory.collectibles;
        let mut total: u64 = (self.level as u64) * 100;
        proof {
            lemma_item_power_monotonic(items@, 0, items@.len() as int);
            lemma_collectible_power_monotonic(collectibles@, 0, collectibles@.len() as int);
        }
        let mut i: usize = 0;
        while i < items.len()
            invariant
                i <= items@.len(),
                total == item_power(items@, i as int) + self.level * 100,
                0 <= collectible_power(collectibles@, collectibles@.len() as int),
                items@ == self.inventory.items@,
                collectibles@ == self.inventory.collectibles@,
            decreases items@.len() - i,
        {
            proof {
                lemma_item_power_monotonic(items@, i as int + 1, items@.len() as int);
            }
            total = match total.checked_add(items[i].power as u64) {
                Some(total) => total,
                None => {
                    return None;
                },
            };
            i += 1;
        }
        let mut j: usize = 0;
        while j < collectibles.len()
            invariant
                j <= collectibles@.len(),
                total == item_power(items@, items@.len() as int) + collectible_power(
                    collectibles@,
                    j as int,
                ) + self.level * 100,
                items@ == self.inventory.items@,
                collectibles@ == self.inventory.collectibles@,
            decreases collectibles@.len() - j,
        {
            proof {
                lemma_collectible_power_monotonic(
                    collectibles@,
                    j as int + 1,
                    collectibles@.len() as int,
                );
            }
            total = match total.checked_add(collectibles[j].power as u64) {
                Some(total) => total,
                None => {
                    return None;
                },
            };
            j += 1;
        }
        Some(total)
    }
}

/// The summed power of a longer run of items is no less.
proof fn lemma_item_power_monotonic(items: Seq<Item>, m: int, n: int)
    requires
        0 <= m <= n,
    ensures
        0 <= item_power(items, m) <= item_power(items, n),
    decreases n,
{
    if m < n {
        lemma_item_power_monotonic(items, m, n - 1);
    } else if m > 0 {
        lemma_item_power_monotonic(items, m - 1, m - 1);
    }
}

/// The summed power of a longer run of collectibles is no less.
proof fn lemma_collectible_power_monotonic(collectibles: Seq<Collectible>, m: int, n: int)
    requires
        0 <= m <= n,
    ensures
        0 <= collectible_power(collectibles, m) <= collectible_power(collectibles, n),
    decreases n,
{
    if m < n {
        lemma_collectible_power_monotonic(collectibles, m, n - 1);
    } else if m > 0 {
        lemma_collectible_power_monotonic(collectibles, m - 1, m - 1);
    }
}

} // verus!
