//! Advancements: a fixed tree of 30 goals, unlocked by gameplay triggers.
//!
//! Triggers are queued and processed in order; an advancement unlocks when a
//! trigger names it, it is not yet unlocked, and its parent (if it has one)
//! is already unlocked.
use vstd::prelude::*;

verus! {

/// Unique identifier for each advancement in the game.
#[derive(Debug, Clone, Copy, PartialEq, Eq, Hash, Structural)]
pub enum AdvancementId {
    OpenInventory,
    MineWood,
    CraftPlanks,
    MakePickaxe,
    MineCobblestone,
    BuildFurnace,
    SmeltIron,
    GetDiamond,
    MakeEnchantTable,
    EnterNether,
    EnterEnd,
    DefeatDragon,
    DefeatWither,
    GetBeacon,
    BrewPotion,
    FullDiamondArmor,
    EatGoldenApple,
    MakeCake,
    CoverDistance1000,
    Breed,
    CureZombie,
    TradeVillager,
    UseEnchantTable,
    CatchFish,
    MakeMap,
    PlaceBanner,
    GetTrident,
    FindStronghold,
    ActivatePortal,
    KillCreeper,
}

/// Total number of advancements.
pub const ADVANCEMENT_COUNT: usize = 30;

impl AdvancementId {
    /// Total number of advancements.
    pub const COUNT: usize = 30;
}

/// Position of an advancement in the registry (its declaration order).
pub open spec fn adv_index(id: AdvancementId) -> int {
    match id {
        AdvancementId::OpenInventory => 0,
        AdvancementId::MineWood => 1,
        AdvancementId::CraftPlanks => 2,
        AdvancementId::MakePickaxe => 3,
        AdvancementId::MineCobblestone => 4,
        AdvancementId::BuildFurnace => 5,
        AdvancementId::SmeltIron => 6,
        AdvancementId::GetDiamond => 7,
        AdvancementId::MakeEnchantTable => 8,
        AdvancementId::EnterNether => 9,
        AdvancementId::EnterEnd => 10,
        AdvancementId::DefeatDragon => 11,
        AdvancementId::DefeatWither => 12,
        AdvancementId::GetBeacon => 13,
        AdvancementId::BrewPotion => 14,
        AdvancementId::FullDiamondArmor => 15,
        AdvancementId::EatGoldenApple => 16,
        AdvancementId::MakeCake => 17,
        AdvancementId::CoverDistance1000 => 18,
        AdvancementId::Breed => 19,
        AdvancementId::CureZombie => 20,
        AdvancementId::TradeVillager => 21,
        AdvancementId::UseEnchantTable => 22,
        AdvancementId::CatchFish => 23,
        AdvancementId::MakeMap => 24,
        AdvancementId::PlaceBanner => 25,
        AdvancementId::GetTrident => 26,
        AdvancementId::FindStronghold => 27,
        AdvancementId::ActivatePortal => 28,
        AdvancementId::KillCreeper => 29,
    }
}

/// The advancement at a registry position, if the position is below 30.
pub open spec fn adv_at(i: usize) -> Option<AdvancementId> {
    match i {
        0 => Some(AdvancementId::OpenInventory),
        1 => Some(AdvancementId::MineWood),
        2 => Some(AdvancementId::CraftPlanks),
        3 => Some(AdvancementId::MakePickaxe),
        4 => Some(AdvancementId::MineCobblestone),
        5 => Some(AdvancementId::BuildFurnace),
        6 => Some(AdvancementId::SmeltIron),
        7 => Some(AdvancementId::GetDiamond),
        8 => Some(AdvancementId::MakeEnchantTable),
        9 => Some(AdvancementId::EnterNether),
        10 => Some(AdvancementId::EnterEnd),
        11 => Some(AdvancementId::DefeatDragon),
        12 => Some(AdvancementId::DefeatWither),
        13 => Some(AdvancementId::GetBeacon),
        14 => Some(AdvancementId::BrewPotion),
        15 => Some(AdvancementId::FullDiamondArmor),
        16 => Some(AdvancementId::EatGoldenApple),
        17 => Some(AdvancementId::MakeCake),
        18 => Some(AdvancementId::CoverDistance1000),
        19 => Some(AdvancementId::Breed),
        20 => Some(AdvancementId::CureZombie),
        21 => Some(AdvancementId::TradeVillager),
        22 => Some(AdvancementId::UseEnchantTable),
        23 => Some(AdvancementId::CatchFish),
        24 => Some(AdvancementId::MakeMap),
        25 => Some(AdvancementId::PlaceBanner),
        26 => Some(AdvancementId::GetTrident),
        27 => Some(AdvancementId::FindStronghold),
        28 => Some(AdvancementId::ActivatePortal),
        29 => Some(AdvancementId::KillCreeper),
        _ => None,
    }
}

/// The parent of each advancement in the tree; `OpenInventory` is the root.
pub open spec fn adv_parent(id: AdvancementId) -> Option<AdvancementId> {
    match id {
        AdvancementId::OpenInventory => None,
        AdvancementId::MineWood => Some(AdvancementId::OpenInventory),
        AdvancementId::CraftPlanks => Some(AdvancementId::MineWood),
        AdvancementId::MakePickaxe => Some(AdvancementId::CraftPlanks),
        AdvancementId::MineCobblestone => Some(AdvancementId::MakePickaxe),
        AdvancementId::BuildFurnace => Some(AdvancementId::MineCobblestone),
        AdvancementId::SmeltIron => Some(AdvancementId::BuildFurnace),
        AdvancementId::GetDiamond => Some(AdvancementId::SmeltIron),
        AdvancementId::MakeEnchantTable => Some(AdvancementId::GetDiamond),
        AdvancementId::EnterNether => Some(AdvancementId::GetDiamond),
        AdvancementId::EnterEnd => Some(AdvancementId::EnterNether),
        AdvancementId::DefeatDragon => Some(AdvancementId::EnterEnd),
        AdvancementId::DefeatWither => Some(AdvancementId::EnterNether),
        AdvancementId::GetBeacon => Some(AdvancementId::DefeatWither),
        AdvancementId::BrewPotion => Some(AdvancementId::EnterNether),
        AdvancementId::FullDiamondArmor => Some(AdvancementId::GetDiamond),
        AdvancementId::EatGoldenApple => Some(AdvancementId::SmeltIron),
        AdvancementId::MakeCake => Some(AdvancementId::CraftPlanks),
        AdvancementId::CoverDistance1000 => Some(AdvancementId::OpenInventory),
        AdvancementId::Breed => Some(AdvancementId::OpenInventory),
        AdvancementId::CureZombie => Some(AdvancementId::BrewPotion),
        AdvancementId::TradeVillager => Some(AdvancementId::OpenInventory),
        AdvancementId::UseEnchantTable => Some(AdvancementId::MakeEnchantTable),
        AdvancementId::CatchFish => Some(AdvancementId::OpenInventory),
        AdvancementId::MakeMap => Some(AdvancementId::CraftPlanks),
        AdvancementId::PlaceBanner => Some(AdvancementId::CraftPlanks),
        AdvancementId::GetTrident => Some(AdvancementId::OpenInventory),
        AdvancementId::FindStronghold => Some(AdvancementId::EnterNether),
        AdvancementId::ActivatePortal => Some(AdvancementId::SmeltIron),
        AdvancementId::KillCreeper => Some(AdvancementId::OpenInventory),
    }
}

/// The display name of each advancement.
pub open spec fn adv_name(id: AdvancementId) -> Seq<char> {
    match id {
        AdvancementId::OpenInventory => "Taking Inventory"@,
        AdvancementId::MineWood => "Getting Wood"@,
        AdvancementId::CraftPlanks => "Benchmarking"@,
        AdvancementId::MakePickaxe => "Time to Mine!"@,
        AdvancementId::MineCobblestone => "Stone Age"@,
        AdvancementId::BuildFurnace => "Hot Topic"@,
        AdvancementId::SmeltIron => "Acquire Hardware"@,
        AdvancementId::GetDiamond => "Diamonds!"@,
        AdvancementId::MakeEnchantTable => "Enchanter"@,
        AdvancementId::EnterNether => "We Need to Go Deeper"@,
        AdvancementId::EnterEnd => "The End?"@,
        AdvancementId::DefeatDragon => "Free the End"@,
        AdvancementId::DefeatWither => "The Beginning?"@,
        AdvancementId::GetBeacon => "Beaconator"@,
        AdvancementId::BrewPotion => "Local Brewery"@,
        AdvancementId::FullDiamondArmor => "Cover Me with Diamonds"@,
        AdvancementId::EatGoldenApple => "Overpowered"@,
        AdvancementId::MakeCake => "The Lie"@,
        AdvancementId::CoverDistance1000 => "Adventuring Time"@,
        AdvancementId::Breed => "The Parrots and the Bats"@,
        AdvancementId::CureZombie => "Zombie Doctor"@,
        AdvancementId::TradeVillager => "What a Deal!"@,
        AdvancementId::UseEnchantTable => "Enchantment Master"@,
        AdvancementId::CatchFish => "Fishy Business"@,
        AdvancementId::MakeMap => "Map Room"@,
        AdvancementId::PlaceBanner => "Volun-tier"@,
        AdvancementId::GetTrident => "A Throwaway Joke"@,
        AdvancementId::FindStronghold => "Eye Spy"@,
        AdvancementId::ActivatePortal => "Into Fire"@,
        AdvancementId::KillCreeper => "Monster Hunter"@,
    }
}

/// The description of each advancement.
pub open spec fn adv_description(id: AdvancementId) -> Seq<char> {
    match id {
        AdvancementId::OpenInventory => "Open your inventory"@,
        AdvancementId::MineWood => "Mine a log with your hand"@,
        AdvancementId::CraftPlanks => "Craft planks from a log"@,
        AdvancementId::MakePickaxe => "Craft a wooden pickaxe"@,
        AdvancementId::MineCobblestone => "Mine cobblestone with a pickaxe"@,
        AdvancementId::BuildFurnace => "Build a furnace"@,
        AdvancementId::SmeltIron => "Smelt an iron ingot"@,
        AdvancementId::GetDiamond => "Acquire a diamond"@,
        AdvancementId::MakeEnchantTable => "Craft an enchanting table"@,
        AdvancementId::EnterNether => "Enter the Nether"@,
        AdvancementId::EnterEnd => "Enter the End"@,
        AdvancementId::DefeatDragon => "Defeat the Ender Dragon"@,
        AdvancementId::DefeatWither => "Defeat the Wither"@,
        AdvancementId::GetBeacon => "Create and power a full beacon"@,
        AdvancementId::BrewPotion => "Brew a potion"@,
        AdvancementId::FullDiamondArmor => "Wear a full set of diamond armor"@,
        AdvancementId::EatGoldenApple => "Eat an enchanted golden apple"@,
        AdvancementId::MakeCake => "Craft a cake"@,
        AdvancementId::CoverDistance1000 => "Travel 1000 blocks from spawn"@,
        AdvancementId::Breed => "Breed two animals"@,
        AdvancementId::CureZombie => "Cure a zombie villager"@,
        AdvancementId::TradeVillager => "Trade with a villager"@,
        AdvancementId::UseEnchantTable => "Enchant an item at an enchanting table"@,
        AdvancementId::CatchFish => "Catch a fish with a fishing rod"@,
        AdvancementId::MakeMap => "Craft a map"@,
        AdvancementId::PlaceBanner => "Place a banner"@,
        AdvancementId::GetTrident => "Obtain a trident"@,
        AdvancementId::FindStronghold => "Find a stronghold"@,
        AdvancementId::ActivatePortal => "Activate a Nether portal"@,
        AdvancementId::KillCreeper => "Kill a creeper"@,
    }
}

impl AdvancementId {
    /// Position of this advancement in the registry.
    pub fn index(self) -> (i: usize)
        ensures
            i == adv_index(self),
            i < ADVANCEMENT_COUNT,
    {
        match self {
            AdvancementId::OpenInventory => 0,
            AdvancementId::MineWood => 1,
            AdvancementId::CraftPlanks => 2,
            AdvancementId::MakePickaxe => 3,
            AdvancementId::MineCobblestone => 4,
            AdvancementId::BuildFurnace => 5,
            AdvancementId::SmeltIron => 6,
            AdvancementId::GetDiamond => 7,
            AdvancementId::MakeEnchantTable => 8,
            AdvancementId::EnterNether => 9,
            AdvancementId::EnterEnd => 10,
            AdvancementId::DefeatDragon => 11,
            AdvancementId::DefeatWither => 12,
            AdvancementId::GetBeacon => 13,
            AdvancementId::BrewPotion => 14,
            AdvancementId::FullDiamondArmor => 15,
            AdvancementId::EatGoldenApple => 16,
            AdvancementId::MakeCake => 17,
            AdvancementId::CoverDistance1000 => 18,
            AdvancementId::Breed => 19,
            AdvancementId::CureZombie => 20,
            AdvancementId::TradeVillager => 21,
            AdvancementId::UseEnchantTable => 22,
            AdvancementId::CatchFish => 23,
            AdvancementId::MakeMap => 24,
            AdvancementId::PlaceBanner => 25,
            AdvancementId::GetTrident => 26,
            AdvancementId::FindStronghold => 27,
            AdvancementId::ActivatePortal => 28,
            AdvancementId::KillCreeper => 29,
        }
    }

    /// The advancement at a registry position, if there is one.
    pub fn from_index(i: usize) -> (r: Option<AdvancementId>)
        ensures
            r == adv_at(i),
    {
        match i {
            0 => Some(AdvancementId::OpenInventory),
            1 => Some(AdvancementId::MineWood),
            2 => Some(AdvancementId::CraftPlanks),
            3 => Some(AdvancementId::MakePickaxe),
            4 => Some(AdvancementId::MineCobblestone),
            5 => Some(AdvancementId::BuildFurnace),
            6 => Some(AdvancementId::SmeltIron),
            7 => Some(AdvancementId::GetDiamond),
            8 => Some(AdvancementId::MakeEnchantTable),
            9 => Some(AdvancementId::EnterNether),
            10 => Some(AdvancementId::EnterEnd),
            11 => Some(AdvancementId::DefeatDragon),
            12 => Some(AdvancementId::DefeatWither),
            13 => Some(AdvancementId::GetBeacon),
            14 => Some(AdvancementId::BrewPotion),
            15 => Some(AdvancementId::FullDiamondArmor),
            16 => Some(AdvancementId::EatGoldenApple),
            17 => Some(AdvancementId::MakeCake),
            18 => Some(AdvancementId::CoverDistance1000),
            19 => Some(AdvancementId::Breed),
            20 => Some(AdvancementId::CureZombie),
            21 => Some(AdvancementId::TradeVillager),
            22 => Some(AdvancementId::UseEnchantTable),
            23 => Some(AdvancementId::CatchFish),
            24 => Some(AdvancementId::MakeMap),
            25 => Some(AdvancementId::PlaceBanner),
            26 => Some(AdvancementId::GetTrident),
            27 => Some(AdvancementId::FindStronghold),
            28 => Some(AdvancementId::ActivatePortal),
            29 => Some(AdvancementId::KillCreeper),
            _ => None,
        }
    }
}

/// Static properties describing an advancement in the tree.
#[derive(Debug, Clone, Copy)]
pub struct AdvancementProperties {
    pub name: &'static str,
    pub description: &'static str,
    pub parent: Option<AdvancementId>,
}

/// The static properties of an advancement.
pub fn advancement_properties(id: AdvancementId) -> (p: AdvancementProperties)
    ensures
        p.parent == adv_parent(id),
        p.name@ == adv_name(id),
        p.description@ == adv_description(id),
{
    match id {
        AdvancementId::OpenInventory => AdvancementProperties {
            name: "Taking Inventory",
            description: "Open your inventory",
            parent: None,
        },
        AdvancementId::MineWood => AdvancementProperties {
            name: "Getting Wood",
            description: "Mine a log with your hand",
            parent: Some(AdvancementId::OpenInventory),
        },
        AdvancementId::CraftPlanks => AdvancementProperties {
            name: "Benchmarking",
            description: "Craft planks from a log",
            parent: Some(AdvancementId::MineWood),
        },
        AdvancementId::MakePickaxe => AdvancementProperties {
            name: "Time to Mine!",
            description: "Craft a wooden pickaxe",
            parent: Some(AdvancementId::CraftPlanks),
        },
        AdvancementId::MineCobblestone => AdvancementProperties {
            name: "Stone Age",
            description: "Mine cobblestone with a pickaxe",
            parent: Some(AdvancementId::MakePickaxe),
        },
        AdvancementId::BuildFurnace => AdvancementProperties {
            name: "Hot Topic",
            description: "Build a furnace",
            parent: Some(AdvancementId::MineCobblestone),
        },
        AdvancementId::SmeltIron => AdvancementProperties {
            name: "Acquire Hardware",
            description: "Smelt an iron ingot",
            parent: Some(AdvancementId::BuildFurnace),
        },
        AdvancementId::GetDiamond => AdvancementProperties {
            name: "Diamonds!",
            description: "Acquire a diamond",
            parent: Some(AdvancementId::SmeltIron),
        },
        AdvancementId::MakeEnchantTable => AdvancementProperties {
            name: "Enchanter",
            description: "Craft an enchanting table",
            parent: Some(AdvancementId::GetDiamond),
        },
        AdvancementId::EnterNether => AdvancementProperties {
            name: "We Need to Go Deeper",
            description: "Enter the Nether",
            parent: Some(AdvancementId::GetDiamond),
        },
        AdvancementId::EnterEnd => AdvancementProperties {
            name: "The End?",
            description: "Enter the End",
            parent: Some(AdvancementId::EnterNether),
        },
        AdvancementId::DefeatDragon => AdvancementProperties {
            name: "Free the End",
            description: "Defeat the Ender Dragon",
            parent: Some(AdvancementId::EnterEnd),
        },
        AdvancementId::DefeatWither => AdvancementProperties {
            name: "The Beginning?",
            description: "Defeat the Wither",
            parent: Some(AdvancementId::EnterNether),
        },
        AdvancementId::GetBeacon => AdvancementProperties {
            name: "Beaconator",
            description: "Create and power a full beacon",
            parent: Some(AdvancementId::DefeatWither),
        },
        AdvancementId::BrewPotion => AdvancementProperties {
            name: "Local Brewery",
            description: "Brew a potion",
            parent: Some(AdvancementId::EnterNether),
        },
        AdvancementId::FullDiamondArmor => AdvancementProperties {
            name: "Cover Me with Diamonds",
            description: "Wear a full set of diamond armor",
            parent: Some(AdvancementId::GetDiamond),
        },
        AdvancementId::EatGoldenApple => AdvancementProperties {
            name: "Overpowered",
            description: "Eat an enchanted golden apple",
            parent: Some(AdvancementId::SmeltIron),
        },
        AdvancementId::MakeCake => AdvancementProperties {
            name: "The Lie",
            description: "Craft a cake",
            parent: Some(AdvancementId::CraftPlanks),
        },
        AdvancementId::CoverDistance1000 => AdvancementProperties {
            name: "Adventuring Time",
            description: "Travel 1000 blocks from spawn",
            parent: Some(AdvancementId::OpenInventory),
        },
        AdvancementId::Breed => AdvancementProperties {
            name: "The Parrots and the Bats",
            description: "Breed two animals",
            parent: Some(AdvancementId::OpenInventory),
        },
        AdvancementId::CureZombie => AdvancementProperties {
            name: "Zombie Doctor",
            description: "Cure a zombie villager",
            parent: Some(AdvancementId::BrewPotion),
        },
        AdvancementId::TradeVillager => AdvancementProperties {
            name: "What a Deal!",
            description: "Trade with a villager",
            parent: Some(AdvancementId::OpenInventory),
        },
        AdvancementId::UseEnchantTable => AdvancementProperties {
            name: "Enchantment Master",
            description: "Enchant an item at an enchanting table",
            parent: Some(AdvancementId::MakeEnchantTable),
        },
        AdvancementId::CatchFish => AdvancementProperties {
            name: "Fishy Business",
            description: "Catch a fish with a fishing rod",
            parent: Some(AdvancementId::OpenInventory),
        },
        AdvancementId::MakeMap => AdvancementProperties {
            name: "Map Room",
            description: "Craft a map",
            parent: Some(AdvancementId::CraftPlanks),
        },
        AdvancementId::PlaceBanner => AdvancementProperties {
            name: "Volun-tier",
            description: "Place a banner",
            parent: Some(AdvancementId::CraftPlanks),
        },
        AdvancementId::GetTrident => AdvancementProperties {
            name: "A Throwaway Joke",
            description: "Obtain a trident",
            parent: Some(AdvancementId::OpenInventory),
        },
        AdvancementId::FindStronghold => AdvancementProperties {
            name: "Eye Spy",
            description: "Find a stronghold",
            parent: Some(AdvancementId::EnterNether),
        },
        AdvancementId::ActivatePortal => AdvancementProperties {
            name: "Into Fire",
            description: "Activate a Nether portal",
            parent: Some(AdvancementId::SmeltIron),
        },
        AdvancementId::KillCreeper => AdvancementProperties {
            name: "Monster Hunter",
            description: "Kill a creeper",
            parent: Some(AdvancementId::OpenInventory),
        },
    }
}

/// The registry of all advancements, in declaration order.
pub fn advancement_registry() -> (r: Vec<AdvancementProperties>)
    ensures
        r@.len() == ADVANCEMENT_COUNT,
        forall|i: int| 0 <= i < ADVANCEMENT_COUNT ==> {
            let id = adv_at(i as usize).unwrap();
            &&& (#[trigger] r@[i]).parent == adv_parent(id)
            &&& r@[i].name@ == adv_name(id)
            &&& r@[i].description@ == adv_description(id)
        },
{
    let mut r: Vec<AdvancementProperties> = Vec::new();
    let mut i: usize = 0;
    while i < ADVANCEMENT_COUNT
        invariant
            i <= ADVANCEMENT_COUNT,
            r@.len() == i,
            forall|j: int| 0 <= j < i ==> {
                let id = adv_at(j as usize).unwrap();
                &&& (#[trigger] r@[j]).parent == adv_parent(id)
                &&& r@[j].name@ == adv_name(id)
                &&& r@[j].description@ == adv_description(id)
            },
        decreases ADVANCEMENT_COUNT - i,
    {
        let id = AdvancementId::from_index(i).unwrap();
        r.push(advancement_properties(id));
        i = i + 1;
    }
    r
}

/// Events that can trigger advancement progress.
#[derive(Debug, Clone, Copy, PartialEq, Eq, Structural)]
pub enum AdvancementTrigger {
    /// A block was mined (block id as `u16`).
    BlockMined(u16),
    /// An item was crafted (item id as `u16`).
    ItemCrafted(u16),
    /// A mob was killed (mob kind discriminant as `u8`).
    MobKilled(u8),
    /// Player entered a dimension (dimension id as `u8`).
    DimensionEntered(u8),
    /// An item was used/consumed (item id as `u16`).
    ItemUsed(u16),
    /// An item was obtained (item id as `u16`).
    ItemObtained(u16),
    /// Player traveled a distance (cumulative, in blocks).
    DistanceTraveled(u32),
}

pub const BLOCK_OAK_LOG: u16 = 8;
pub const BLOCK_COBBLESTONE: u16 = 11;
pub const BLOCK_DIAMOND_ORE: u16 = 15;

pub const ITEM_OAK_PLANKS: u16 = 10;
pub const ITEM_WOODEN_PICKAXE: u16 = 100;
pub const ITEM_FURNACE: u16 = 19;
pub const ITEM_IRON_INGOT: u16 = 84;
pub const ITEM_DIAMOND: u16 = 87;
pub const ITEM_ENCHANTING_TABLE: u16 = 101;
pub const ITEM_DIAMOND_ARMOR_SET: u16 = 102;
pub const ITEM_GOLDEN_APPLE: u16 = 103;
pub const ITEM_CAKE: u16 = 104;
pub const ITEM_POTION: u16 = 105;
pub const ITEM_BEACON: u16 = 106;
pub const ITEM_MAP: u16 = 107;
pub const ITEM_BANNER: u16 = 108;
pub const ITEM_TRIDENT: u16 = 109;
pub const ITEM_FISH: u16 = 110;

/// Mob kind discriminant of creepers.
pub const MOB_CREEPER: u8 = 2;

/// Dimension id of the Nether.
pub const DIM_NETHER: u8 = 1;

/// Dimension id of the End.
pub const DIM_END: u8 = 2;

/// The advancement a trigger can unlock, if any.
pub open spec fn trigger_target(t: AdvancementTrigger) -> Option<AdvancementId> {
    match t {
        AdvancementTrigger::BlockMined(b) =>
            if b == BLOCK_OAK_LOG { Some(AdvancementId::MineWood) }
            else if b == BLOCK_COBBLESTONE { Some(AdvancementId::MineCobblestone) }
            else if b == BLOCK_DIAMOND_ORE { Some(AdvancementId::GetDiamond) }
            else { None },
        AdvancementTrigger::ItemCrafted(i) =>
            if i == ITEM_OAK_PLANKS { Some(AdvancementId::CraftPlanks) }
            else if i == ITEM_WOODEN_PICKAXE { Some(AdvancementId::MakePickaxe) }
            else if i == ITEM_FURNACE { Some(AdvancementId::BuildFurnace) }
            else if i == ITEM_ENCHANTING_TABLE { Some(AdvancementId::MakeEnchantTable) }
            else if i == ITEM_CAKE { Some(AdvancementId::MakeCake) }
            else if i == ITEM_MAP { Some(AdvancementId::MakeMap) }
            else { None },
        AdvancementTrigger::MobKilled(m) =>
            if m == MOB_CREEPER { Some(AdvancementId::KillCreeper) } else { None },
        AdvancementTrigger::DimensionEntered(d) =>
            if d == DIM_NETHER { Some(AdvancementId::EnterNether) }
            else if d == DIM_END { Some(AdvancementId::EnterEnd) }
            else { None },
        AdvancementTrigger::ItemUsed(i) =>
            if i == ITEM_GOLDEN_APPLE { Some(AdvancementId::EatGoldenApple) }
            else if i == ITEM_POTION { Some(AdvancementId::BrewPotion) }
            else if i == ITEM_BANNER { Some(AdvancementId::PlaceBanner) }
            else { None },
        AdvancementTrigger::ItemObtained(i) =>
            if i == ITEM_IRON_INGOT { Some(AdvancementId::SmeltIron) }
            else if i == ITEM_DIAMOND { Some(AdvancementId::GetDiamond) }
            else if i == ITEM_DIAMOND_ARMOR_SET { Some(AdvancementId::FullDiamondArmor) }
            else if i == ITEM_BEACON { Some(AdvancementId::GetBeacon) }
            else if i == ITEM_TRIDENT { Some(AdvancementId::GetTrident) }
            else if i == ITEM_FISH { Some(AdvancementId::CatchFish) }
            else { None },
        AdvancementTrigger::DistanceTraveled(d) =>
            if d >= 1000 { Some(AdvancementId::CoverDistance1000) } else { None },
    }
}

/// Map a single trigger to the advancement(s) it may unlock.
pub fn match_trigger(trigger: &AdvancementTrigger) -> (ids: Vec<AdvancementId>)
    ensures
        ids@ == (match trigger_target(*trigger) {
            Some(id) => seq![id],
            None => Seq::<AdvancementId>::empty(),
        }),
{
    let target: Option<AdvancementId> = match *trigger {
        AdvancementTrigger::BlockMined(b) =>
            if b == BLOCK_OAK_LOG { Some(AdvancementId::MineWood) }
            else if b == BLOCK_COBBLESTONE { Some(AdvancementId::MineCobblestone) }
            else if b == BLOCK_DIAMOND_ORE { Some(AdvancementId::GetDiamond) }
            else { None },
        AdvancementTrigger::ItemCrafted(i) =>
            if i == ITEM_OAK_PLANKS { Some(AdvancementId::CraftPlanks) }
            else if i == ITEM_WOODEN_PICKAXE { Some(AdvancementId::MakePickaxe) }
            else if i == ITEM_FURNACE { Some(AdvancementId::BuildFurnace) }
            else if i == ITEM_ENCHANTING_TABLE { Some(AdvancementId::MakeEnchantTable) }
            else if i == ITEM_CAKE { Some(AdvancementId::MakeCake) }
            else if i == ITEM_MAP { Some(AdvancementId::MakeMap) }
            else { None },
        AdvancementTrigger::MobKilled(m) =>
            if m == MOB_CREEPER { Some(AdvancementId::KillCreeper) } else { None },
        AdvancementTrigger::DimensionEntered(d) =>
            if d == DIM_NETHER { Some(AdvancementId::EnterNether) }
            else if d == DIM_END { Some(AdvancementId::EnterEnd) }
            else { None },
        AdvancementTrigger::ItemUsed(i) =>
            if i == ITEM_GOLDEN_APPLE { Some(AdvancementId::EatGoldenApple) }
            else if i == ITEM_POTION { Some(AdvancementId::BrewPotion) }
            else if i == ITEM_BANNER { Some(AdvancementId::PlaceBanner) }
            else { None },
        AdvancementTrigger::ItemObtained(i) =>
            if i == ITEM_IRON_INGOT { Some(AdvancementId::SmeltIron) }
            else if i == ITEM_DIAMOND { Some(AdvancementId::GetDiamond) }
            else if i == ITEM_DIAMOND_ARMOR_SET { Some(AdvancementId::FullDiamondArmor) }
            else if i == ITEM_BEACON { Some(AdvancementId::GetBeacon) }
            else if i == ITEM_TRIDENT { Some(AdvancementId::GetTrident) }
            else if i == ITEM_FISH { Some(AdvancementId::CatchFish) }
            else { None },
        AdvancementTrigger::DistanceTraveled(d) =>
            if d >= 1000 { Some(AdvancementId::CoverDistance1000) } else { None },
    };
    let mut ids: Vec<AdvancementId> = Vec::new();
    match target {
        Some(id) => ids.push(id),
        None => {},
    }
    assert(ids@ =~= (match trigger_target(*trigger) {
        Some(id) => seq![id],
        None => Seq::<AdvancementId>::empty(),
    }));
    ids
}

/// The set of unlocked advancements and the newly unlocked list after
/// processing the first `k` triggers in order, starting from `unlocked`.
pub open spec fn process_triggers(unlocked: Set<AdvancementId>, triggers: Seq<AdvancementTrigger>, k: int) -> (Set<AdvancementId>, Seq<AdvancementId>)
    decreases k,
{
    if k <= 0 {
        (unlocked, seq![])
    } else {
        let (set, newly) = process_triggers(unlocked, triggers, k - 1);
        match trigger_target(triggers[k - 1]) {
            Some(id) => if !set.contains(id) && (match adv_parent(id) {
                None => true,
                Some(p) => set.contains(p),
            }) {
                (set.insert(id), newly.push(id))
            } else {
                (set, newly)
            },
            None => (set, newly),
        }
    }
}

/// Whether every unlocked advancement's parent is unlocked too.
pub open spec fn parents_closed(unlocked: Set<AdvancementId>) -> bool {
    forall|id: AdvancementId| #[trigger] unlocked.contains(id) ==> match adv_parent(id) {
        None => true,
        Some(p) => unlocked.contains(p),
    }
}

/// Whether some trigger unlocks `a`.
pub open spec fn has_trigger(a: AdvancementId) -> bool {
    exists|t: AdvancementTrigger| #[trigger] trigger_target(t) == Some(a)
}

/// The advancements no trigger unlocks: the root, which is opened
/// directly, and those the game grants on events outside the trigger list
/// (defeating the dragon or the Wither, breeding, curing, trading,
/// enchanting, finding a stronghold, lighting a portal).
pub open spec fn granted_without_trigger(a: AdvancementId) -> bool {
    match a {
        AdvancementId::OpenInventory | AdvancementId::DefeatDragon | AdvancementId::DefeatWither
        | AdvancementId::Breed | AdvancementId::CureZombie | AdvancementId::TradeVillager
        | AdvancementId::UseEnchantTable | AdvancementId::FindStronghold | AdvancementId::ActivatePortal => true,
        _ => false,
    }
}

/// One trigger for each advancement the triggers can unlock.
proof fn lemma_trigger_witnesses()
    ensures
        trigger_target(AdvancementTrigger::BlockMined(BLOCK_OAK_LOG)) == Some(AdvancementId::MineWood),
        trigger_target(AdvancementTrigger::BlockMined(BLOCK_COBBLESTONE)) == Some(AdvancementId::MineCobblestone),
        trigger_target(AdvancementTrigger::BlockMined(BLOCK_DIAMOND_ORE)) == Some(AdvancementId::GetDiamond),
        trigger_target(AdvancementTrigger::ItemCrafted(ITEM_OAK_PLANKS)) == Some(AdvancementId::CraftPlanks),
        trigger_target(AdvancementTrigger::ItemCrafted(ITEM_WOODEN_PICKAXE)) == Some(AdvancementId::MakePickaxe),
        trigger_target(AdvancementTrigger::ItemCrafted(ITEM_FURNACE)) == Some(AdvancementId::BuildFurnace),
        trigger_target(AdvancementTrigger::ItemCrafted(ITEM_ENCHANTING_TABLE)) == Some(AdvancementId::MakeEnchantTable),
        trigger_target(AdvancementTrigger::ItemCrafted(ITEM_CAKE)) == Some(AdvancementId::MakeCake),
        trigger_target(AdvancementTrigger::ItemCrafted(ITEM_MAP)) == Some(AdvancementId::MakeMap),
        trigger_target(AdvancementTrigger::MobKilled(MOB_CREEPER)) == Some(AdvancementId::KillCreeper),
        trigger_target(AdvancementTrigger::DimensionEntered(DIM_NETHER)) == Some(AdvancementId::EnterNether),
        trigger_target(AdvancementTrigger::DimensionEntered(DIM_END)) == Some(AdvancementId::EnterEnd),
        trigger_target(AdvancementTrigger::ItemUsed(ITEM_GOLDEN_APPLE)) == Some(AdvancementId::EatGoldenApple),
        trigger_target(AdvancementTrigger::ItemUsed(ITEM_POTION)) == Some(AdvancementId::BrewPotion),
        trigger_target(AdvancementTrigger::ItemUsed(ITEM_BANNER)) == Some(AdvancementId::PlaceBanner),
        trigger_target(AdvancementTrigger::ItemObtained(ITEM_IRON_INGOT)) == Some(AdvancementId::SmeltIron),
        trigger_target(AdvancementTrigger::ItemObtained(ITEM_DIAMOND_ARMOR_SET)) == Some(AdvancementId::FullDiamondArmor),
        trigger_target(AdvancementTrigger::ItemObtained(ITEM_BEACON)) == Some(AdvancementId::GetBeacon),
        trigger_target(AdvancementTrigger::ItemObtained(ITEM_TRIDENT)) == Some(AdvancementId::GetTrident),
        trigger_target(AdvancementTrigger::ItemObtained(ITEM_FISH)) == Some(AdvancementId::CatchFish),
        trigger_target(AdvancementTrigger::DistanceTraveled(1000)) == Some(AdvancementId::CoverDistance1000),
{
}

/// Every advancement except those the game grants without a trigger is
/// unlocked by some trigger, and none of those is.
pub proof fn lemma_trigger_coverage(a: AdvancementId)
    ensures
        has_trigger(a) <==> !granted_without_trigger(a),
{
    lemma_trigger_witnesses();
    if has_trigger(a) {
        let t = choose|t: AdvancementTrigger| #[trigger] trigger_target(t) == Some(a);
        assert(trigger_target(t) == Some(a));
    }
}

/// Every advancement a trigger unlocks can be reached by triggers from the
/// root: its parent is the root, an advancement some trigger unlocks, or
/// the Wither's defeat, which the game grants itself.
pub proof fn lemma_triggered_parent_reachable(t: AdvancementTrigger)
    ensures
        trigger_target(t) matches Some(a) ==> (match adv_parent(a) {
            None => true,
            Some(p) => p == AdvancementId::OpenInventory || p == AdvancementId::DefeatWither || has_trigger(p),
        }),
{
    lemma_trigger_witnesses();
}

/// Processing triggers never forgets an advancement, never unlocks one
/// twice, reports exactly the advancements it adds, and keeps the tree
/// closed: when every unlocked advancement's parent was unlocked before,
/// the same holds afterwards.
pub proof fn lemma_process_triggers(unlocked: Set<AdvancementId>, triggers: Seq<AdvancementTrigger>, k: int)
    requires
        0 <= k <= triggers.len(),
    ensures
        ({
            let (set, newly) = process_triggers(unlocked, triggers, k);
            &&& forall|id: AdvancementId| #[trigger] set.contains(id) <==> (unlocked.contains(id) || newly.contains(id))
            &&& forall|i: int| 0 <= i < newly.len() ==> !unlocked.contains(#[trigger] newly[i])
            &&& newly.no_duplicates()
            &&& parents_closed(unlocked) ==> parents_closed(set)
        }),
    decreases k,
{
    if k > 0 {
        lemma_process_triggers(unlocked, triggers, k - 1);
        let (set, newly) = process_triggers(unlocked, triggers, k - 1);
        match trigger_target(triggers[k - 1]) {
            Some(id) => {
                if !set.contains(id) && (match adv_parent(id) {
                    None => true,
                    Some(p) => set.contains(p),
                }) {
                    let n2 = newly.push(id);
                    assert forall|x: AdvancementId| #[trigger] set.insert(id).contains(x) <==> (unlocked.contains(x) || n2.contains(x)) by {
                        if n2.contains(x) && x != id {
                            let j = choose|j: int| 0 <= j < n2.len() && n2[j] == x;
                            assert(newly[j] == x);
                        }
                        if newly.contains(x) {
                            let j = choose|j: int| 0 <= j < newly.len() && newly[j] == x;
                            assert(n2[j] == x);
                        }
                        if x == id {
                            assert(n2[newly.len() as int] == id);
                        }
                    }
                    assert forall|i: int| 0 <= i < n2.len() implies !unlocked.contains(#[trigger] n2[i]) by {
                        if i < newly.len() {
                            assert(n2[i] == newly[i]);
                        }
                    }
                    assert forall|a: int, b: int| 0 <= a < n2.len() && 0 <= b < n2.len() && a != b implies n2[a] != n2[b] by {
                        if a < newly.len() && b < newly.len() {
                            assert(n2[a] == newly[a] && n2[b] == newly[b]);
                        } else if a < newly.len() {
                            assert(newly.contains(n2[a]));
                        } else {
                            assert(newly.contains(n2[b]));
                        }
                    }
                }
            },
            None => {},
        }
    }
}

/// Per-player tracker that records unlocked advancements and pending triggers.
#[derive(Debug, Clone)]
pub struct AdvancementTracker {
    unlocked: Vec<bool>,
    pending_triggers: Vec<AdvancementTrigger>,
}

impl AdvancementTracker {
    /// The tracker's internal invariant: one flag per advancement.
    pub closed spec fn wf(&self) -> bool {
        self.unlocked@.len() == ADVANCEMENT_COUNT
    }

    /// The set of unlocked advancements.
    pub closed spec fn unlocked_set(&self) -> Set<AdvancementId> {
        Set::new(|id: AdvancementId| self.unlocked@[adv_index(id)])
    }

    /// The queued triggers, oldest first.
    pub closed spec fn pending(&self) -> Seq<AdvancementTrigger> {
        self.pending_triggers@
    }

    /// Number of unlocked advancements among the first `n` registry positions.
    pub closed spec fn count_upto(&self, n: int) -> nat
        decreases n,
    {
        if n <= 0 {
            0
        } else {
            self.count_upto(n - 1) + if self.unlocked@[n - 1] { 1nat } else { 0nat }
        }
    }

    /// The unlocked advancements among the first `n` registry positions.
    closed spec fn unlocked_upto(&self, n: int) -> Set<AdvancementId> {
        Set::new(|id: AdvancementId| adv_index(id) < n && self.unlocked@[adv_index(id)])
    }

    proof fn lemma_count_upto(&self, n: int)
        requires
            self.wf(),
            0 <= n <= ADVANCEMENT_COUNT,
        ensures
            self.unlocked_upto(n).finite(),
            self.count_upto(n) == self.unlocked_upto(n).len(),
        decreases n,
    {
        if n == 0 {
            assert(self.unlocked_upto(0) =~= Set::<AdvancementId>::empty());
        } else {
            self.lemma_count_upto(n - 1);
            let id = adv_at((n - 1) as usize).unwrap();
            assert(adv_index(id) == n - 1);
            assert forall|a: AdvancementId| adv_index(a) == n - 1 implies a == id by {}
            if self.unlocked@[n - 1] {
                assert(self.unlocked_upto(n) =~= self.unlocked_upto(n - 1).insert(id));
            } else {
                assert(self.unlocked_upto(n) =~= self.unlocked_upto(n - 1));
            }
        }
    }

    proof fn lemma_count_is_len(&self)
        requires
            self.wf(),
        ensures
            self.count_upto(ADVANCEMENT_COUNT as int) == self.unlocked_set().len(),
    {
        self.lemma_count_upto(ADVANCEMENT_COUNT as int);
        assert forall|a: AdvancementId| 0 <= #[trigger] adv_index(a) < 30 by {}
        assert(self.unlocked_upto(ADVANCEMENT_COUNT as int) =~= self.unlocked_set());
    }

    pub fn new() -> (t: Self)
        ensures
            t.wf(),
            t.unlocked_set() == Set::<AdvancementId>::empty(),
            t.pending() == Seq::<AdvancementTrigger>::empty(),
    {
        let mut unlocked: Vec<bool> = Vec::new();
        let mut i: usize = 0;
        while i < ADVANCEMENT_COUNT
            invariant
                i <= ADVANCEMENT_COUNT,
                unlocked@.len() == i,
                forall|j: int| 0 <= j < i ==> !unlocked@[j],
            decreases ADVANCEMENT_COUNT - i,
        {
            unlocked.push(false);
            i = i + 1;
        }
        let t = Self { unlocked, pending_triggers: Vec::new() };
        assert(t.unlocked_set() =~= Set::<AdvancementId>::empty());
        t
    }

    /// Queue a trigger event for later processing.
    pub fn push_trigger(&mut self, trigger: AdvancementTrigger)
        requires
            old(self).wf(),
        ensures
            final(self).wf(),
            final(self).unlocked_set() == old(self).unlocked_set(),
            final(self).pending() == old(self).pending().push(trigger),
    {
        self.pending_triggers.push(trigger);
    }

    /// Record an advancement as unlocked directly, without a trigger and
    /// without checking its parent.
    pub fn mark_unlocked(&mut self, id: AdvancementId)
        requires
            old(self).wf(),
        ensures
            final(self).wf(),
            final(self).unlocked_set() == old(self).unlocked_set().insert(id),
            final(self).pending() == old(self).pending(),
    {
        let i = id.index();
        self.unlocked.set(i, true);
        proof {
            assert forall|a: AdvancementId| adv_index(a) == adv_index(id) implies a == id by {}
        }
        assert(self.unlocked_set() =~= old(self).unlocked_set().insert(id));
    }

    /// Process all pending triggers, check conditions, unlock new
    /// advancements, and return the list of newly unlocked IDs.
    ///
    /// An advancement is unlocked only if its parent is already unlocked
    /// (or it has no parent).
    pub fn check_triggers(&mut self) -> (newly: Vec<AdvancementId>)
        requires
            old(self).wf(),
        ensures
            final(self).wf(),
            (final(self).unlocked_set(), newly@)
                == process_triggers(old(self).unlocked_set(), old(self).pending(), old(self).pending().len() as int),
            final(self).pending() == Seq::<AdvancementTrigger>::empty(),
    {
        let mut triggers: Vec<AdvancementTrigger> = Vec::new();
        std::mem::swap(&mut triggers, &mut self.pending_triggers);
        let mut newly_unlocked: Vec<AdvancementId> = Vec::new();
        let ghost start = old(self).unlocked_set();
        let mut t: usize = 0;
        while t < triggers.len()
            invariant
                t <= triggers.len(),
                self.wf(),
                self.pending_triggers@ == Seq::<AdvancementTrigger>::empty(),
                triggers@ == old(self).pending(),
                start == old(self).unlocked_set(),
                (self.unlocked_set(), newly_unlocked@) == process_triggers(start, triggers@, t as int),
            decreases triggers.len() - t,
        {
            let candidates = match_trigger(&triggers[t]);
            let mut c: usize = 0;
            while c < candidates.len()
                invariant
                    t < triggers.len(),
                    c <= candidates.len(),
                    candidates@.len() <= 1,
                    self.wf(),
                    self.pending_triggers@ == Seq::<AdvancementTrigger>::empty(),
                    triggers@ == old(self).pending(),
                    start == old(self).unlocked_set(),
                    candidates@ == (match trigger_target(triggers@[t as int]) {
                        Some(id) => seq![id],
                        None => Seq::<AdvancementId>::empty(),
                    }),
                    c == 0 ==> (self.unlocked_set(), newly_unlocked@) == process_triggers(start, triggers@, t as int),
                    c == 1 ==> (self.unlocked_set(), newly_unlocked@) == process_triggers(start, triggers@, t + 1),
                decreases candidates.len() - c,
            {
                let id = candidates[c];
                let already = self.unlocked[id.index()];
                if !already {
                    let parent_ok = match advancement_properties(id).parent {
                        None => true,
                        Some(parent) => self.unlocked[parent.index()],
                    };
                    if parent_ok {
                        let ghost before = self.unlocked_set();
                        self.unlocked.set(id.index(), true);
                        proof {
                            assert forall|a: AdvancementId| adv_index(a) == adv_index(id) implies a == id by {}
                        }
                        assert(self.unlocked_set() =~= before.insert(id));
                        newly_unlocked.push(id);
                    }
                }
                c = c + 1;
            }
            t = t + 1;
        }
        newly_unlocked
    }

    /// Whether a specific advancement has been unlocked.
    pub fn is_unlocked(&self, id: AdvancementId) -> (b: bool)
        requires
            self.wf(),
        ensures
            b == self.unlocked_set().contains(id),
    {
        self.unlocked[id.index()]
    }

    /// How many advancements the player has unlocked.
    pub fn unlock_count(&self) -> (n: usize)
        requires
            self.wf(),
        ensures
            n == self.unlocked_set().len(),
    {
        let mut n: usize = 0;
        let mut i: usize = 0;
        while i < ADVANCEMENT_COUNT
            invariant
                i <= ADVANCEMENT_COUNT,
                self.wf(),
                n == self.count_upto(i as int),
                n <= i,
            decreases ADVANCEMENT_COUNT - i,
        {
            if self.unlocked[i] {
                n = n + 1;
            }
            i = i + 1;
        }
        proof {
            self.lemma_count_is_len();
        }
        n
    }

    /// Total number of advancements in the game.
    pub fn total_count() -> (n: usize)
        ensures
            n == ADVANCEMENT_COUNT,
    {
        ADVANCEMENT_COUNT
    }
}

} // verus!
