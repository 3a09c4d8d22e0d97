//! Entity rules for a block-world game: mobs, items, loot and progression.
pub mod advancement;
pub mod ai;
pub mod allay_ai;
pub mod anvil_damage;
pub mod armor;
pub mod bee;
pub mod behavior;
pub mod block;
pub mod boat;
pub mod boss;
pub mod breeding;
pub mod breeze;
pub mod camel;
pub mod cat_gift;
pub mod chorus_plant;
pub mod combat;
pub mod component;
pub mod crossbow;
pub mod decoration;
pub mod depth_strider;
pub mod difficulty;
pub mod difficulty_scaling;
pub mod display_name;
pub mod dragon_breath;
pub mod drops;
pub mod drowning;
pub mod effects;
pub mod enchant_visual;
pub mod entity;
pub mod equipment;
pub mod experience;
pub mod fall_damage;
pub mod fishing;
pub mod fishing_rod;
pub mod food;
pub mod fox;
pub mod frost_walker;
pub mod goat;
pub mod gamemode;
pub mod golem;
pub mod honey_block;
pub mod horse;
pub mod horse_armor;
pub mod leash;
pub mod loot;
pub mod loot_blocks;
pub mod loot_mobs;
pub mod mending;
pub mod mob_equipment;
pub mod movement_effects;
pub mod object_pool;
pub mod ominous;
pub mod painting;
pub mod panda;
pub mod pathfinding;
pub mod phantom;
pub mod projectile;
pub mod raid;
pub mod scaffolding;

pub use advancement::{AdvancementId, AdvancementProperties, AdvancementTracker, AdvancementTrigger};
pub use ai::AiSystem;
pub use armor::{ArmorMaterial, ArmorPiece, ArmorSet, ArmorSlot};
pub use combat::DamageType;
pub use crossbow::{LoadedProjectile, piercing_remaining_targets};
pub use component::{ComponentStore, MobComponent, MobKind};
pub use difficulty::Difficulty;
pub use drops::{DropSystem, spawn_block_drops, spawn_mob_drops};
pub use effects::{ActiveEffect, EffectManager, StatusEffect};
pub use entity::{EntityId, EntityManager};
pub use equipment::ElytraState;
pub use experience::{ExperienceComponent, add_xp, remove_xp_for_enchanting, total_xp_for_level, xp_for_next_level, xp_from_block, xp_from_mob};
pub use fishing::{FishType, FishingAction, FishingLoot, JunkType, TreasureType};
pub use food::{can_eat, food_count};
pub use loot::{LootCondition, LootContext, LootEntry, LootPool, LootTable};
pub use loot_blocks::block_loot_table;
pub use loot_mobs::mob_loot_table;
pub use pathfinding::{AStarResult, find_path};
pub use projectile::{ProjectileEvent, ProjectileType};
pub use raid::{RaidEvent, RaidWave, default_raid_waves};
pub use boat::BoatType;
pub use decoration::{Banner, BannerPattern, choose_painting};
pub use painting::{painting_name, painting_size, paintings_fitting, total_paintings};
pub use golem::{GolemEffect, check_iron_golem_pattern, check_snow_golem_pattern};
