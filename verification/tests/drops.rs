use mc_entity::block::BlockId;
use mc_entity::drops::{DropSystem, spawn_block_drops, spawn_mob_drops, COAL, DIAMOND, RAW_BEEF, RAW_CHICKEN, RAW_PORKCHOP, ROTTEN_FLESH, WOOL};

const COBBLESTONE: u16 = BlockId::Cobblestone as u16;
const IRON_ORE: u16 = BlockId::IronOre as u16;
const GOLD_ORE: u16 = BlockId::GoldOre as u16;
const DIRT: u16 = BlockId::Dirt as u16;
const MOB_ZOMBIE: u8 = 0;
const MOB_PIG: u8 = 4;
const MOB_COW: u8 = 5;
const MOB_SHEEP: u8 = 6;
const MOB_CHICKEN: u8 = 7;

#[test]
fn block_drop_stone_gives_cobblestone() {
    let drops = spawn_block_drops(BlockId::Stone);
    assert_eq!(drops.len(), 1);
    assert_eq!(drops[0], (COBBLESTONE, 1));
}

#[test]
fn block_drop_diamond_ore_gives_diamond() {
    let drops = spawn_block_drops(BlockId::DiamondOre);
    assert_eq!(drops.len(), 1);
    assert_eq!(drops[0], (DIAMOND, 1));
}

#[test]
fn block_drop_coal_ore_gives_coal() {
    let drops = spawn_block_drops(BlockId::CoalOre);
    assert_eq!(drops.len(), 1);
    assert_eq!(drops[0], (COAL, 1));
}

#[test]
fn block_drop_iron_ore_gives_iron_ore() {
    let drops = spawn_block_drops(BlockId::IronOre);
    assert_eq!(drops.len(), 1);
    assert_eq!(drops[0], (IRON_ORE, 1));
}

#[test]
fn block_drop_gold_ore_gives_gold_ore() {
    let drops = spawn_block_drops(BlockId::GoldOre);
    assert_eq!(drops.len(), 1);
    assert_eq!(drops[0], (GOLD_ORE, 1));
}

#[test]
fn block_drop_grass_gives_dirt() {
    let drops = spawn_block_drops(BlockId::GrassBlock);
    assert_eq!(drops.len(), 1);
    assert_eq!(drops[0], (DIRT, 1));
}

#[test]
fn block_drop_air_gives_nothing() {
    let drops = spawn_block_drops(BlockId::Air);
    assert!(drops.is_empty());
}

#[test]
fn block_drop_self_for_generic_block() {
    let drops = spawn_block_drops(BlockId::OakPlanks);
    assert_eq!(drops.len(), 1);
    assert_eq!(drops[0], (BlockId::OakPlanks as u16, 1));
}

#[test]
fn mob_drop_zombie_non_empty_or_zero() {
    // Run multiple times to exercise randomness
    let mut found_nonzero = false;
    for _ in 0..100 {
        let drops = spawn_mob_drops(MOB_ZOMBIE);
        if !drops.is_empty() {
            found_nonzero = true;
            assert_eq!(drops[0].0, ROTTEN_FLESH);
            assert!(drops[0].1 >= 1 && drops[0].1 <= 2);
        }
    }
    // With 100 tries and 2/3 chance of nonzero, this should pass
    assert!(found_nonzero, "zombie should drop rotten flesh sometimes");
}

#[test]
fn mob_drop_pig_always_drops() {
    for _ in 0..20 {
        let drops = spawn_mob_drops(MOB_PIG);
        assert!(!drops.is_empty(), "pig should always drop raw porkchop");
        assert_eq!(drops[0].0, RAW_PORKCHOP);
        assert!(drops[0].1 >= 1 && drops[0].1 <= 3);
    }
}

#[test]
fn mob_drop_cow_always_drops_beef() {
    for _ in 0..20 {
        let drops = spawn_mob_drops(MOB_COW);
        assert!(!drops.is_empty());
        // First item should be raw beef
        assert_eq!(drops[0].0, RAW_BEEF);
        assert!(drops[0].1 >= 1 && drops[0].1 <= 3);
    }
}

#[test]
fn mob_drop_sheep_always_drops_wool() {
    let drops = spawn_mob_drops(MOB_SHEEP);
    assert_eq!(drops.len(), 1);
    assert_eq!(drops[0], (WOOL, 1));
}

#[test]
fn mob_drop_chicken_always_drops_chicken() {
    for _ in 0..20 {
        let drops = spawn_mob_drops(MOB_CHICKEN);
        assert!(!drops.is_empty());
        assert_eq!(drops[0].0, RAW_CHICKEN);
        assert_eq!(drops[0].1, 1);
    }
}

#[test]
fn mob_drop_unknown_kind_returns_empty() {
    let drops = spawn_mob_drops(255);
    assert!(drops.is_empty());
}

/// The proximity matrix of drops lying on the x axis.
fn near_matrix(xs: &[f32], range: f32) -> Vec<Vec<bool>> {
    xs.iter().map(|a| xs.iter().map(|b| (a - b).abs() <= range).collect()).collect()
}

#[test]
fn merge_combines_same_items() {
    let items = vec![(10u16, 3u8), (10, 5)];
    let near = near_matrix(&[0.0, 0.5], 1.0);
    let merged = DropSystem::merge_nearby_drops(&items, &near);
    assert_eq!(merged.len(), 1);
    assert_eq!(merged[0].1, 8);
}

#[test]
fn merge_does_not_combine_different_items() {
    let items = vec![(10u16, 3u8), (20, 5)];
    let near = near_matrix(&[0.0, 0.5], 1.0);
    let merged = DropSystem::merge_nearby_drops(&items, &near);
    assert_eq!(merged.len(), 2);
}

#[test]
fn merge_does_not_combine_distant_items() {
    let items = vec![(10u16, 3u8), (10, 5)];
    let near = near_matrix(&[0.0, 10.0], 1.0);
    let merged = DropSystem::merge_nearby_drops(&items, &near);
    assert_eq!(merged.len(), 2);
}

#[test]
fn merge_saturates_at_255() {
    let items = vec![(10u16, 200u8), (10, 100)];
    let near = near_matrix(&[0.0, 0.5], 1.0);
    let merged = DropSystem::merge_nearby_drops(&items, &near);
    assert_eq!(merged, vec![(0, 255)]);
}

#[test]
fn merge_keeps_absorbed_drop_from_absorbing() {
    // Drop 1 is absorbed by drop 0; drop 2 lies near drop 1 only, so it stays.
    let items = vec![(7u16, 1u8), (7, 2), (7, 4)];
    let near = near_matrix(&[0.0, 1.0, 2.0], 1.0);
    let merged = DropSystem::merge_nearby_drops(&items, &near);
    assert_eq!(merged, vec![(0, 3), (2, 4)]);
}

#[test]
fn merge_swap_removes_from_the_back() {
    // Drops 0 and 2 absorb drops 1 and 3; removing 3 then 1 moves drop 2 into slot 1.
    let items = vec![(1u16, 1u8), (1, 1), (2, 1), (2, 1), (3, 1)];
    let near = near_matrix(&[0.0, 0.5, 10.0, 10.5, 20.0], 1.0);
    let merged = DropSystem::merge_nearby_drops(&items, &near);
    assert_eq!(merged, vec![(0, 2), (4, 1), (2, 2)]);
}

#[test]
fn merge_keeps_every_item_below_the_cap() {
    let items = vec![(1u16, 3u8), (2, 4), (1, 5), (1, 6), (2, 7), (3, 1), (1, 2)];
    let near = near_matrix(&[0.0, 0.3, 0.6, 5.0, 0.9, 0.1, 5.5], 1.0);
    let merged = DropSystem::merge_nearby_drops(&items, &near);
    let before: u32 = items.iter().map(|&(_, c)| u32::from(c)).sum();
    let after: u32 = merged.iter().map(|&(_, c)| u32::from(c)).sum();
    assert_eq!(before, after);
    // Drops 0 and 3 stay apart: 3 lies 5 blocks away and absorbs drop 6.
    assert_eq!(merged, vec![(0, 8), (1, 11), (5, 1), (3, 8)]);
}
