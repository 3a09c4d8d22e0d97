use mc_entity::block::BlockId;
use mc_entity::loot::LootContext;
use mc_entity::loot_blocks::{block_loot_table, DIAMOND, LAPIS};

const COBBLESTONE: u16 = BlockId::Cobblestone as u16;

fn default_ctx(seed: u64) -> LootContext {
    LootContext {
        killed_by_player: true,
        looting_level: 0,
        silk_touch: false,
        fortune_level: 0,
        seed,
    }
}

#[test]
fn silk_touch_drops_ore_block_instead_of_item() {
    let table = block_loot_table(BlockId::DiamondOre as u16);

    // With silk touch, should drop the ore block.
    let ctx = LootContext {
        killed_by_player: true,
        looting_level: 0,
        silk_touch: true,
        fortune_level: 0,
        seed: 42,
    };
    let drops = table.roll_block(&ctx);
    assert_eq!(drops.len(), 1);
    assert_eq!(drops[0].0, BlockId::DiamondOre as u16);
    assert_eq!(drops[0].1, 1);
}

#[test]
fn no_silk_touch_drops_diamond_from_diamond_ore() {
    let table = block_loot_table(BlockId::DiamondOre as u16);

    let ctx = LootContext {
        killed_by_player: true,
        looting_level: 0,
        silk_touch: false,
        fortune_level: 0,
        seed: 42,
    };
    let drops = table.roll_block(&ctx);
    assert_eq!(drops.len(), 1);
    assert_eq!(drops[0].0, DIAMOND);
}

#[test]
fn silk_touch_glass_drops_glass() {
    let table = block_loot_table(BlockId::Glass as u16);

    let ctx_silk = LootContext {
        killed_by_player: true,
        looting_level: 0,
        silk_touch: true,
        fortune_level: 0,
        seed: 1,
    };
    let drops = table.roll_block(&ctx_silk);
    assert_eq!(drops.len(), 1);
    assert_eq!(drops[0].0, BlockId::Glass as u16);
}

#[test]
fn no_silk_touch_glass_drops_nothing() {
    let table = block_loot_table(BlockId::Glass as u16);

    let ctx = LootContext {
        killed_by_player: true,
        looting_level: 0,
        silk_touch: false,
        fortune_level: 0,
        seed: 1,
    };
    let drops = table.roll_block(&ctx);
    assert!(drops.is_empty());
}

#[test]
fn fortune_extends_diamond_ore_max_count() {
    let table = block_loot_table(BlockId::DiamondOre as u16);

    let mut found_above_one = false;
    for seed in 0..500 {
        let ctx = LootContext {
            killed_by_player: true,
            looting_level: 0,
            silk_touch: false,
            fortune_level: 3,
            seed,
        };
        let drops = table.roll_block(&ctx);
        assert_eq!(drops.len(), 1);
        assert_eq!(drops[0].0, DIAMOND);
        // fortune 3 -> effective max = 1 + 3 = 4
        let count = drops[0].1;
        assert!(count >= 1 && count <= 4, "count {count} out of [1,4]");
        if count > 1 {
            found_above_one = true;
        }
    }
    assert!(
        found_above_one,
        "fortune should sometimes produce more than 1 diamond"
    );
}

#[test]
fn fortune_extends_lapis_ore_max_count() {
    let table = block_loot_table(BlockId::LapisOre as u16);

    let mut found_above_nine = false;
    for seed in 0..500 {
        let ctx = LootContext {
            killed_by_player: true,
            looting_level: 0,
            silk_touch: false,
            fortune_level: 3,
            seed,
        };
        let drops = table.roll_block(&ctx);
        assert_eq!(drops.len(), 1);
        assert_eq!(drops[0].0, LAPIS);
        let count = drops[0].1;
        // fortune 3 -> effective max = 9 + 3 = 12
        assert!(count >= 4 && count <= 12, "count {count} out of [4,12]");
        if count > 9 {
            found_above_nine = true;
        }
    }
    assert!(
        found_above_nine,
        "fortune should sometimes produce more than 9 lapis"
    );
}

#[test]
fn block_loot_air_drops_nothing() {
    let table = block_loot_table(BlockId::Air as u16);
    let ctx = default_ctx(0);
    assert!(table.roll_block(&ctx).is_empty());
}

#[test]
fn block_loot_generic_drops_self() {
    let table = block_loot_table(BlockId::OakPlanks as u16);
    let ctx = default_ctx(42);
    let drops = table.roll_block(&ctx);
    assert_eq!(drops.len(), 1);
    assert_eq!(drops[0], (BlockId::OakPlanks as u16, 1));
}

#[test]
fn block_loot_stone_without_silk_touch_drops_cobblestone() {
    let table = block_loot_table(BlockId::Stone as u16);
    let ctx = default_ctx(42);
    let drops = table.roll_block(&ctx);
    assert_eq!(drops.len(), 1);
    assert_eq!(drops[0].0, COBBLESTONE);
}

#[test]
fn block_loot_stone_with_silk_touch_drops_stone() {
    let table = block_loot_table(BlockId::Stone as u16);
    let ctx = LootContext {
        killed_by_player: true,
        looting_level: 0,
        silk_touch: true,
        fortune_level: 0,
        seed: 42,
    };
    let drops = table.roll_block(&ctx);
    assert_eq!(drops.len(), 1);
    assert_eq!(drops[0].0, BlockId::Stone as u16);
}
