//! Loot tables of blocks, with silk-touch alternatives and fortune support.
use vstd::prelude::*;
use crate::block::{BlockId, block_raw};
use crate::loot::{
    LootCondition, LootEntry, LootPool, LootTable, entry_view, pool_view, table_view, loot_entry,
    single_roll_pool, CHANCE_ONE_TENTH,
};

verus! {

pub const STICK: u16 = 1000;
pub const COAL: u16 = 1001;
pub const DIAMOND: u16 = 1002;
pub const FLINT: u16 = 1003;
pub const LAPIS: u16 = 1004;
pub const EMERALD: u16 = 1005;
pub const REDSTONE_DUST_ITEM: u16 = 1006;

/// A pool of one roll: with silk touch the block `own` itself, and `drop`
/// (in `[min, max]`) under `cond`.
pub open spec fn silk_pool(own: u16, drop: u16, min: u8, max: u8, cond: LootCondition) -> (Seq<(u16, u8, u8, u32, Seq<LootCondition>)>, u8) {
    (seq![
        (own, 1u8, 1u8, 1u32, seq![LootCondition::SilkTouch]),
        (drop, min, max, 1u32, seq![cond]),
    ], 1u8)
}

/// The loot table of the block with raw id `block_id`: ores, stone, grass
/// and leaves drop an item (or, with silk touch, themselves), gravel drops
/// flint with chance 0.1 against gravel of weight 9, glass drops only with
/// silk touch, air, bedrock and water drop nothing, and every other block
/// (known or not) drops itself.
pub open spec fn block_table_spec(block_id: u16) -> Seq<(Seq<(u16, u8, u8, u32, Seq<LootCondition>)>, u8)> {
    if block_id == block_raw(BlockId::Stone) {
        seq![silk_pool(block_id, block_raw(BlockId::Cobblestone), 1, 1, LootCondition::Always)]
    } else if block_id == block_raw(BlockId::DiamondOre) {
        seq![silk_pool(block_id, DIAMOND, 1, 1, LootCondition::Always)]
    } else if block_id == block_raw(BlockId::CoalOre) {
        seq![silk_pool(block_id, COAL, 1, 1, LootCondition::Always)]
    } else if block_id == block_raw(BlockId::LapisOre) {
        seq![silk_pool(block_id, LAPIS, 4, 9, LootCondition::Always)]
    } else if block_id == block_raw(BlockId::EmeraldOre) {
        seq![silk_pool(block_id, EMERALD, 1, 1, LootCondition::Always)]
    } else if block_id == block_raw(BlockId::RedstoneOre) {
        seq![silk_pool(block_id, REDSTONE_DUST_ITEM, 4, 5, LootCondition::Always)]
    } else if block_id == block_raw(BlockId::GrassBlock) {
        seq![silk_pool(block_id, block_raw(BlockId::Dirt), 1, 1, LootCondition::Always)]
    } else if block_id == block_raw(BlockId::OakLeaves) {
        seq![silk_pool(block_id, STICK, 1, 2, LootCondition::RandomChance(CHANCE_ONE_TENTH))]
    } else if block_id == block_raw(BlockId::Gravel) {
        seq![(seq![
            (FLINT, 1u8, 1u8, 1u32, seq![LootCondition::RandomChance(CHANCE_ONE_TENTH)]),
            (block_raw(BlockId::Gravel), 1u8, 1u8, 9u32, seq![LootCondition::Always]),
        ], 1u8)]
    } else if block_id == block_raw(BlockId::Glass) {
        seq![(seq![(block_id, 1u8, 1u8, 1u32, seq![LootCondition::SilkTouch])], 1u8)]
    } else if block_id == block_raw(BlockId::Air) || block_id == block_raw(BlockId::Bedrock)
        || block_id == block_raw(BlockId::Water) {
        seq![]
    } else {
        seq![(seq![(block_id, 1u8, 1u8, 1u32, seq![LootCondition::Always])], 1u8)]
    }
}

/// In every block's loot table silk touch yields only the block itself,
/// and a block with a silk-touch alternative drops something else without
/// it: wherever an entry needing silk touch sits in a pool beside one that
/// does not, the first drops the block and the second a different item.
pub proof fn lemma_silk_touch_keeps_block(block_id: u16, i: int, j: int, k: int)
    requires
        0 <= i < block_table_spec(block_id).len(),
        0 <= j < block_table_spec(block_id)[i].0.len(),
        0 <= k < block_table_spec(block_id)[i].0.len(),
        block_table_spec(block_id)[i].0[j].4.contains(LootCondition::SilkTouch),
        !block_table_spec(block_id)[i].0[k].4.contains(LootCondition::SilkTouch),
    ensures
        block_table_spec(block_id)[i].0[j].0 == block_id,
        block_table_spec(block_id)[i].0[k].0 != block_id,
{
    let t = block_table_spec(block_id);
    assert(seq![LootCondition::SilkTouch].contains(LootCondition::SilkTouch)) by {
        assert(seq![LootCondition::SilkTouch][0] == LootCondition::SilkTouch);
    }
    if t[i].0.len() == 2 {
        assert(t[i].0[0].4 == seq![LootCondition::SilkTouch]);
        assert(!t[i].0[1].4.contains(LootCondition::SilkTouch) || t[i].0[1].4 == seq![LootCondition::SilkTouch]);
    }
}

fn make_silk_pool(own: u16, drop: u16, min: u8, max: u8, cond: LootCondition) -> (p: LootPool)
    ensures
        pool_view(p) == silk_pool(own, drop, min, max, cond),
{
    let silk_conds = vec![LootCondition::SilkTouch];
    assert(silk_conds@ =~= seq![LootCondition::SilkTouch]);
    let drop_conds = vec![cond];
    assert(drop_conds@ =~= seq![cond]);
    let a = loot_entry(own, 1, 1, 1, silk_conds);
    let b = loot_entry(drop, min, max, 1, drop_conds);
    let p = single_roll_pool(vec![a, b]);
    assert(p.entries@.map_values(|e: LootEntry| entry_view(e)) =~= silk_pool(own, drop, min, max, cond).0);
    p
}

fn make_one_entry_pool(item: u16, weight: u32, cond: LootCondition) -> (p: LootPool)
    ensures
        pool_view(p) == (seq![(item, 1u8, 1u8, weight, seq![cond])], 1u8),
{
    let conds = vec![cond];
    assert(conds@ =~= seq![cond]);
    let e = loot_entry(item, 1, 1, weight, conds);
    let p = single_roll_pool(vec![e]);
    assert(p.entries@.map_values(|e: LootEntry| entry_view(e)) =~= seq![(item, 1u8, 1u8, weight, seq![cond])]);
    p
}

/// Returns the loot table for a block. Supports fortune and silk-touch mechanics.
pub fn block_loot_table(block_id: u16) -> (t: LootTable)
    ensures
        table_view(t) == block_table_spec(block_id),
{
    let pools: Vec<LootPool> = if block_id == BlockId::Stone.to_raw() {
        vec![make_silk_pool(block_id, BlockId::Cobblestone.to_raw(), 1, 1, LootCondition::Always)]
    } else if block_id == BlockId::DiamondOre.to_raw() {
        vec![make_silk_pool(block_id, DIAMOND, 1, 1, LootCondition::Always)]
    } else if block_id == BlockId::CoalOre.to_raw() {
        vec![make_silk_pool(block_id, COAL, 1, 1, LootCondition::Always)]
    } else if block_id == BlockId::LapisOre.to_raw() {
        vec![make_silk_pool(block_id, LAPIS, 4, 9, LootCondition::Always)]
    } else if block_id == BlockId::EmeraldOre.to_raw() {
        vec![make_silk_pool(block_id, EMERALD, 1, 1, LootCondition::Always)]
    } else if block_id == BlockId::RedstoneOre.to_raw() {
        vec![make_silk_pool(block_id, REDSTONE_DUST_ITEM, 4, 5, LootCondition::Always)]
    } else if block_id == BlockId::GrassBlock.to_raw() {
        vec![make_silk_pool(block_id, BlockId::Dirt.to_raw(), 1, 1, LootCondition::Always)]
    } else if block_id == BlockId::OakLeaves.to_raw() {
        vec![make_silk_pool(block_id, STICK, 1, 2, LootCondition::RandomChance(CHANCE_ONE_TENTH))]
    } else if block_id == BlockId::Gravel.to_raw() {
        let flint_conds = vec![LootCondition::RandomChance(CHANCE_ONE_TENTH)];
        assert(flint_conds@ =~= seq![LootCondition::RandomChance(CHANCE_ONE_TENTH)]);
        let gravel_conds = vec![LootCondition::Always];
        assert(gravel_conds@ =~= seq![LootCondition::Always]);
        let flint = loot_entry(FLINT, 1, 1, 1, flint_conds);
        let gravel = loot_entry(BlockId::Gravel.to_raw(), 1, 1, 9, gravel_conds);
        let p = single_roll_pool(vec![flint, gravel]);
        assert(pool_view(p) =~= block_table_spec(block_id)[0]);
        vec![p]
    } else if block_id == BlockId::Glass.to_raw() {
        vec![make_one_entry_pool(block_id, 1, LootCondition::SilkTouch)]
    } else if block_id == BlockId::Air.to_raw() || block_id == BlockId::Bedrock.to_raw()
        || block_id == BlockId::Water.to_raw() {
        Vec::new()
    } else {
        vec![make_one_entry_pool(block_id, 1, LootCondition::Always)]
    };
    let t = LootTable { pools };
    assert(table_view(t) =~= block_table_spec(block_id));
    t
}

} // verus!
