//! Loot tables of the eight mob kinds.
use vstd::prelude::*;
use crate::loot::{
    LootCondition, LootContext, LootEntry, LootPool, LootTable, entry_view, pool_view, table_view, loot_entry,
    single_roll_pool, sure_pool, table_drops, lemma_sure_first_pool_drops_first, CHANCE_ONE_TWENTIETH,
    CHANCE_ONE_THIRD,
};

verus! {

pub const ROTTEN_FLESH: u16 = 2000;
pub const BONE: u16 = 2001;
pub const ARROW: u16 = 2002;
pub const GUNPOWDER: u16 = 2003;
pub const STRING_ITEM: u16 = 2004;
pub const RAW_PORKCHOP: u16 = 2005;
pub const LEATHER: u16 = 2006;
pub const RAW_BEEF: u16 = 2007;
pub const WOOL: u16 = 2008;
pub const FEATHER: u16 = 2009;
pub const RAW_CHICKEN: u16 = 2010;
pub const SPIDER_EYE: u16 = 2011;
pub const MUSIC_DISC: u16 = 2012;

/// A pool of one roll with a single entry that has one `Always` condition.
pub open spec fn simple_pool(item: u16, min: u8, max: u8) -> (Seq<(u16, u8, u8, u32, Seq<LootCondition>)>, u8) {
    (seq![(item, min, max, 1u32, seq![LootCondition::Always])], 1u8)
}

/// A pool of one roll with a single entry for a player kill with the given chance.
pub open spec fn rare_pool(item: u16, chance: u32) -> (Seq<(u16, u8, u8, u32, Seq<LootCondition>)>, u8) {
    (seq![(item, 1u8, 1u8, 1u32, seq![LootCondition::KilledByPlayer, LootCondition::RandomChance(chance)])], 1u8)
}

/// The loot table of each mob kind, by its discriminant: zombie 0,
/// skeleton 1, creeper 2, spider 3, pig 4, cow 5, sheep 6, chicken 7;
/// other kinds have an empty table.
pub open spec fn mob_table_spec(kind: u8) -> Seq<(Seq<(u16, u8, u8, u32, Seq<LootCondition>)>, u8)> {
    if kind == 0 {
        seq![simple_pool(ROTTEN_FLESH, 0, 2)]
    } else if kind == 1 {
        seq![simple_pool(BONE, 0, 2), simple_pool(ARROW, 0, 2)]
    } else if kind == 2 {
        seq![simple_pool(GUNPOWDER, 0, 2), rare_pool(MUSIC_DISC, CHANCE_ONE_TWENTIETH)]
    } else if kind == 3 {
        seq![simple_pool(STRING_ITEM, 0, 2), rare_pool(SPIDER_EYE, CHANCE_ONE_THIRD)]
    } else if kind == 4 {
        seq![simple_pool(RAW_PORKCHOP, 1, 3)]
    } else if kind == 5 {
        seq![simple_pool(RAW_BEEF, 1, 3), simple_pool(LEATHER, 0, 2)]
    } else if kind == 6 {
        seq![simple_pool(WOOL, 1, 1)]
    } else if kind == 7 {
        seq![simple_pool(RAW_CHICKEN, 1, 1), simple_pool(FEATHER, 0, 2)]
    } else {
        seq![]
    }
}

/// The item pigs (4), cows (5), sheep (6) and chickens (7) always drop.
pub open spec fn guaranteed_item(kind: u8) -> u16 {
    if kind == 4 {
        RAW_PORKCHOP
    } else if kind == 5 {
        RAW_BEEF
    } else if kind == 6 {
        WOOL
    } else {
        RAW_CHICKEN
    }
}

/// Pigs, cows, sheep and chickens always drop something, and first their
/// porkchop, beef, wool or chicken, whatever the seed and context.
pub proof fn lemma_farm_animals_always_drop(t: LootTable, kind: u8, ctx: LootContext)
    requires
        4 <= kind <= 7,
        table_view(t) == mob_table_spec(kind),
    ensures
        table_drops(t, ctx, false).len() >= 1,
        table_drops(t, ctx, false)[0].0 == guaranteed_item(kind),
{
    assert(t.pools@.len() == table_view(t).len());
    let p = t.pools@[0];
    assert(table_view(t)[0] == pool_view(p));
    assert(p.entries@.len() == pool_view(p).0.len());
    let e = p.entries@[0];
    assert(pool_view(p).0[0] == entry_view(e));
    assert(e.conditions@ =~= seq![LootCondition::Always]);
    assert(sure_pool(p));
    lemma_sure_first_pool_drops_first(t, ctx, false);
}

/// Whether the loot table of mob kind `kind` has an entry dropping `item`.
pub open spec fn mob_table_has_item(kind: u8, item: u16) -> bool {
    exists|i: int, j: int|
        0 <= i < mob_table_spec(kind).len() && 0 <= j < mob_table_spec(kind)[i].0.len()
            && (#[trigger] mob_table_spec(kind)[i].0[j]).0 == item
}

/// The mob drop items, from rotten flesh (2000) to the music disc (2012),
/// are each dropped by exactly one of the eight mob kinds, and no mob's
/// table holds any other item.
pub proof fn lemma_mob_items_partition(item: u16, k1: u8, k2: u8)
    ensures
        ROTTEN_FLESH <= item <= MUSIC_DISC ==> exists|kind: u8| kind < 8 && #[trigger] mob_table_has_item(kind, item),
        mob_table_has_item(k1, item) ==> k1 < 8 && ROTTEN_FLESH <= item <= MUSIC_DISC,
        mob_table_has_item(k1, item) && mob_table_has_item(k2, item) ==> k1 == k2,
{
    assert(mob_table_spec(0)[0].0[0].0 == ROTTEN_FLESH);
    assert(mob_table_spec(1)[0].0[0].0 == BONE);
    assert(mob_table_spec(1)[1].0[0].0 == ARROW);
    assert(mob_table_spec(2)[0].0[0].0 == GUNPOWDER);
    assert(mob_table_spec(2)[1].0[0].0 == MUSIC_DISC);
    assert(mob_table_spec(3)[0].0[0].0 == STRING_ITEM);
    assert(mob_table_spec(3)[1].0[0].0 == SPIDER_EYE);
    assert(mob_table_spec(4)[0].0[0].0 == RAW_PORKCHOP);
    assert(mob_table_spec(5)[0].0[0].0 == RAW_BEEF);
    assert(mob_table_spec(5)[1].0[0].0 == LEATHER);
    assert(mob_table_spec(6)[0].0[0].0 == WOOL);
    assert(mob_table_spec(7)[0].0[0].0 == RAW_CHICKEN);
    assert(mob_table_spec(7)[1].0[0].0 == FEATHER);
    assert(mob_table_has_item(0, ROTTEN_FLESH));
    assert(mob_table_has_item(1, BONE));
    assert(mob_table_has_item(1, ARROW));
    assert(mob_table_has_item(2, GUNPOWDER));
    assert(mob_table_has_item(2, MUSIC_DISC));
    assert(mob_table_has_item(3, STRING_ITEM));
    assert(mob_table_has_item(3, SPIDER_EYE));
    assert(mob_table_has_item(4, RAW_PORKCHOP));
    assert(mob_table_has_item(5, RAW_BEEF));
    assert(mob_table_has_item(5, LEATHER));
    assert(mob_table_has_item(6, WOOL));
    assert(mob_table_has_item(7, RAW_CHICKEN));
    assert(mob_table_has_item(7, FEATHER));
    if mob_table_has_item(k1, item) {
        let (i, j) = choose|i: int, j: int|
            0 <= i < mob_table_spec(k1).len() && 0 <= j < mob_table_spec(k1)[i].0.len()
                && (#[trigger] mob_table_spec(k1)[i].0[j]).0 == item;
        assert(k1 < 8);
        if mob_table_has_item(k2, item) {
            let (i2, j2) = choose|i: int, j: int|
                0 <= i < mob_table_spec(k2).len() && 0 <= j < mob_table_spec(k2)[i].0.len()
                    && (#[trigger] mob_table_spec(k2)[i].0[j]).0 == item;
            assert(k2 < 8);
        }
    }
}

fn make_simple_pool(item: u16, min: u8, max: u8) -> (p: LootPool)
    ensures
        pool_view(p) == simple_pool(item, min, max),
{
    let conds = vec![LootCondition::Always];
    assert(conds@ =~= seq![LootCondition::Always]);
    let e = loot_entry(item, min, max, 1, conds);
    let p = single_roll_pool(vec![e]);
    assert(p.entries@.map_values(|e: LootEntry| entry_view(e)) =~= simple_pool(item, min, max).0);
    p
}

fn make_rare_pool(item: u16, chance: u32) -> (p: LootPool)
    ensures
        pool_view(p) == rare_pool(item, chance),
{
    let e = loot_entry(item, 1, 1, 1, vec![LootCondition::KilledByPlayer, LootCondition::RandomChance(chance)]);
    let p = single_roll_pool(vec![e]);
    assert(p.entries@.map_values(|e: LootEntry| entry_view(e)) =~= rare_pool(item, chance).0);
    p
}

/// Returns the loot table for a mob of the given kind (discriminant of `MobKind`).
pub fn mob_loot_table(kind: u8) -> (t: LootTable)
    ensures
        table_view(t) == mob_table_spec(kind),
{
    let pools: Vec<LootPool> = if kind == 0 {
        vec![make_simple_pool(ROTTEN_FLESH, 0, 2)]
    } else if kind == 1 {
        vec![make_simple_pool(BONE, 0, 2), make_simple_pool(ARROW, 0, 2)]
    } else if kind == 2 {
        vec![make_simple_pool(GUNPOWDER, 0, 2), make_rare_pool(MUSIC_DISC, CHANCE_ONE_TWENTIETH)]
    } else if kind == 3 {
        vec![make_simple_pool(STRING_ITEM, 0, 2), make_rare_pool(SPIDER_EYE, CHANCE_ONE_THIRD)]
    } else if kind == 4 {
        vec![make_simple_pool(RAW_PORKCHOP, 1, 3)]
    } else if kind == 5 {
        vec![make_simple_pool(RAW_BEEF, 1, 3), make_simple_pool(LEATHER, 0, 2)]
    } else if kind == 6 {
        vec![make_simple_pool(WOOL, 1, 1)]
    } else if kind == 7 {
        vec![make_simple_pool(RAW_CHICKEN, 1, 1), make_simple_pool(FEATHER, 0, 2)]
    } else {
        Vec::new()
    };
    let t = LootTable { pools };
    assert(table_view(t) =~= mob_table_spec(kind));
    t
}

} // verus!
