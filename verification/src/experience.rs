//! Experience levels, the XP they take, and the XP that blocks and mobs give.
use vstd::prelude::*;

verus! {

/// XP required to advance from `level` to `level + 1`:
/// `2 * level + 7` up to level 15, `5 * level - 38` up to level 30, and
/// `9 * level - 158` beyond.
pub open spec fn xp_next(level: nat) -> nat {
    if level <= 15 {
        2 * level + 7
    } else if level <= 30 {
        (5 * level - 38) as nat
    } else {
        (9 * level - 158) as nat
    }
}

/// Total XP needed to reach `level` from level 0: the sum of the XP of each
/// level below it.
pub open spec fn xp_total(level: nat) -> nat
    decreases level,
{
    if level == 0 {
        0
    } else {
        xp_total((level - 1) as nat) + xp_next((level - 1) as nat)
    }
}

/// XP required to advance from `level` to `level + 1`.
pub fn xp_for_next_level(level: u32) -> (xp: u32)
    requires
        level <= 30 || 9 * level <= u32::MAX,
    ensures
        xp == xp_next(level as nat),
{
    if level <= 15 {
        2 * level + 7
    } else if level <= 30 {
        5 * level - 38
    } else {
        9 * level - 158
    }
}

/// XP needed per level only grows with the level.
pub proof fn lemma_xp_next_monotonic(a: nat, b: nat)
    requires
        a <= b,
    ensures
        xp_next(a) <= xp_next(b),
{
}

/// Total XP is monotonic in the level.
pub proof fn lemma_xp_total_monotonic(a: nat, b: nat)
    requires
        a <= b,
    ensures
        xp_total(a) <= xp_total(b),
    decreases b - a,
{
    if a < b {
        lemma_xp_total_monotonic(a, (b - 1) as nat);
    }
}

/// Levels and total XP convert back and forth: with exactly the total XP
/// of level `l`, the level reached (the one `level_for_total_xp` returns)
/// is `l` itself.
pub proof fn lemma_level_of_level_total(l: nat, level: nat)
    requires
        xp_total(level) <= xp_total(l) < xp_total(level + 1),
    ensures
        level == l,
{
    if level < l {
        lemma_xp_total_monotonic(level + 1, l);
    } else if level > l {
        lemma_xp_total_monotonic(l + 1, level);
    }
}

/// Total XP needed to reach `level` from level 0.
pub fn total_xp_for_level(level: u32) -> (xp: u32)
    requires
        xp_total(level as nat) <= u32::MAX,
    ensures
        xp == xp_total(level as nat),
{
    let mut total: u32 = 0;
    let mut l: u32 = 0;
    while l < level
        invariant
            l <= level,
            total == xp_total(l as nat),
            xp_total(level as nat) <= u32::MAX,
        decreases level - l,
    {
        proof {
            lemma_xp_total_monotonic((l + 1) as nat, level as nat);
            lemma_xp_total_bounds_level(l as nat);
        }
        total = total + xp_for_next_level(l);
        l = l + 1;
    }
    total
}

/// The level reached with `total` XP: the greatest level whose total XP
/// requirement does not exceed it.
pub fn level_for_total_xp(total: u32) -> (level: u32)
    ensures
        xp_total(level as nat) <= total < xp_total(level as nat + 1),
{
    let mut level: u32 = 0;
    let mut consumed: u32 = 0;
    loop
        invariant
            consumed == xp_total(level as nat),
            consumed <= total,
            level <= total,
        decreases total - level,
    {
        let needed = xp_next_wide(level);
        if (total as u64) < consumed as u64 + needed {
            return level;
        }
        consumed = consumed + needed as u32;
        level = level + 1;
    }
}

/// `xp_next` computed in 64 bits.
fn xp_next_wide(level: u32) -> (xp: u64)
    ensures
        xp == xp_next(level as nat),
{
    let l = level as u64;
    if l <= 15 {
        2 * l + 7
    } else if l <= 30 {
        5 * l - 38
    } else {
        9 * l - 158
    }
}

/// Reaching level `l + 1` takes more than `9 * l - 158` XP in total, so a
/// level whose total fits in a `u32` has a per-level cost that fits too.
proof fn lemma_xp_total_bounds_level(l: nat)
    ensures
        xp_total(l + 1) >= xp_next(l),
        l > 30 ==> xp_next(l) == 9 * l - 158,
{
}

/// A player's experience: the total XP collected and the level it reaches.
/// The fraction of the way to the next level is [`level_progress`]'s
/// quotient.
#[derive(Debug, Clone, Copy, PartialEq, Eq, Structural)]
pub struct ExperienceComponent {
    pub total_xp: u32,
    pub level: u32,
}

impl ExperienceComponent {
    /// The level is the one the total XP reaches.
    pub open spec fn wf(&self) -> bool {
        xp_total(self.level as nat) <= self.total_xp < xp_total(self.level as nat + 1)
    }

    /// A new component at zero XP, level 0.
    pub fn new() -> (c: Self)
        ensures
            c.total_xp == 0,
            c.level == 0,
            c.wf(),
    {
        assert(xp_total(1) == 7) by {
            reveal_with_fuel(xp_total, 2);
        }
        Self { total_xp: 0, level: 0 }
    }
}

/// Add `amount` XP to a component; its level becomes the one the new total
/// reaches.
pub fn add_xp(comp: &mut ExperienceComponent, amount: u32)
    requires
        old(comp).total_xp + amount <= u32::MAX,
    ensures
        final(comp).total_xp == old(comp).total_xp + amount,
        final(comp).wf(),
{
    comp.total_xp = comp.total_xp + amount;
    comp.level = level_for_total_xp(comp.total_xp);
}

/// Spend `levels` levels for enchanting: the level drops by `levels` and
/// the total XP becomes exactly that of the new level; with `levels` at
/// least the current level, both drop to zero.
pub fn remove_xp_for_enchanting(comp: &mut ExperienceComponent, levels: u32)
    requires
        old(comp).wf(),
    ensures
        levels >= old(comp).level ==> final(comp).level == 0 && final(comp).total_xp == 0,
        levels < old(comp).level ==> final(comp).level == old(comp).level - levels
            && final(comp).total_xp == xp_total(final(comp).level as nat),
        final(comp).wf(),
{
    if levels >= comp.level {
        comp.level = 0;
        comp.total_xp = 0;
        assert(xp_total(1) == 7) by {
            reveal_with_fuel(xp_total, 2);
        }
    } else {
        let new_level = comp.level - levels;
        proof {
            lemma_xp_total_monotonic(new_level as nat, comp.level as nat);
        }
        comp.level = new_level;
        comp.total_xp = total_xp_for_level(new_level);
    }
}

/// From level 3 on, the total XP of a level is at least nine times the
/// level, so the cost of the next level fits wherever the total does.
proof fn lemma_xp_total_at_least_nine_per_level(l: nat)
    requires
        l >= 3,
    ensures
        xp_total(l) >= 9 * l,
    decreases l,
{
    if l == 3 {
        reveal_with_fuel(xp_total, 4);
    } else {
        lemma_xp_total_at_least_nine_per_level((l - 1) as nat);
    }
}

/// How far a component is into its level, as the XP gained since reaching
/// it over the XP the next level takes.
pub fn level_progress(comp: &ExperienceComponent) -> (p: (u32, u32))
    requires
        comp.wf(),
    ensures
        p.0 == comp.total_xp - xp_total(comp.level as nat),
        p.1 == xp_next(comp.level as nat),
        p.0 < p.1,
{
    proof {
        lemma_xp_total_bounds_level(comp.level as nat);
        if comp.level >= 3 {
            lemma_xp_total_at_least_nine_per_level(comp.level as nat);
        }
    }
    let base = total_xp_for_level(comp.level);
    let needed = xp_for_next_level(comp.level);
    (comp.total_xp - base, needed)
}

/// XP dropped when mining a block (by block ID); 0 for blocks that do not
/// yield XP. Ores: coal, iron and gold 1, diamond and emerald 7, lapis 5,
/// redstone 3, nether quartz 4, spawner 30.
pub open spec fn block_xp(block_id: u16) -> u32 {
    if block_id == 14 || block_id == 15 || block_id == 16 { 1 }
    else if block_id == 17 || block_id == 19 { 7 }
    else if block_id == 18 { 5 }
    else if block_id == 20 { 3 }
    else if block_id == 21 { 4 }
    else if block_id == 22 { 30 }
    else { 0 }
}

/// Mining experience by block id: exactly the ore ids 14 to 22 give any,
/// at most 30; the two gem ores, diamond (17) and emerald (19), give the
/// same, no other ore gives more than they do, and only the spawner (22)
/// gives more.
pub proof fn lemma_block_xp_sources(b: u16)
    ensures
        block_xp(b) > 0 <==> 14 <= b <= 22,
        block_xp(b) <= block_xp(22),
        block_xp(17) == block_xp(19),
        b != 22 ==> block_xp(b) <= block_xp(17),
        b != 22 && block_xp(b) == block_xp(17) ==> b == 17 || b == 19,
{
}

/// XP dropped when mining a block (by block ID).
pub fn xp_from_block(block_id: u16) -> (xp: u32)
    ensures
        xp == block_xp(block_id),
{
    match block_id {
        14 => 1,
        15 => 1,
        16 => 1,
        17 => 7,
        18 => 5,
        19 => 7,
        20 => 3,
        21 => 4,
        22 => 30,
        _ => 0,
    }
}

/// XP dropped when a mob is killed (by mob kind discriminant): 5 for the
/// hostile kinds 0 to 3, 1 for the passive kinds 4 to 7, 0 otherwise.
pub fn xp_from_mob(mob_kind: u8) -> (xp: u32)
    ensures
        xp == (if mob_kind <= 3 { 5u32 } else if mob_kind <= 7 { 1u32 } else { 0u32 }),
{
    match mob_kind {
        0 => 5,
        1 => 5,
        2 => 5,
        3 => 5,
        4 => 1,
        5 => 1,
        6 => 1,
        7 => 1,
        _ => 0,
    }
}

} // verus!
