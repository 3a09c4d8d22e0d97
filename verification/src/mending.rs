//! Mending: collected experience repairs damaged, enchanted items.
use vstd::prelude::*;
use crate::loot::{splitmix, split_out};

verus! {

/// Durability points repaired per experience point consumed.
pub const DURABILITY_PER_XP: u32 = 2;

/// The durability that an experience orb repairs when it is consumed whole:
/// twice its value, saturating at `u32::MAX`.
pub fn mending_repair_amount(xp_orb_value: u32) -> (r: u32)
    ensures
        r == (if 2 * xp_orb_value > u32::MAX { u32::MAX as int } else { 2 * xp_orb_value }),
{
    match xp_orb_value.checked_mul(DURABILITY_PER_XP) {
        Some(v) => v,
        None => u32::MAX,
    }
}

/// The experience needed to repair `damage` durability: `ceil(damage / 2)`.
pub open spec fn xp_for(damage: int) -> int {
    (damage + 1) / 2
}

/// The experience needed to repair the given durability, rounded up.
pub fn xp_used_for_repair(damage_to_repair: u32) -> (r: u32)
    ensures
        r == xp_for(damage_to_repair as int),
{
    damage_to_repair / 2 + damage_to_repair % 2
}

/// A candidate item for the mending repair selection.
#[derive(Debug, Clone, Copy, PartialEq, Eq, Structural)]
pub struct MendingItem {
    pub slot_index: usize,
    pub item_id: u16,
    pub damaged: u16,
}

/// Tool identifiers outside the tool and armor band that also take mending.
pub open spec fn is_extra_tool_id(id: u16) -> bool {
    id == 256 || id == 257 || id == 258 || (267 <= id <= 275)
}

/// Whether an item takes mending: tools and armor live in the band
/// 4000..=5000, and a handful of tool identifiers outside it count too.
pub fn is_mending_item(item_id: u16) -> (b: bool)
    ensures
        b == ((4000 <= item_id <= 5000) || is_extra_tool_id(item_id)),
{
    let extra: [u16; 12] = [256, 257, 258, 267, 268, 269, 270, 271, 272, 273, 274, 275];
    if 4000 <= item_id && item_id <= 5000 {
        return true;
    }
    let mut i: usize = 0;
    while i < 12
        invariant
            i <= 12,
            extra@ == seq![256u16, 257, 258, 267, 268, 269, 270, 271, 272, 273, 274, 275],
            forall|k: int| 0 <= k < i ==> extra@[k] != item_id,
        decreases 12 - i,
    {
        if extra[i] == item_id {
            return true;
        }
        i = i + 1;
    }
    proof {
        if is_extra_tool_id(item_id) {
            if item_id == 256 { assert(extra@[0] == item_id); }
            else if item_id == 257 { assert(extra@[1] == item_id); }
            else if item_id == 258 { assert(extra@[2] == item_id); }
            else { assert(extra@[(item_id - 264) as int] == item_id); }
        }
    }
    false
}

/// Whether a candidate item is damaged.
pub open spec fn is_damaged(item: MendingItem) -> bool {
    item.damaged > 0
}

/// The damaged candidates, in order.
pub open spec fn damaged_items(items: Seq<MendingItem>) -> Seq<MendingItem> {
    items.filter(|i: MendingItem| is_damaged(i))
}

/// The slot that mending repairs: among the damaged candidates, the one at
/// position `mix(seed) % count`; `None` when no candidate is damaged.
pub open spec fn mending_choice(items: Seq<MendingItem>, seed: u64) -> Option<usize> {
    let d = damaged_items(items);
    if d.len() == 0 {
        None
    } else {
        Some(d[(split_out(seed) % (d.len() as u64)) as int].slot_index)
    }
}

/// Select one damaged item by a seed-determined pick and return its slot,
/// or `None` if no item is damaged.
pub fn select_mending_item(items: &[MendingItem], seed: u64) -> (r: Option<usize>)
    ensures
        r == mending_choice(items@, seed),
{
    let mut damaged: Vec<MendingItem> = Vec::new();
    let mut i: usize = 0;
    while i < items.len()
        invariant
            i <= items@.len(),
            damaged@ == damaged_items(items@.subrange(0, i as int)),
        decreases items@.len() - i,
    {
        proof {
            reveal_with_fuel(Seq::filter, 1);
            assert(items@.subrange(0, i as int + 1).drop_last() == items@.subrange(0, i as int));
        }
        if items[i].damaged > 0 {
            damaged.push(items[i]);
        }
        i = i + 1;
    }
    proof {
        assert(items@.subrange(0, items@.len() as int) == items@);
    }
    if damaged.len() == 0 {
        return None;
    }
    let mut state = seed;
    let z = splitmix(&mut state);
    let n = damaged.len() as u64;
    let idx = z % n;
    Some(damaged[idx as usize].slot_index)
}

/// Mending applied to an item with `item_damage` damage and `xp_available`
/// experience: the repair is `min(2 * xp, damage)`, the experience used is
/// `ceil(repair / 2)`; no repair and no experience when either is zero.
/// Returns `(new_damage, xp_consumed)`.
pub fn apply_mending(item_damage: u16, xp_available: u32) -> (r: (u16, u32))
    ensures
        ({
            let repair = if 2 * xp_available < item_damage { 2 * xp_available } else { item_damage as int };
            if item_damage == 0 || xp_available == 0 {
                r == (item_damage, 0u32)
            } else {
                r.0 == item_damage - repair && r.1 == xp_for(repair)
            }
        }),
        r.0 <= item_damage,
        r.1 <= xp_available,
        2 * r.1 >= item_damage - r.0,
        2 * r.1 <= item_damage - r.0 + 1,
{
    if item_damage == 0 || xp_available == 0 {
        return (item_damage, 0);
    }
    let max_repair = mending_repair_amount(xp_available);
    let actual_repair = if max_repair < item_damage as u32 { max_repair } else { item_damage as u32 };
    let xp_consumed = xp_used_for_repair(actual_repair);
    let new_damage = item_damage - actual_repair as u16;
    (new_damage, xp_consumed)
}

} // verus!
