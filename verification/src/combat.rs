//! Combat: damage kinds and melee damage by held tool.
use vstd::prelude::*;
use crate::block::ToolTier;

verus! {

#[derive(Debug, Clone, Copy, PartialEq, Eq, Hash, Structural)]
pub enum DamageType {
    Melee,
    Projectile,
    Fall,
    Explosion,
    Void,
    Drowning,
    Starving,
}

/// Melee damage in half-points: a bare fist deals 2 (one point); swords
/// deal 8, 10, 12, 8, 14 for wood, stone, iron, gold and diamond; other
/// tools deal 4, 5, 5, 4, 6.
pub open spec fn melee_halves_spec(tool_tier: Option<ToolTier>, is_sword: bool) -> u8 {
    match tool_tier {
        None => 2,
        Some(t) => match t {
            ToolTier::NoTier => 2,
            ToolTier::Wood => if is_sword { 8 } else { 4 },
            ToolTier::Stone => if is_sword { 10 } else { 5 },
            ToolTier::Iron => if is_sword { 12 } else { 5 },
            ToolTier::Gold => if is_sword { 8 } else { 4 },
            ToolTier::Diamond => if is_sword { 14 } else { 6 },
        },
    }
}

/// Melee damage of a hit, in half-points, by the tier of the held tool
/// (`None` for a bare fist) and whether it is a sword.
pub fn melee_damage_halves(tool_tier: Option<ToolTier>, is_sword: bool) -> (d: u8)
    ensures
        d == melee_halves_spec(tool_tier, is_sword),
{
    match tool_tier {
        None => 2,
        Some(t) => match t {
            ToolTier::NoTier => 2,
            ToolTier::Wood => if is_sword { 8 } else { 4 },
            ToolTier::Stone => if is_sword { 10 } else { 5 },
            ToolTier::Iron => if is_sword { 12 } else { 5 },
            ToolTier::Gold => if is_sword { 8 } else { 4 },
            ToolTier::Diamond => if is_sword { 14 } else { 6 },
        },
    }
}

/// A sword never deals less than the same tier's other tools, and any tool
/// deals at least a fist.
pub proof fn lemma_sword_at_least_tool(tier: ToolTier)
    ensures
        melee_halves_spec(Some(tier), true) >= melee_halves_spec(Some(tier), false),
        melee_halves_spec(Some(tier), false) >= melee_halves_spec(None, false),
{
}

} // verus!
