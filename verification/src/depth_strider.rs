//! Depth Strider: the enchantment level that counts toward water speed.
use vstd::prelude::*;

verus! {

/// Maximum enchantment level for Depth Strider.
pub const MAX_DEPTH_STRIDER_LEVEL: u8 = 3;

/// Speed in water without Depth Strider, in percent of the speed on land.
pub const WATER_SPEED_BASE_PERCENT: u32 = 20;

/// The level that counts toward the water speed bonus: the enchantment
/// level capped at 3. Each counted level adds 0.333 to the speed factor.
pub fn effective_depth_strider_level(level: u8) -> (l: u8)
    ensures
        l == (if level < MAX_DEPTH_STRIDER_LEVEL { level } else { MAX_DEPTH_STRIDER_LEVEL }),
{
    if level < MAX_DEPTH_STRIDER_LEVEL { level } else { MAX_DEPTH_STRIDER_LEVEL }
}

} // verus!
