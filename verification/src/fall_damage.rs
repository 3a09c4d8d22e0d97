//! Integer part of fall damage: the Jump Boost reduction.
use vstd::prelude::*;

verus! {

/// Reduce fall damage by one point per Jump Boost level, never below zero.
pub fn apply_jump_boost_reduction(damage: u32, jump_boost_level: u8) -> (r: u32)
    ensures
        r == (if damage >= jump_boost_level { damage - jump_boost_level } else { 0 }),
{
    damage.saturating_sub(jump_boost_level as u32)
}

} // verus!
