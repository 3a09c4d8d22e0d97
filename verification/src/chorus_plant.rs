//! Chorus plant growth.
use vstd::prelude::*;

verus! {

/// Maximum height a chorus plant can reach.
pub const MAX_CHORUS_HEIGHT: u8 = 5;

/// Chorus plant state tracking growth progression.
#[derive(Debug, Clone, PartialEq, Eq, Structural)]
pub struct ChorusPlant {
    pub age: u8,
    pub height: u8,
    pub can_grow: bool,
}

impl ChorusPlant {
    /// Creates a new chorus plant at age 0, height 0, ready to grow.
    pub fn new() -> (p: Self)
        ensures
            p.age == 0 && p.height == 0 && p.can_grow,
    {
        Self { age: 0, height: 0, can_grow: true }
    }
}

/// Ticks chorus plant growth. Returns true if the plant grew this tick.
///
/// A plant that cannot grow or is at the maximum height stops growing for
/// good. Otherwise it grows one block (and ages one tick) when `seed` is a
/// multiple of 5, and stops growing once it reaches the maximum height.
pub fn tick_chorus_growth(plant: &mut ChorusPlant, seed: u64) -> (grew: bool)
    requires
        old(plant).can_grow && old(plant).height < MAX_CHORUS_HEIGHT && seed % 5 == 0 ==> old(plant).age < 255,
    ensures
        if !old(plant).can_grow || old(plant).height >= MAX_CHORUS_HEIGHT {
            !grew && *final(plant) == (ChorusPlant { can_grow: false, ..*old(plant) })
        } else if seed % 5 == 0 {
            &&& grew
            &&& final(plant).height == old(plant).height + 1
            &&& final(plant).age == old(plant).age + 1
            &&& final(plant).can_grow == (old(plant).height + 1 < MAX_CHORUS_HEIGHT)
        } else {
            !grew && *final(plant) == *old(plant)
        },
{
    if !plant.can_grow || plant.height >= MAX_CHORUS_HEIGHT {
        plant.can_grow = false;
        return false;
    }
    if seed % 5 == 0 {
        plant.height = plant.height + 1;
        plant.age = plant.age + 1;
        if plant.height >= MAX_CHORUS_HEIGHT {
            plant.can_grow = false;
        }
        true
    } else {
        false
    }
}

/// Breaking a chorus flower drops chorus fruit.
pub fn chorus_flower_break_drops_fruit() -> (r: bool)
    ensures
        r,
{
    true
}

/// A chorus plant must stand on end stone.
pub fn end_stone_required_below() -> (r: bool)
    ensures
        r,
{
    true
}

} // verus!
