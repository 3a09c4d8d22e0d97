//! The air meter of a submerged entity.
use vstd::prelude::*;

verus! {

/// Default maximum air in ticks (15 seconds at 20 TPS).
pub const DEFAULT_MAX_AIR: u32 = 300;

/// Extra air ticks granted per Respiration enchantment level (15 seconds each).
pub const RESPIRATION_BONUS_PER_LEVEL: u32 = 300;

/// Tracks remaining air supply for an entity.
#[derive(Debug, Clone, PartialEq, Eq, Structural)]
pub struct AirMeter {
    pub air_ticks: u32,
    pub max_air: u32,
}

impl AirMeter {
    /// Creates a new `AirMeter` at full capacity (300 ticks / 15 seconds).
    pub fn new() -> (m: Self)
        ensures
            m.air_ticks == DEFAULT_MAX_AIR && m.max_air == DEFAULT_MAX_AIR,
    {
        Self { air_ticks: DEFAULT_MAX_AIR, max_air: DEFAULT_MAX_AIR }
    }

    /// Tick while the entity is submerged: air drops by one (not below zero).
    /// Returns the air left; zero means the entity is drowning.
    pub fn drain_air(&mut self) -> (left: u32)
        ensures
            final(self).max_air == old(self).max_air,
            final(self).air_ticks == (if old(self).air_ticks > 0 { old(self).air_ticks - 1 } else { 0 }),
            left == final(self).air_ticks,
    {
        if self.air_ticks > 0 {
            self.air_ticks = self.air_ticks - 1;
        }
        self.air_ticks
    }

    /// Tick while the entity is above water: restores one air tick, up to `max_air`.
    pub fn tick_above_water(&mut self)
        ensures
            final(self).max_air == old(self).max_air,
            final(self).air_ticks == (if old(self).air_ticks < old(self).max_air {
                old(self).air_ticks + 1
            } else {
                old(self).air_ticks as int
            }),
    {
        if self.air_ticks < self.max_air {
            self.air_ticks = self.air_ticks + 1;
        }
    }

    /// Returns `true` when the air meter is at maximum capacity.
    pub fn is_full(&self) -> (b: bool)
        ensures
            b == (self.air_ticks == self.max_air),
    {
        self.air_ticks == self.max_air
    }

    /// Returns the bonus air ticks granted by the Respiration enchantment:
    /// 300 ticks per level.
    pub fn respiration_bonus(level: u8) -> (b: u32)
        ensures
            b == level * RESPIRATION_BONUS_PER_LEVEL,
    {
        level as u32 * RESPIRATION_BONUS_PER_LEVEL
    }
}

impl Default for AirMeter {
    fn default() -> (m: Self)
        ensures
            m.air_ticks == DEFAULT_MAX_AIR && m.max_air == DEFAULT_MAX_AIR,
    {
        Self::new()
    }
}

} // verus!
