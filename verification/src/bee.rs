//! Bee stingers and hive occupancy.
use vstd::prelude::*;

verus! {

/// Number of ticks a bee survives after losing its stinger.
pub const DEATH_TICKS_AFTER_STING: u32 = 60;

/// Maximum honey level a hive can hold.
pub const MAX_HONEY_LEVEL: u8 = 5;

/// Maximum number of bees a single hive can house.
pub const MAX_BEES_PER_HIVE: u8 = 3;

/// The internal state of a single bee.
#[derive(Debug, Clone, PartialEq, Eq)]
pub struct BeeState {
    /// Whether the bee is currently carrying pollen.
    pub has_pollen: bool,
    /// Remaining anger ticks (> 0 means the bee is hostile).
    pub anger_ticks: u32,
    /// Position of the bee's home hive, if any.
    pub hive_pos: Option<(i32, i32, i32)>,
}

impl BeeState {
    /// Create a new bee with no pollen, no anger, and no hive.
    pub fn new() -> (b: Self)
        ensures
            !b.has_pollen,
            b.anger_ticks == 0,
            b.hive_pos is None,
    {
        Self { has_pollen: false, anger_ticks: 0, hive_pos: None }
    }

    /// Create a new bee associated with the given hive position.
    pub fn with_hive(hive_pos: (i32, i32, i32)) -> (b: Self)
        ensures
            !b.has_pollen,
            b.anger_ticks == 0,
            b.hive_pos == Some(hive_pos),
    {
        Self { has_pollen: false, anger_ticks: 0, hive_pos: Some(hive_pos) }
    }

    /// Returns `true` if the bee is currently angry.
    pub fn is_angry(&self) -> (b: bool)
        ensures
            b == (self.anger_ticks > 0),
    {
        self.anger_ticks > 0
    }
}

/// What the bee AI does in a tick, apart from the sting target's position.
#[derive(Debug, Clone, Copy, PartialEq, Eq, Structural)]
pub enum BeeChoice {
    Pollinate,
    ReturnToHive,
    Sting,
    Wander,
}

/// The bee's choice for a tick, by priority: sting when angry and a target
/// exists, return to the hive when carrying pollen and having a hive,
/// pollinate when not carrying pollen and flowers are nearby, else wander.
pub fn bee_choice(state: &BeeState, has_flowers_nearby: bool, has_target: bool) -> (c: BeeChoice)
    ensures
        c == (if state.anger_ticks > 0 && has_target {
            BeeChoice::Sting
        } else if state.has_pollen && state.hive_pos is Some {
            BeeChoice::ReturnToHive
        } else if !state.has_pollen && has_flowers_nearby {
            BeeChoice::Pollinate
        } else {
            BeeChoice::Wander
        }),
{
    if state.is_angry() && has_target {
        return BeeChoice::Sting;
    }
    if state.has_pollen && state.hive_pos.is_some() {
        return BeeChoice::ReturnToHive;
    }
    if !state.has_pollen && has_flowers_nearby {
        return BeeChoice::Pollinate;
    }
    BeeChoice::Wander
}

/// Determines the tick at which a bee dies after losing its stinger: a bee
/// that has stung lives exactly 60 more ticks; one that has not has no
/// scheduled death.
pub fn lose_stinger(has_stung: bool) -> (r: Option<u32>)
    ensures
        r == (if has_stung { Some(DEATH_TICKS_AFTER_STING) } else { None }),
{
    if has_stung {
        Some(DEATH_TICKS_AFTER_STING)
    } else {
        None
    }
}

/// The state of a bee hive / nest block.
#[derive(Debug, Clone, PartialEq, Eq, Structural)]
pub struct HiveState {
    /// Number of bees currently inside the hive.
    pub bees: u8,
    /// Current honey level (0..=5).
    pub honey_level: u8,
}

impl HiveState {
    /// Create an empty hive.
    pub fn new() -> (h: Self)
        ensures
            h.bees == 0 && h.honey_level == 0,
    {
        Self { bees: 0, honey_level: 0 }
    }

    /// Returns `true` if the hive is full of honey (level 5).
    pub fn is_full(&self) -> (b: bool)
        ensures
            b == (self.honey_level >= MAX_HONEY_LEVEL),
    {
        self.honey_level >= MAX_HONEY_LEVEL
    }

    /// Returns `true` if the hive can accept another bee.
    pub fn can_accept_bee(&self) -> (b: bool)
        ensures
            b == (self.bees < MAX_BEES_PER_HIVE),
    {
        self.bees < MAX_BEES_PER_HIVE
    }

    /// A bee enters the hive carrying pollen: one more bee and one more
    /// honey level (capped at 5), or `None` if the hive holds three bees.
    pub fn bee_enters_with_pollen(&self) -> (r: Option<HiveState>)
        ensures
            match r {
                Some(h) => self.bees < MAX_BEES_PER_HIVE && h.bees == self.bees + 1
                    && h.honey_level == (if self.honey_level + 1 < MAX_HONEY_LEVEL { self.honey_level + 1 } else { MAX_HONEY_LEVEL as int }),
                None => self.bees >= MAX_BEES_PER_HIVE,
            },
    {
        if !self.can_accept_bee() {
            return None;
        }
        let level = if self.honey_level < MAX_HONEY_LEVEL - 1 { self.honey_level + 1 } else { MAX_HONEY_LEVEL };
        Some(HiveState { bees: self.bees + 1, honey_level: level })
    }

    /// A bee exits the hive: one bee fewer, or `None` if no bees are inside.
    pub fn bee_exits(&self) -> (r: Option<HiveState>)
        ensures
            match r {
                Some(h) => self.bees > 0 && h.bees == self.bees - 1 && h.honey_level == self.honey_level,
                None => self.bees == 0,
            },
    {
        if self.bees == 0 {
            return None;
        }
        Some(HiveState { bees: self.bees - 1, honey_level: self.honey_level })
    }
}

} // verus!
