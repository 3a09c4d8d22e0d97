//! Game modes and the rule flags each one carries.
use vstd::prelude::*;

verus! {

/// The four game modes.
#[derive(Debug, Clone, Copy, PartialEq, Eq, Structural)]
pub enum GameMode {
    Survival,
    Creative,
    Spectator,
    Adventure,
}

/// Query-only trait that maps each game mode to its property flags.
///
/// Every property is a pure function of the mode.
pub trait GameModeProperties {
    fn can_fly(&self) -> bool;
    fn instant_break(&self) -> bool;
    fn invincible(&self) -> bool;
    fn has_hunger(&self) -> bool;
    fn can_interact(&self) -> bool;
    fn no_clip(&self) -> bool;
    fn infinite_items(&self) -> bool;
    fn can_take_damage(&self) -> bool;
    fn show_health(&self) -> bool;
    fn natural_regen(&self) -> bool;
}

impl GameModeProperties for GameMode {
    /// Creative and Spectator can fly.
    fn can_fly(&self) -> (b: bool)
        ensures
            b == (*self == GameMode::Creative || *self == GameMode::Spectator),
    {
        matches!(self, GameMode::Creative | GameMode::Spectator)
    }

    /// Only Creative breaks blocks instantly.
    fn instant_break(&self) -> (b: bool)
        ensures
            b == (*self == GameMode::Creative),
    {
        matches!(self, GameMode::Creative)
    }

    /// Creative and Spectator are invincible.
    fn invincible(&self) -> (b: bool)
        ensures
            b == (*self == GameMode::Creative || *self == GameMode::Spectator),
    {
        matches!(self, GameMode::Creative | GameMode::Spectator)
    }

    /// Survival and Adventure have hunger.
    fn has_hunger(&self) -> (b: bool)
        ensures
            b == (*self == GameMode::Survival || *self == GameMode::Adventure),
    {
        matches!(self, GameMode::Survival | GameMode::Adventure)
    }

    /// Every mode but Spectator can interact with the world.
    fn can_interact(&self) -> (b: bool)
        ensures
            b == (*self != GameMode::Spectator),
    {
        matches!(self, GameMode::Survival | GameMode::Creative | GameMode::Adventure)
    }

    /// Only Spectator passes through blocks.
    fn no_clip(&self) -> (b: bool)
        ensures
            b == (*self == GameMode::Spectator),
    {
        matches!(self, GameMode::Spectator)
    }

    /// Only Creative has infinite items.
    fn infinite_items(&self) -> (b: bool)
        ensures
            b == (*self == GameMode::Creative),
    {
        matches!(self, GameMode::Creative)
    }

    /// Survival and Adventure take damage.
    fn can_take_damage(&self) -> (b: bool)
        ensures
            b == (*self == GameMode::Survival || *self == GameMode::Adventure),
    {
        matches!(self, GameMode::Survival | GameMode::Adventure)
    }

    /// Survival and Adventure show the health bar.
    fn show_health(&self) -> (b: bool)
        ensures
            b == (*self == GameMode::Survival || *self == GameMode::Adventure),
    {
        matches!(self, GameMode::Survival | GameMode::Adventure)
    }

    /// Only Survival regenerates health naturally.
    fn natural_regen(&self) -> (b: bool)
        ensures
            b == (*self == GameMode::Survival),
    {
        matches!(self, GameMode::Survival)
    }
}

} // verus!
