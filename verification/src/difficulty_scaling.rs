//! Difficulty-dependent switches as free functions.
use vstd::prelude::*;
use crate::difficulty::Difficulty;

verus! {

/// Returns whether natural health regeneration is enabled at the given
/// difficulty: true for all difficulties.
pub fn natural_regen_enabled(difficulty: Difficulty) -> (b: bool)
    ensures
        b,
{
    match difficulty {
        Difficulty::Peaceful => true,
        Difficulty::Easy => true,
        Difficulty::Normal => true,
        Difficulty::Hard => true,
    }
}

/// Returns whether starvation can kill the player: only on Hard.
pub fn starvation_death(difficulty: Difficulty) -> (b: bool)
    ensures
        b == (difficulty == Difficulty::Hard),
{
    matches!(difficulty, Difficulty::Hard)
}

/// Returns whether friendly fire (PvP damage) is enabled: all but Peaceful.
pub fn friendly_fire(difficulty: Difficulty) -> (b: bool)
    ensures
        b == (difficulty != Difficulty::Peaceful),
{
    !matches!(difficulty, Difficulty::Peaceful)
}

} // verus!
