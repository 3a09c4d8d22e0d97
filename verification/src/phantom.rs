//! Phantom spawning rule.
use vstd::prelude::*;

verus! {

/// Ticks without sleep after which phantoms start to spawn (three in-game days).
pub const SPAWN_THRESHOLD_TICKS: u64 = 72_000;

/// Whether enough ticks have passed without the player sleeping for phantoms to spawn.
pub fn should_spawn(ticks_since_sleep: u64) -> (r: bool)
    ensures
        r == (ticks_since_sleep >= SPAWN_THRESHOLD_TICKS),
{
    ticks_since_sleep >= SPAWN_THRESHOLD_TICKS
}

} // verus!
