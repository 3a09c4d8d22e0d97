//! Movement particle rules.
use vstd::prelude::*;

verus! {

/// Sneaking hides the movement particles of the player.
pub fn sneak_suppresses_particles() -> (r: bool)
    ensures
        r,
{
    true
}

} // verus!
