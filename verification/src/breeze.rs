//! Breeze mob properties.
use vstd::prelude::*;

verus! {

/// Breezes deflect every projectile.
pub fn breeze_is_immune_to_projectiles() -> (r: bool)
    ensures
        r,
{
    true
}

} // verus!
