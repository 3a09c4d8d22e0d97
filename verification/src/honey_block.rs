//! Honey block properties.
use vstd::prelude::*;

verus! {

/// Honey blocks hold entities that touch their sides.
pub fn honey_sticks_entities() -> (r: bool)
    ensures
        r,
{
    true
}

} // verus!
