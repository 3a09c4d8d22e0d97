//! Dragon breath item.
use vstd::prelude::*;

verus! {

/// Item id of the dragon breath bottle.
pub fn dragon_breath_item_id() -> (r: u16)
    ensures
        r == 9300,
{
    9300
}

} // verus!
