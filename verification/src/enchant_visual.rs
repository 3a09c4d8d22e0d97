//! Enchantment glow rule.
use vstd::prelude::*;

verus! {

/// An item shimmers when it carries at least one enchantment.
pub fn has_enchant_glow(enchant_count: u8) -> (r: bool)
    ensures
        r == (enchant_count > 0),
{
    enchant_count > 0
}

} // verus!
