//! Goat ramming rules.
use vstd::prelude::*;

verus! {

/// A ramming goat drops a horn exactly when it hits a log.
pub fn drops_horn_on_ram(hit_log: bool) -> (r: bool)
    ensures
        r == hit_log,
{
    hit_log
}

} // verus!
