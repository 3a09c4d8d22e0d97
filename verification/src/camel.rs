//! Camel mount properties.
use vstd::prelude::*;

verus! {

/// A camel carries at most two riders.
pub fn camel_max_passengers() -> (r: u8)
    ensures
        r == 2,
{
    2
}

} // verus!
