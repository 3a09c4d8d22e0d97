//! Breeding age rules.
use vstd::prelude::*;

verus! {

/// Seconds a parent waits after breeding before it can breed again.
pub const BREED_COOLDOWN_SECS: u32 = 300;

/// The age in ticks a baby starts at; it grows up when the age reaches zero.
pub const BABY_START_AGE: i32 = -24000;

/// Whether an animal with the given age in ticks (negative for babies) is an adult.
pub fn is_adult(age_ticks: i32) -> (r: bool)
    ensures
        r == (age_ticks >= 0),
{
    age_ticks >= 0
}

} // verus!
