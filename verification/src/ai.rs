//! Mob AI: the seeded choices behind wandering and idling.
use vstd::prelude::*;

verus! {

/// The AI system; its per-tick driver lives with the embedding
/// application, which owns positions and timers.
pub struct AiSystem;

/// The AI mixing hash of `a` and `b`, truncated to 32 bits.
pub open spec fn ai_hash(a: u64, b: u32) -> u32 {
    let x0 = a.wrapping_mul(6364136223846793005u64).wrapping_add(b as u64);
    let x1 = x0 ^ (x0 >> 16u64);
    let x2 = x1.wrapping_mul(0x45d9f3bu64);
    let x3 = x2 ^ (x2 >> 16u64);
    x3 as u32
}

/// A deterministic hash for varying wander directions and idle timers.
pub fn simple_hash(a: u64, b: u32) -> (h: u32)
    ensures
        h == ai_hash(a, b),
{
    let x0 = a.wrapping_mul(6364136223846793005u64).wrapping_add(b as u64);
    let x1 = x0 ^ (x0 >> 16u64);
    let x2 = x1.wrapping_mul(0x45d9f3bu64);
    let x3 = x2 ^ (x2 >> 16u64);
    x3 as u32
}

/// The horizontal offset of a wander destination from a hash: `dx` is
/// `hash % 11 - 5` and `dz` is `(hash >> 8) % 11 - 5`, each in `-5..=5`.
pub fn wander_offset(hash: u32) -> (d: (i32, i32))
    ensures
        d.0 == (hash % 11) as int - 5,
        d.1 == ((hash >> 8u32) % 11) as int - 5,
        -5 <= d.0 <= 5,
        -5 <= d.1 <= 5,
{
    let dx = (hash % 11) as i32 - 5;
    let dz = ((hash >> 8u32) % 11) as i32 - 5;
    (dx, dz)
}

/// The extra time of an idle or wander period, in hundredths of a second:
/// `hash % 300`, so periods last their base time plus up to 2.99 s.
pub fn extra_hundredths(hash: u32) -> (h: u32)
    ensures
        h == hash % 300,
        h < 300,
{
    hash % 300
}

} // verus!
