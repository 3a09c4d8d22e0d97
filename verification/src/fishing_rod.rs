//! The fishing rod minigame: events and what a reeled-in bite yields.
use vstd::prelude::*;

verus! {

/// Item ids of what a successful reel can yield.
pub const ITEM_LURE: u16 = 3030;
pub const ITEM_COD: u16 = 3015;
pub const ITEM_SALMON: u16 = 3017;
pub const ITEM_CLOWNFISH: u16 = 3031;
pub const ITEM_PUFFERFISH: u16 = 3032;

/// High-level state transition reported each tick.
#[derive(Debug, Clone, Copy, PartialEq, Eq, Structural)]
pub enum FishingEvent {
    NotCast,
    Casting,
    Waiting,
    Biting,
    Caught(u16),
    Lost,
}

/// The 64-bit finalizer mix: three xor-shifts by 33 around two
/// multiplications, modulo 2^64.
pub open spec fn fmix(x: u64) -> u64 {
    let a = x ^ (x >> 33u64);
    let b = a.wrapping_mul(0xff51_afd7_ed55_8ccdu64);
    let c = b ^ (b >> 33u64);
    let d = c.wrapping_mul(0xc4ce_b9fe_1a85_ec53u64);
    d ^ (d >> 33u64)
}

/// The finalizer mix of `x`.
pub fn hash_u64(x: u64) -> (h: u64)
    ensures
        h == fmix(x),
{
    let a = x ^ (x >> 33u64);
    let b = a.wrapping_mul(0xff51_afd7_ed55_8ccdu64);
    let c = b ^ (b >> 33u64);
    let d = c.wrapping_mul(0xc4ce_b9fe_1a85_ec53u64);
    d ^ (d >> 33u64)
}

/// The item for a roll in `0..100`: 5% pufferfish, 5% clownfish, 5% lure,
/// 40% salmon, 45% cod.
pub open spec fn item_for_roll(roll: int) -> u16 {
    if roll <= 4 { ITEM_PUFFERFISH }
    else if roll <= 9 { ITEM_CLOWNFISH }
    else if roll <= 14 { ITEM_LURE }
    else if roll <= 54 { ITEM_SALMON }
    else { ITEM_COD }
}

/// What reeling in yields: with a bite, the item for the roll
/// `fmix(seed ^ 0x9E3779B97F4A7C15) % 100`; without one, nothing.
pub fn reel_catch(has_bite: bool, seed: u64) -> (r: Option<u16>)
    ensures
        r == (if has_bite {
            Some(item_for_roll((fmix(seed ^ 0x9E37_79B9_7F4A_7C15u64) % 100) as int))
        } else {
            None
        }),
{
    if has_bite {
        let h = hash_u64(seed ^ 0x9E37_79B9_7F4A_7C15u64);
        let roll = h % 100;
        let item = if roll <= 4 {
            ITEM_PUFFERFISH
        } else if roll <= 9 {
            ITEM_CLOWNFISH
        } else if roll <= 14 {
            ITEM_LURE
        } else if roll <= 54 {
            ITEM_SALMON
        } else {
            ITEM_COD
        };
        Some(item)
    } else {
        None
    }
}

} // verus!
