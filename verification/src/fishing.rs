//! Fishing loot: fish, junk and treasure, and how luck shifts the odds.
use vstd::prelude::*;
use crate::decoration::placement_hash;

verus! {

#[derive(Debug, Clone, Copy, PartialEq, Eq, Hash, Structural)]
pub enum FishType {
    Cod,
    Salmon,
    TropicalFish,
    Pufferfish,
}

#[derive(Debug, Clone, Copy, PartialEq, Eq, Hash, Structural)]
pub enum JunkType {
    Leather,
    Stick,
    String,
    Bowl,
    Tripwire,
    RottenFlesh,
    WaterBottle,
    Bone,
    InkSac,
    LilyPad,
}

#[derive(Debug, Clone, Copy, PartialEq, Eq, Hash, Structural)]
pub enum TreasureType {
    Bow,
    FishingRod,
    EnchantedBook,
    NameTag,
    Saddle,
    Nautilus,
}

#[derive(Debug, Clone, Copy, PartialEq, Eq, Hash, Structural)]
pub enum FishingLoot {
    Fish(FishType),
    Junk(JunkType),
    Treasure(TreasureType),
}

/// What a tick of the fishing line produced.
#[derive(Debug, Clone, Copy, PartialEq, Eq, Structural)]
pub enum FishingAction {
    NoAction,
    BobberSplash,
    FishEscaped,
}

/// The fishing hash of `seed` and `tick`.
pub fn hash_u64(seed: u64, tick: u64) -> (h: u64)
    ensures
        h == placement_hash(seed, tick),
{
    crate::decoration::pseudo_random(seed, tick)
}

/// An index in `[0, count)` from `seed` and `tick`.
pub fn rand_index(seed: u64, tick: u64, count: usize) -> (i: usize)
    requires
        count > 0,
    ensures
        i == placement_hash(seed, tick) % (count as u64),
        i < count,
{
    let n = count as u64;
    (hash_u64(seed, tick) % n) as usize
}

/// The fish type at `i % 4`, in declaration order.
pub open spec fn fish_at(i: int) -> FishType {
    let k = i % 4;
    if k == 0 { FishType::Cod } else if k == 1 { FishType::Salmon }
    else if k == 2 { FishType::TropicalFish } else { FishType::Pufferfish }
}

/// The junk type at `i % 10`, in declaration order.
pub open spec fn junk_at(i: int) -> JunkType {
    let k = i % 10;
    if k == 0 { JunkType::Leather } else if k == 1 { JunkType::Stick }
    else if k == 2 { JunkType::String } else if k == 3 { JunkType::Bowl }
    else if k == 4 { JunkType::Tripwire } else if k == 5 { JunkType::RottenFlesh }
    else if k == 6 { JunkType::WaterBottle } else if k == 7 { JunkType::Bone }
    else if k == 8 { JunkType::InkSac } else { JunkType::LilyPad }
}

/// The treasure type at `i % 6`, in declaration order.
pub open spec fn treasure_at(i: int) -> TreasureType {
    let k = i % 6;
    if k == 0 { TreasureType::Bow } else if k == 1 { TreasureType::FishingRod }
    else if k == 2 { TreasureType::EnchantedBook } else if k == 3 { TreasureType::NameTag }
    else if k == 4 { TreasureType::Saddle } else { TreasureType::Nautilus }
}

/// The fish share, in units of 2^-24, for a capped luck level `l`
/// (0..=3): `(85 - l)%` as the nearest single-precision value.
pub open spec fn fish_cut(l: u8) -> int {
    if l == 0 { 14260634 } else if l == 1 { 14092861 } else if l == 2 { 13925089 } else { 13757317 }
}

/// The fish and junk shares together, in units of 2^-24, for a capped luck
/// level `l`: the single-precision sum of the fish share and
/// `(10 - 2l)%`.
pub open spec fn junk_cut(l: u8) -> int {
    if l == 0 { 15938356 } else if l == 1 { 15435038 } else if l == 2 { 14931722 } else { 14428406 }
}

/// The loot of a catch. The luck level is capped at 3; the roll is the top
/// 24 bits of the hash at `tick`. Below the fish share it is a fish picked
/// by the hash at `tick + 1`; below the fish and junk shares a junk item
/// picked at `tick + 2`; otherwise a treasure picked at `tick + 3` (tick
/// arithmetic wraps).
pub open spec fn catch_spec(luck_of_sea: u8, seed: u64, tick: u64) -> FishingLoot {
    let l: u8 = if luck_of_sea < 3 { luck_of_sea } else { 3 };
    let roll = placement_hash(seed, tick) >> 40u64;
    if roll < fish_cut(l) {
        FishingLoot::Fish(fish_at((placement_hash(seed, tick.wrapping_add(1)) % 4) as int))
    } else if roll < junk_cut(l) {
        FishingLoot::Junk(junk_at((placement_hash(seed, tick.wrapping_add(2)) % 10) as int))
    } else {
        FishingLoot::Treasure(treasure_at((placement_hash(seed, tick.wrapping_add(3)) % 6) as int))
    }
}

/// The loot of a catch when a fish is biting and the line is reeled in
/// with the given Luck of the Sea level: fish `(85 - luck)%`, junk
/// `(10 - 2 luck)%`, treasure the rest.
pub fn catch_loot(luck_of_sea: u8, seed: u64, tick: u64) -> (loot: FishingLoot)
    ensures
        loot == catch_spec(luck_of_sea, seed, tick),
{
    let l: u8 = if luck_of_sea < 3 { luck_of_sea } else { 3 };
    let (fish, junk): (u64, u64) = if l == 0 {
        (14260634, 15938356)
    } else if l == 1 {
        (14092861, 15435038)
    } else if l == 2 {
        (13925089, 14931722)
    } else {
        (13757317, 14428406)
    };
    let roll = hash_u64(seed, tick) >> 40u64;
    if roll < fish {
        let i = rand_index(seed, tick.wrapping_add(1), 4);
        let f = if i == 0 { FishType::Cod } else if i == 1 { FishType::Salmon }
            else if i == 2 { FishType::TropicalFish } else { FishType::Pufferfish };
        FishingLoot::Fish(f)
    } else if roll < junk {
        let i = rand_index(seed, tick.wrapping_add(2), 10);
        let j = if i == 0 { JunkType::Leather } else if i == 1 { JunkType::Stick }
            else if i == 2 { JunkType::String } else if i == 3 { JunkType::Bowl }
            else if i == 4 { JunkType::Tripwire } else if i == 5 { JunkType::RottenFlesh }
            else if i == 6 { JunkType::WaterBottle } else if i == 7 { JunkType::Bone }
            else if i == 8 { JunkType::InkSac } else { JunkType::LilyPad };
        FishingLoot::Junk(j)
    } else {
        let i = rand_index(seed, tick.wrapping_add(3), 6);
        let t = if i == 0 { TreasureType::Bow } else if i == 1 { TreasureType::FishingRod }
            else if i == 2 { TreasureType::EnchantedBook } else if i == 3 { TreasureType::NameTag }
            else if i == 4 { TreasureType::Saddle } else { TreasureType::Nautilus };
        FishingLoot::Treasure(t)
    }
}

/// More luck never widens the fish or junk shares: every roll that gives
/// treasure at a luck level gives treasure at any higher level.
pub proof fn lemma_luck_widens_treasure(l1: u8, l2: u8, roll: int)
    requires
        l1 <= l2 <= 3,
        roll >= junk_cut(l1),
    ensures
        roll >= junk_cut(l2),
{
}

} // verus!
