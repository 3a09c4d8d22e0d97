//! Hostile mob equipment: armor tiers by difficulty, armor sets, the
//! per-slot rolls of zombies and skeletons, and weapons.
use vstd::prelude::*;
use crate::loot::{splitmix, split_out};
use vstd::arithmetic::div_mod::lemma_div_denominator;

verus! {

/// Equipment worn by a hostile mob; each slot holds a raw item id or is
/// empty.
#[derive(Debug, Clone, Copy, PartialEq, Eq, Default, Structural)]
pub struct MobEquipment {
    pub helmet: Option<u16>,
    pub chestplate: Option<u16>,
    pub leggings: Option<u16>,
    pub boots: Option<u16>,
    pub weapon: Option<u16>,
}

pub const ITEM_LEATHER_HELMET: u16 = 300;
pub const ITEM_LEATHER_CHESTPLATE: u16 = 301;
pub const ITEM_LEATHER_LEGGINGS: u16 = 302;
pub const ITEM_LEATHER_BOOTS: u16 = 303;

pub const ITEM_CHAIN_HELMET: u16 = 310;
pub const ITEM_CHAIN_CHESTPLATE: u16 = 311;
pub const ITEM_CHAIN_LEGGINGS: u16 = 312;
pub const ITEM_CHAIN_BOOTS: u16 = 313;

pub const ITEM_IRON_HELMET: u16 = 320;
pub const ITEM_IRON_CHESTPLATE: u16 = 321;
pub const ITEM_IRON_LEGGINGS: u16 = 322;
pub const ITEM_IRON_BOOTS: u16 = 323;

pub const ITEM_GOLD_HELMET: u16 = 330;
pub const ITEM_GOLD_CHESTPLATE: u16 = 331;
pub const ITEM_GOLD_LEGGINGS: u16 = 332;
pub const ITEM_GOLD_BOOTS: u16 = 333;

pub const ITEM_DIAMOND_HELMET: u16 = 340;
pub const ITEM_DIAMOND_CHESTPLATE: u16 = 341;
pub const ITEM_DIAMOND_LEGGINGS: u16 = 342;
pub const ITEM_DIAMOND_BOOTS: u16 = 343;

pub const ITEM_IRON_SWORD: u16 = 400;
pub const ITEM_BOW: u16 = 500;
pub const ITEM_CROSSBOW: u16 = 4001;

/// Difficulty numbering used by mob equipment: 0 peaceful, 1 easy,
/// 2 normal, 3 and above hard.
pub const DIFF_PEACEFUL: u8 = 0;
pub const DIFF_EASY: u8 = 1;
pub const DIFF_NORMAL: u8 = 2;
pub const DIFF_HARD: u8 = 3;

impl MobEquipment {
    /// An equipment set with every slot empty.
    pub fn empty() -> (e: Self)
        ensures
            e.helmet is None,
            e.chestplate is None,
            e.leggings is None,
            e.boots is None,
            e.weapon is None,
    {
        Self { helmet: None, chestplate: None, leggings: None, boots: None, weapon: None }
    }
}

/// The armor tier (0 leather, 1 chain, 2 iron, 3 gold, 4 diamond) for a
/// roll in `0..100`: easier difficulties are mostly leather, harder ones
/// lean toward the better tiers.
pub open spec fn tier_for_roll(roll: int, difficulty: u8) -> u8 {
    if difficulty <= DIFF_EASY {
        if roll < 90 { 0 } else { 1 }
    } else if difficulty == DIFF_NORMAL {
        if roll <= 36 { 0 } else if roll <= 62 { 1 } else if roll <= 86 { 2 } else if roll <= 96 { 3 } else { 4 }
    } else {
        if roll <= 14 { 0 } else if roll <= 34 { 1 } else if roll <= 64 { 2 } else if roll <= 79 { 3 } else { 4 }
    }
}

/// Deterministic armor tier for a spawn seed: the roll is the seed's
/// splitmix output modulo 100.
pub fn armor_tier_for_difficulty(seed: u64, difficulty: u8) -> (t: u8)
    ensures
        t == tier_for_roll((split_out(seed) % 100) as int, difficulty),
        t <= 4,
{
    let mut state = seed;
    let x = splitmix(&mut state);
    let roll = (x % 100) as u8;
    if difficulty == DIFF_PEACEFUL || difficulty == DIFF_EASY {
        if roll < 90 { 0 } else { 1 }
    } else if difficulty == DIFF_NORMAL {
        if roll <= 36 { 0 } else if roll <= 62 { 1 } else if roll <= 86 { 2 } else if roll <= 96 { 3 } else { 4 }
    } else {
        if roll <= 14 { 0 } else if roll <= 34 { 1 } else if roll <= 64 { 2 } else if roll <= 79 { 3 } else { 4 }
    }
}

/// The four armor item ids (helmet, chestplate, leggings, boots) of a tier;
/// tiers above 3 are diamond.
pub open spec fn armor_set_spec(tier: u8) -> (u16, u16, u16, u16) {
    if tier == 0 {
        (ITEM_LEATHER_HELMET, ITEM_LEATHER_CHESTPLATE, ITEM_LEATHER_LEGGINGS, ITEM_LEATHER_BOOTS)
    } else if tier == 1 {
        (ITEM_CHAIN_HELMET, ITEM_CHAIN_CHESTPLATE, ITEM_CHAIN_LEGGINGS, ITEM_CHAIN_BOOTS)
    } else if tier == 2 {
        (ITEM_IRON_HELMET, ITEM_IRON_CHESTPLATE, ITEM_IRON_LEGGINGS, ITEM_IRON_BOOTS)
    } else if tier == 3 {
        (ITEM_GOLD_HELMET, ITEM_GOLD_CHESTPLATE, ITEM_GOLD_LEGGINGS, ITEM_GOLD_BOOTS)
    } else {
        (ITEM_DIAMOND_HELMET, ITEM_DIAMOND_CHESTPLATE, ITEM_DIAMOND_LEGGINGS, ITEM_DIAMOND_BOOTS)
    }
}

/// The four armor item ids (helmet, chestplate, leggings, boots) of a tier.
pub fn armor_set_for_tier(tier: u8) -> (s: (u16, u16, u16, u16))
    ensures
        s == armor_set_spec(tier),
{
    match tier {
        0 => (ITEM_LEATHER_HELMET, ITEM_LEATHER_CHESTPLATE, ITEM_LEATHER_LEGGINGS, ITEM_LEATHER_BOOTS),
        1 => (ITEM_CHAIN_HELMET, ITEM_CHAIN_CHESTPLATE, ITEM_CHAIN_LEGGINGS, ITEM_CHAIN_BOOTS),
        2 => (ITEM_IRON_HELMET, ITEM_IRON_CHESTPLATE, ITEM_IRON_LEGGINGS, ITEM_IRON_BOOTS),
        3 => (ITEM_GOLD_HELMET, ITEM_GOLD_CHESTPLATE, ITEM_GOLD_LEGGINGS, ITEM_GOLD_BOOTS),
        _ => (ITEM_DIAMOND_HELMET, ITEM_DIAMOND_CHESTPLATE, ITEM_DIAMOND_LEGGINGS, ITEM_DIAMOND_BOOTS),
    }
}

/// The slot-roll mixing hash of a spawn seed under a salt: the seed xored
/// with the salt times a constant, then three rounds of xor-shift by 33
/// around multiplications, all modulo 2^64.
pub open spec fn unit_mix(seed: u64, salt: u64) -> u64 {
    let x0 = seed ^ salt.wrapping_mul(0xD1B5_4A32_D192_ED03u64);
    let x1 = x0 ^ (x0 >> 33u64);
    let x2 = x1.wrapping_mul(0xFF51_AFD7_ED55_8CCDu64);
    let x3 = x2 ^ (x2 >> 33u64);
    let x4 = x3.wrapping_mul(0xC4CE_B9FE_1A85_EC53u64);
    x4 ^ (x4 >> 33u64)
}

/// The top 24 bits of the slot-roll hash: the roll is the fraction
/// `bits / 2^24` in `[0, 1)`.
pub fn unit_bits(seed: u64, salt: u64) -> (k: u32)
    ensures
        k == unit_mix(seed, salt) >> 40u64,
        k < 0x0100_0000,
{
    let x0 = seed ^ salt.wrapping_mul(0xD1B5_4A32_D192_ED03u64);
    let x1 = x0 ^ (x0 >> 33u64);
    let x2 = x1.wrapping_mul(0xFF51_AFD7_ED55_8CCDu64);
    let x3 = x2 ^ (x2 >> 33u64);
    let x4 = x3.wrapping_mul(0xC4CE_B9FE_1A85_EC53u64);
    let x5 = x4 ^ (x4 >> 33u64);
    let top = x5 >> 40u64;
    assert(top < 0x0100_0000) by (bit_vector)
        requires top == x5 >> 40u64;
    top as u32
}

/// `2^n`.
pub open spec fn two_to(n: nat) -> nat
    decreases n,
{
    if n == 0 { 1 } else { 2 * two_to((n - 1) as nat) }
}

/// How many low bits of `p` fall below its 24 most significant bits.
pub open spec fn sig_shift(p: nat) -> nat
    decreases p,
{
    if p < 0x0100_0000 { 0 } else { 1 + sig_shift(p / 2) }
}

/// `p` rounded to 24 significant bits, ties to even: how a single-precision
/// float rounds a positive value `p / 2^e` to `round_sig24(p) / 2^e`.
pub open spec fn round_sig24(p: nat) -> nat {
    let d = two_to(sig_shift(p));
    let q = p / d;
    let r = p % d;
    if 2 * r > d || (2 * r == d && q % 2 == 1) { (q + 1) * d } else { q * d }
}

/// The least integer not below the single-precision product of the float
/// `c / 2^e` and the integer `m`.
pub open spec fn product_ceil(c: nat, e: nat, m: nat) -> nat {
    ((round_sig24(c * m) + two_to(e) - 1) as nat / two_to(e)) as nat
}

/// Powers of two double.
proof fn lemma_two_to_step(n: nat)
    ensures
        two_to(n + 1) == 2 * two_to(n),
        two_to(n) >= 1,
    decreases n,
{
    if n > 0 {
        lemma_two_to_step((n - 1) as nat);
    }
}

/// Powers of two grow with the exponent.
proof fn lemma_two_to_monotonic(a: nat, b: nat)
    requires
        a <= b,
    ensures
        two_to(a) <= two_to(b),
    decreases b - a,
{
    if a < b {
        lemma_two_to_monotonic(a, (b - 1) as nat);
        lemma_two_to_step((b - 1) as nat);
    }
}

/// The least integer not below the single-precision product of the float
/// `c / 2^e` (with a 24-bit `c`) and a 24-bit integer `m`.
fn f32_product_ceil(c: u64, e: u32, m: u64) -> (r: u64)
    requires
        c < 0x0100_0000,
        m < 0x0100_0000,
        e < 40,
    ensures
        r == product_ceil(c as nat, e as nat, m as nat),
{
    assert(c * m < 0x1_0000_0000_0000) by (nonlinear_arith)
        requires c < 0x0100_0000, m < 0x0100_0000;
    let p: u64 = c * m;
    let mut d: u64 = 1;
    let mut s: u32 = 0;
    proof {
        assert(two_to(0) == 1);
    }
    while p / d >= 0x0100_0000
        invariant
            p < 0x1_0000_0000_0000,
            d == two_to(s as nat),
            1 <= d <= 0x0200_0000,
            s < d,
            sig_shift(p as nat) == s + sig_shift((p / d) as nat),
        decreases p / d,
    {
        proof {
            lemma_two_to_step(s as nat);
            lemma_div_denominator(p as int, d as int, 2);
            vstd::arithmetic::div_mod::lemma_fundamental_div_mod(p as int, d as int);
            assert(d * 0x0100_0000 <= p) by (nonlinear_arith)
                requires p / d >= 0x0100_0000, d >= 1, d * (p / d) <= p;
            assert((p / d) / 2 < p / d);
        }
        d = d * 2;
        s = s + 1;
    }
    let q = p / d;
    let rem = p % d;
    assert((q + 1) * d <= 0x2_0000_0000_0000 && q * d <= (q + 1) * d) by (nonlinear_arith)
        requires q < 0x0100_0000, d <= 0x0200_0000;
    let rounded: u64 = if 2 * rem > d || (2 * rem == d && q % 2 == 1) { (q + 1) * d } else { q * d };
    let mut scale: u64 = 1;
    let mut i: u32 = 0;
    proof {
        reveal_with_fuel(two_to, 40);
        assert(two_to(39) == 0x80_0000_0000);
    }
    while i < e
        invariant
            i <= e,
            e < 40,
            scale == two_to(i as nat),
            two_to(39) == 0x80_0000_0000,
        decreases e - i,
    {
        proof {
            lemma_two_to_step(i as nat);
            lemma_two_to_monotonic((i + 1) as nat, 39);
        }
        scale = scale * 2;
        i = i + 1;
    }
    proof {
        lemma_two_to_step(i as nat);
        lemma_two_to_monotonic(i as nat, 39);
    }
    (rounded + scale - 1) / scale
}

/// Salt of the roll from which a zombie's regional difficulty is derived.
pub const REGIONAL_SALT: u64 = 0xA11CE_C0FFEE;

/// The bound below which a 24-bit slot roll puts an armor piece on: the
/// armor chance is 0.0005 on peaceful, 0 on easy, and `0.025 r` on normal
/// and `0.075 r` on hard (single-precision products), `r` being the
/// regional difficulty `regional / 2^24`; a roll `k / 2^24` is below the
/// chance exactly when `k` is below this bound.
pub open spec fn armor_threshold(difficulty: u8, regional: nat) -> nat {
    if difficulty == DIFF_PEACEFUL {
        8389
    } else if difficulty == DIFF_EASY {
        0
    } else if difficulty == DIFF_NORMAL {
        product_ceil(13421773, 29, regional)
    } else {
        product_ceil(10066330, 27, regional)
    }
}

/// The bound below which a 24-bit roll gives the iron sword: the chance is
/// 0.05 on peaceful and easy, `0.15 r` on normal and `0.25 r` on hard.
pub open spec fn weapon_threshold(difficulty: u8, regional: nat) -> nat {
    if difficulty <= DIFF_EASY {
        838861
    } else if difficulty == DIFF_NORMAL {
        product_ceil(10066330, 26, regional)
    } else {
        product_ceil(1, 2, regional)
    }
}

/// The armor item of a slot when its roll (salted by the slot number) is
/// below the armor bound.
pub open spec fn slot_roll(seed: u64, salt: u64, difficulty: u8, item: u16) -> Option<u16> {
    if (unit_mix(seed, salt) >> 40u64) < armor_threshold(difficulty, (unit_mix(seed, REGIONAL_SALT) >> 40u64) as nat) {
        Some(item)
    } else {
        None
    }
}

/// The armor a zombie or skeleton spawned from `seed` wears: the armor set
/// of its tier, each slot (helmet 1, chestplate 2, leggings 3, boots 4)
/// rolled on its own.
pub open spec fn rolled_armor(seed: u64, difficulty: u8) -> (Option<u16>, Option<u16>, Option<u16>, Option<u16>) {
    let set = armor_set_spec(tier_for_roll((split_out(seed) % 100) as int, difficulty));
    (
        slot_roll(seed, 1, difficulty, set.0),
        slot_roll(seed, 2, difficulty, set.1),
        slot_roll(seed, 3, difficulty, set.2),
        slot_roll(seed, 4, difficulty, set.3),
    )
}

/// The armor piece of one slot.
fn roll_slot(seed: u64, salt: u64, armor_bound: u64, item: u16) -> (r: Option<u16>)
    ensures
        r == (if (unit_mix(seed, salt) >> 40u64) < armor_bound { Some(item) } else { None::<u16> }),
{
    if (unit_bits(seed, salt) as u64) < armor_bound {
        Some(item)
    } else {
        None
    }
}

/// Equip a zombie: the armor of [`rolled_armor`], and an iron sword when
/// the roll salted 5 is below the weapon bound. Easy zombies never wear
/// armor.
pub fn equip_zombie(seed: u64, difficulty: u8) -> (e: MobEquipment)
    ensures
        (e.helmet, e.chestplate, e.leggings, e.boots) == rolled_armor(seed, difficulty),
        e.weapon == (if (unit_mix(seed, 5) >> 40u64) < weapon_threshold(
            difficulty,
            (unit_mix(seed, REGIONAL_SALT) >> 40u64) as nat,
        ) {
            Some(ITEM_IRON_SWORD)
        } else {
            None
        }),
        difficulty == DIFF_EASY ==> e.helmet is None && e.chestplate is None && e.leggings is None
            && e.boots is None,
{
    let regional = unit_bits(seed, REGIONAL_SALT) as u64;
    let armor_bound: u64 = if difficulty == DIFF_PEACEFUL {
        8389
    } else if difficulty == DIFF_EASY {
        0
    } else if difficulty == DIFF_NORMAL {
        f32_product_ceil(13421773, 29, regional)
    } else {
        f32_product_ceil(10066330, 27, regional)
    };
    let tier = armor_tier_for_difficulty(seed, difficulty);
    let (helmet, chestplate, leggings, boots) = armor_set_for_tier(tier);
    let weapon_bound: u64 = if difficulty <= DIFF_EASY {
        838861
    } else if difficulty == DIFF_NORMAL {
        f32_product_ceil(10066330, 26, regional)
    } else {
        f32_product_ceil(1, 2, regional)
    };
    let weapon = if (unit_bits(seed, 5) as u64) < weapon_bound { Some(ITEM_IRON_SWORD) } else { None };
    MobEquipment {
        helmet: roll_slot(seed, 1, armor_bound, helmet),
        chestplate: roll_slot(seed, 2, armor_bound, chestplate),
        leggings: roll_slot(seed, 3, armor_bound, leggings),
        boots: roll_slot(seed, 4, armor_bound, boots),
        weapon,
    }
}

/// Equip a skeleton: a zombie's armor rolls, and always a bow.
pub fn equip_skeleton(seed: u64, difficulty: u8) -> (e: MobEquipment)
    ensures
        (e.helmet, e.chestplate, e.leggings, e.boots) == rolled_armor(seed, difficulty),
        e.weapon == Some(ITEM_BOW),
{
    let mut eq = equip_zombie(seed, difficulty);
    eq.weapon = Some(ITEM_BOW);
    eq
}

/// Equip a pillager: a crossbow and no armor, whatever the seed.
pub fn equip_pillager(seed: u64) -> (e: MobEquipment)
    ensures
        e.weapon == Some(ITEM_CROSSBOW),
        e.helmet is None,
        e.chestplate is None,
        e.leggings is None,
        e.boots is None,
{
    let _ = seed;
    MobEquipment { weapon: Some(ITEM_CROSSBOW), ..MobEquipment::empty() }
}

} // verus!
