//! Horse-like mounts: variants, chest inventories, riders and stat seeds.
use vstd::prelude::*;

verus! {

/// All horse-like mob variants.
#[derive(Debug, Clone, Copy, PartialEq, Eq, Hash, Structural)]
pub enum HorseVariant {
    Horse,
    Donkey,
    Mule,
    Llama,
    SkeletonHorse,
    ZombieHorse,
}

/// Whether a variant needs a saddle to be ridden (undead horses do not).
pub open spec fn needs_saddle(variant: HorseVariant) -> bool {
    !(variant == HorseVariant::SkeletonHorse || variant == HorseVariant::ZombieHorse)
}

/// Inventory attached to a horse-like entity: saddle, optional armor item,
/// and up to fifteen chest slots once a chest is attached.
#[derive(Debug, Clone, PartialEq)]
pub struct HorseInventory {
    pub saddle: bool,
    pub armor: Option<u16>,
    pub chest: bool,
    pub slots: Vec<Option<(u16, u8)>>,
}

impl HorseInventory {
    /// Maximum number of chest slots available on a donkey or llama.
    pub const MAX_CHEST_SLOTS: usize = 15;

    /// An empty inventory: no saddle, no armor, no chest.
    pub fn new() -> (inv: Self)
        ensures
            !inv.saddle,
            inv.armor is None,
            !inv.chest,
            inv.slots@.len() == 0,
    {
        Self { saddle: false, armor: None, chest: false, slots: Vec::new() }
    }

    /// Attach a chest with `min(slot_count, 15)` empty slots; the saddle and
    /// armor stay as they were.
    pub fn attach_chest(&mut self, slot_count: usize)
        ensures
            final(self).chest,
            final(self).saddle == old(self).saddle,
            final(self).armor == old(self).armor,
            final(self).slots@.len() == (if slot_count < 15 { slot_count as int } else { 15 }),
            forall|i: int| 0 <= i < final(self).slots@.len() ==> (#[trigger] final(self).slots@[i]) is None,
    {
        let count = if slot_count < Self::MAX_CHEST_SLOTS { slot_count } else { Self::MAX_CHEST_SLOTS };
        let mut slots: Vec<Option<(u16, u8)>> = Vec::new();
        let mut i: usize = 0;
        while i < count
            invariant
                i <= count,
                slots@.len() == i,
                forall|k: int| 0 <= k < slots@.len() ==> (#[trigger] slots@[k]) is None,
            decreases count - i,
        {
            slots.push(None);
            i = i + 1;
        }
        self.chest = true;
        self.slots = slots;
    }
}

impl Default for HorseInventory {
    fn default() -> (inv: Self)
        ensures
            !inv.saddle,
            inv.armor is None,
            !inv.chest,
            inv.slots@.len() == 0,
    {
        Self::new()
    }
}

/// A rideable horse-like entity. Its stat block (speed, jump strength,
/// health) is a parameter, since the stats are fractional values kept by
/// the embedding application.
#[derive(Debug, Clone)]
pub struct Horse<S> {
    pub variant: HorseVariant,
    pub stats: S,
    pub inventory: HorseInventory,
    /// Entity id of the rider, if any.
    pub rider: Option<u64>,
}

impl<S> Horse<S> {
    /// A new horse with the given variant and stats, an empty inventory and
    /// no rider.
    pub fn new(variant: HorseVariant, stats: S) -> (h: Self)
        ensures
            h.variant == variant,
            h.stats == stats,
            !h.inventory.saddle,
            h.inventory.armor is None,
            !h.inventory.chest,
            h.inventory.slots@.len() == 0,
            h.rider is None,
    {
        Self { variant, stats, inventory: HorseInventory::new(), rider: None }
    }

    /// Mount a rider: refused (`false`, nothing changes) when the horse is
    /// already ridden, or when it needs a saddle and has none; otherwise
    /// the rider is recorded and `true` returned.
    pub fn mount(&mut self, entity_id: u64) -> (ok: bool)
        ensures
            ok == (old(self).rider is None && (!needs_saddle(old(self).variant) || old(self).inventory.saddle)),
            final(self).rider == (if ok { Some(entity_id) } else { old(self).rider }),
            final(self).variant == old(self).variant,
            final(self).stats == old(self).stats,
            final(self).inventory == old(self).inventory,
    {
        if self.rider.is_some() {
            return false;
        }
        let needs = !matches!(self.variant, HorseVariant::SkeletonHorse | HorseVariant::ZombieHorse);
        if needs && !self.inventory.saddle {
            return false;
        }
        self.rider = Some(entity_id);
        true
    }

    /// Remove the current rider, returning their id if one was riding.
    pub fn dismount(&mut self) -> (r: Option<u64>)
        ensures
            r == old(self).rider,
            final(self).rider is None,
            final(self).variant == old(self).variant,
            final(self).stats == old(self).stats,
            final(self).inventory == old(self).inventory,
    {
        let r = self.rider;
        self.rider = None;
        r
    }
}

/// The stat mixing hash: multiply by the salt, then two rounds of
/// xor-shift by 33 around a multiplication, all modulo 2^64.
pub open spec fn stat_mix(seed: u64, salt: u64) -> u64 {
    let h0 = seed.wrapping_mul(salt);
    let h1 = h0 ^ (h0 >> 33u64);
    let h2 = h1.wrapping_mul(0xFF51_AFD7_ED55_8CCDu64);
    h2 ^ (h2 >> 33u64)
}

/// The low 24 bits of the stat mixing hash of `seed` under `salt`: the
/// numerator of the fraction `bits / 2^24` that places a stat in its range.
pub fn stat_hash_bits(seed: u64, salt: u64) -> (r: u32)
    ensures
        r == stat_mix(seed, salt) & 0x00FF_FFFFu64,
        r < 0x0100_0000,
{
    let h0 = seed.wrapping_mul(salt);
    let h1 = h0 ^ (h0 >> 33u64);
    let h2 = h1.wrapping_mul(0xFF51_AFD7_ED55_8CCDu64);
    let h3 = h2 ^ (h2 >> 33u64);
    let low = h3 & 0x00FF_FFFFu64;
    assert(low < 0x0100_0000) by (bit_vector)
        requires low == h3 & 0x00FF_FFFFu64;
    low as u32
}

/// Salt that decorrelates the speed fraction.
pub const SPEED_SALT: u64 = 0x9E37_79B9_7F4A_7C15;

/// Salt that decorrelates the jump-strength fraction.
pub const JUMP_SALT: u64 = 0x6C62_272E_07BB_0142;

/// Salt that decorrelates the health fraction.
pub const HEALTH_SALT: u64 = 0x517C_C1B7_2722_0A95;

} // verus!
