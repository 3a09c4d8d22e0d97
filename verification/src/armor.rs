//! Armor slots, materials, pieces and worn sets.
//!
//! The defense points and durability of each material follow the vanilla
//! tables; a worn set sums the defense of its non-broken pieces.
use vstd::prelude::*;

verus! {

/// The four equipment slots that can hold armor pieces.
#[derive(Debug, Clone, Copy, PartialEq, Eq, Hash, Structural)]
pub enum ArmorSlot {
    Helmet,
    Chestplate,
    Leggings,
    Boots,
}

/// Position of a slot in the four-slot layout `[Helmet, Chestplate, Leggings, Boots]`.
pub open spec fn slot_index(slot: ArmorSlot) -> nat {
    match slot {
        ArmorSlot::Helmet => 0,
        ArmorSlot::Chestplate => 1,
        ArmorSlot::Leggings => 2,
        ArmorSlot::Boots => 3,
    }
}

impl ArmorSlot {
    /// Index into the fixed-size `[Option<ArmorPiece>; 4]` array.
    pub fn index(self) -> (i: usize)
        ensures
            i == slot_index(self),
            i < 4,
    {
        match self {
            ArmorSlot::Helmet => 0,
            ArmorSlot::Chestplate => 1,
            ArmorSlot::Leggings => 2,
            ArmorSlot::Boots => 3,
        }
    }
}

/// Material an armor piece is made from.
#[derive(Debug, Clone, Copy, PartialEq, Eq, Hash, Structural)]
pub enum ArmorMaterial {
    Leather,
    Chain,
    Iron,
    Gold,
    Diamond,
    Netherite,
}

/// Defense points per material and slot (Helmet / Chestplate / Leggings / Boots):
/// Leather 1/3/2/1, Chain 2/5/4/1, Iron 2/6/5/2, Gold 2/5/3/1,
/// Diamond and Netherite 3/8/6/3.
pub open spec fn defense_value(material: ArmorMaterial, slot: ArmorSlot) -> nat {
    let row: Seq<nat> = match material {
        ArmorMaterial::Leather => seq![1nat, 3, 2, 1],
        ArmorMaterial::Chain => seq![2nat, 5, 4, 1],
        ArmorMaterial::Iron => seq![2nat, 6, 5, 2],
        ArmorMaterial::Gold => seq![2nat, 5, 3, 1],
        ArmorMaterial::Diamond => seq![3nat, 8, 6, 3],
        ArmorMaterial::Netherite => seq![3nat, 8, 6, 3],
    };
    row[slot_index(slot) as int]
}

/// Durability multiplier of a material.
pub open spec fn multiplier_value(material: ArmorMaterial) -> nat {
    match material {
        ArmorMaterial::Leather => 5,
        ArmorMaterial::Chain => 15,
        ArmorMaterial::Iron => 15,
        ArmorMaterial::Gold => 7,
        ArmorMaterial::Diamond => 33,
        ArmorMaterial::Netherite => 37,
    }
}

/// Durability base of a slot: Helmet 11, Chestplate 16, Leggings 15, Boots 13.
pub open spec fn slot_base(slot: ArmorSlot) -> nat {
    match slot {
        ArmorSlot::Helmet => 11,
        ArmorSlot::Chestplate => 16,
        ArmorSlot::Leggings => 15,
        ArmorSlot::Boots => 13,
    }
}

/// Maximum durability: slot base times material multiplier.
pub open spec fn durability_value(material: ArmorMaterial, slot: ArmorSlot) -> nat {
    slot_base(slot) * multiplier_value(material)
}

/// Armor toughness per piece of a material: 2 for diamond, 3 for
/// netherite, none for the others.
pub open spec fn toughness_value(m: ArmorMaterial) -> nat {
    match m {
        ArmorMaterial::Diamond => 2,
        ArmorMaterial::Netherite => 3,
        _ => 0,
    }
}

impl ArmorMaterial {
    /// Armor toughness of one piece of this material.
    pub fn toughness_points(self) -> (t: u32)
        ensures
            t == toughness_value(self),
    {
        match self {
            ArmorMaterial::Diamond => 2,
            ArmorMaterial::Netherite => 3,
            _ => 0,
        }
    }

    /// Defense points granted by this material in the given slot.
    pub fn defense_for_slot(self, slot: ArmorSlot) -> (d: u32)
        ensures
            d == defense_value(self, slot),
    {
        match (self, slot) {
            (ArmorMaterial::Leather, ArmorSlot::Helmet) => 1,
            (ArmorMaterial::Leather, ArmorSlot::Chestplate) => 3,
            (ArmorMaterial::Leather, ArmorSlot::Leggings) => 2,
            (ArmorMaterial::Leather, ArmorSlot::Boots) => 1,
            (ArmorMaterial::Chain, ArmorSlot::Helmet) => 2,
            (ArmorMaterial::Chain, ArmorSlot::Chestplate) => 5,
            (ArmorMaterial::Chain, ArmorSlot::Leggings) => 4,
            (ArmorMaterial::Chain, ArmorSlot::Boots) => 1,
            (ArmorMaterial::Iron, ArmorSlot::Helmet) => 2,
            (ArmorMaterial::Iron, ArmorSlot::Chestplate) => 6,
            (ArmorMaterial::Iron, ArmorSlot::Leggings) => 5,
            (ArmorMaterial::Iron, ArmorSlot::Boots) => 2,
            (ArmorMaterial::Gold, ArmorSlot::Helmet) => 2,
            (ArmorMaterial::Gold, ArmorSlot::Chestplate) => 5,
            (ArmorMaterial::Gold, ArmorSlot::Leggings) => 3,
            (ArmorMaterial::Gold, ArmorSlot::Boots) => 1,
            (ArmorMaterial::Diamond, ArmorSlot::Helmet) => 3,
            (ArmorMaterial::Diamond, ArmorSlot::Chestplate) => 8,
            (ArmorMaterial::Diamond, ArmorSlot::Leggings) => 6,
            (ArmorMaterial::Diamond, ArmorSlot::Boots) => 3,
            (ArmorMaterial::Netherite, ArmorSlot::Helmet) => 3,
            (ArmorMaterial::Netherite, ArmorSlot::Chestplate) => 8,
            (ArmorMaterial::Netherite, ArmorSlot::Leggings) => 6,
            (ArmorMaterial::Netherite, ArmorSlot::Boots) => 3,
        }
    }

    /// Durability multiplier per material; the durability of a piece is the
    /// slot base times this value.
    pub fn material_multiplier(self) -> (m: u32)
        ensures
            m == multiplier_value(self),
    {
        match self {
            ArmorMaterial::Leather => 5,
            ArmorMaterial::Chain => 15,
            ArmorMaterial::Iron => 15,
            ArmorMaterial::Gold => 7,
            ArmorMaterial::Diamond => 33,
            ArmorMaterial::Netherite => 37,
        }
    }

    /// Maximum durability for this material in the given slot.
    pub fn durability_for_slot(self, slot: ArmorSlot) -> (d: u32)
        ensures
            d == durability_value(self, slot),
    {
        let slot_base: u32 = match slot {
            ArmorSlot::Helmet => 11,
            ArmorSlot::Chestplate => 16,
            ArmorSlot::Leggings => 15,
            ArmorSlot::Boots => 13,
        };
        slot_base * self.material_multiplier()
    }
}

/// A single piece of armor occupying one equipment slot.
#[derive(Debug, Clone, PartialEq, Eq, Structural)]
pub struct ArmorPiece {
    pub material: ArmorMaterial,
    pub slot: ArmorSlot,
    pub durability: u32,
    pub max_durability: u32,
}

impl ArmorPiece {
    /// Create a new armor piece at full durability.
    pub fn new(material: ArmorMaterial, slot: ArmorSlot) -> (p: Self)
        ensures
            p.material == material,
            p.slot == slot,
            p.max_durability == durability_value(material, slot),
            p.durability == p.max_durability,
    {
        let max_durability = material.durability_for_slot(slot);
        Self { material, slot, durability: max_durability, max_durability }
    }

    /// Returns `true` when the piece has no remaining durability.
    pub fn is_broken(&self) -> (b: bool)
        ensures
            b == (self.durability == 0),
    {
        self.durability == 0
    }
}

/// Defense contributed by one slot: that of its piece unless it is empty or broken.
pub open spec fn slot_defense(s: Option<ArmorPiece>) -> nat {
    match s {
        Some(p) => if p.durability == 0 { 0 } else { defense_value(p.material, p.slot) },
        None => 0,
    }
}

/// Sum of the defense of the non-broken pieces among the first `n` slots.
pub open spec fn defense_sum(slots: Seq<Option<ArmorPiece>>, n: int) -> nat
    decreases n,
{
    if n <= 0 {
        0
    } else {
        defense_sum(slots, n - 1) + slot_defense(slots[n - 1])
    }
}

/// Toughness contributed by one slot: that of its piece unless it is empty
/// or broken.
pub open spec fn slot_toughness(s: Option<ArmorPiece>) -> nat {
    match s {
        Some(p) => if p.durability == 0 { 0 } else { toughness_value(p.material) },
        None => 0,
    }
}

/// Sum of the toughness of the non-broken pieces among the first `n` slots.
pub open spec fn toughness_sum(slots: Seq<Option<ArmorPiece>>, n: int) -> nat
    decreases n,
{
    if n <= 0 {
        0
    } else {
        toughness_sum(slots, n - 1) + slot_toughness(slots[n - 1])
    }
}

/// A slot after one point of wear: a non-broken piece loses one durability.
pub open spec fn worn(s: Option<ArmorPiece>) -> Option<ArmorPiece> {
    match s {
        Some(p) => if p.durability > 0 {
            Some(ArmorPiece { durability: (p.durability - 1) as u32, ..p })
        } else {
            Some(p)
        },
        None => None,
    }
}

/// The four armor slots a player can wear simultaneously.
///
/// Slot layout: `[Helmet, Chestplate, Leggings, Boots]`.
#[derive(Debug, Clone, PartialEq)]
pub struct ArmorSet {
    pub slots: [Option<ArmorPiece>; 4],
}

impl ArmorSet {
    /// Create an empty armor set (no pieces equipped).
    pub fn new() -> (s: Self)
        ensures
            forall|i: int| 0 <= i < 4 ==> s.slots@[i] is None,
    {
        Self { slots: [None, None, None, None] }
    }

    /// Equip a piece in its matching slot, returning the previously equipped
    /// piece (if any). The other slots are unchanged.
    pub fn equip(&mut self, piece: ArmorPiece) -> (previous: Option<ArmorPiece>)
        ensures
            previous == old(self).slots@[slot_index(piece.slot) as int],
            final(self).slots@ == old(self).slots@.update(slot_index(piece.slot) as int, Some(piece)),
    {
        let idx = piece.slot.index();
        let mut previous = Some(piece);
        std::mem::swap(&mut self.slots[idx], &mut previous);
        previous
    }

    /// Remove and return the piece in the given slot, leaving it empty.
    pub fn unequip(&mut self, slot: ArmorSlot) -> (removed: Option<ArmorPiece>)
        ensures
            removed == old(self).slots@[slot_index(slot) as int],
            final(self).slots@ == old(self).slots@.update(slot_index(slot) as int, None),
    {
        let idx = slot.index();
        let mut removed = None;
        std::mem::swap(&mut self.slots[idx], &mut removed);
        removed
    }

    /// Sum of defense points across all equipped, non-broken pieces.
    pub fn total_defense(&self) -> (total: u32)
        ensures
            total == defense_sum(self.slots@, 4),
    {
        let mut total: u32 = 0;
        let mut i: usize = 0;
        while i < 4
            invariant
                i <= 4,
                total == defense_sum(self.slots@, i as int),
                total <= 8 * i,
            decreases 4 - i,
        {
            match &self.slots[i] {
                Some(p) => {
                    if !p.is_broken() {
                        total = total + p.material.defense_for_slot(p.slot);
                    }
                },
                None => {},
            }
            i = i + 1;
        }
        total
    }

    /// Sum of toughness across all equipped, non-broken pieces.
    pub fn total_toughness_points(&self) -> (total: u32)
        ensures
            total == toughness_sum(self.slots@, 4),
    {
        let mut total: u32 = 0;
        let mut i: usize = 0;
        while i < 4
            invariant
                i <= 4,
                total == toughness_sum(self.slots@, i as int),
                total <= 3 * i,
            decreases 4 - i,
        {
            match &self.slots[i] {
                Some(p) => {
                    if !p.is_broken() {
                        total = total + p.material.toughness_points();
                    }
                },
                None => {},
            }
            i = i + 1;
        }
        total
    }
}

impl Default for ArmorSet {
    fn default() -> (s: Self)
        ensures
            forall|i: int| 0 <= i < 4 ==> s.slots@[i] is None,
    {
        Self::new()
    }
}

/// Wear every equipped, non-broken piece by one point of durability, as
/// happens when the wearer takes damage; empty and broken slots stay as they are.
pub fn apply_armor_wear(set: &mut ArmorSet)
    ensures
        forall|i: int| 0 <= i < 4 ==> final(set).slots@[i] == worn(old(set).slots@[i]),
{
    let mut i: usize = 0;
    while i < 4
        invariant
            i <= 4,
            forall|j: int| 0 <= j < i ==> set.slots@[j] == worn(old(set).slots@[j]),
            forall|j: int| i <= j < 4 ==> set.slots@[j] == old(set).slots@[j],
        decreases 4 - i,
    {
        let mut slot: Option<ArmorPiece> = None;
        std::mem::swap(&mut set.slots[i], &mut slot);
        let mut updated = match slot {
            Some(p) => if p.durability > 0 {
                Some(ArmorPiece { durability: p.durability - 1, ..p })
            } else {
                Some(p)
            },
            None => None,
        };
        std::mem::swap(&mut set.slots[i], &mut updated);
        i = i + 1;
    }
}

} // verus!
