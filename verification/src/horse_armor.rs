//! Horse armor types, protection points and item identifiers.
use vstd::prelude::*;

verus! {

/// The armor a horse can wear.
#[derive(Debug, Clone, Copy, PartialEq, Eq, Structural)]
pub enum HorseArmorType {
    NoArmor,
    Iron,
    Gold,
    Diamond,
    Leather(u8),
}

/// The protection points of a horse armor type; damage is scaled by
/// `1 - points * 0.04`.
pub fn horse_armor_protection_points(armor: HorseArmorType) -> (p: u8)
    ensures
        p == match armor {
            HorseArmorType::NoArmor => 0u8,
            HorseArmorType::Iron => 5u8,
            HorseArmorType::Gold => 7u8,
            HorseArmorType::Diamond => 11u8,
            HorseArmorType::Leather(_) => 3u8,
        },
{
    match armor {
        HorseArmorType::NoArmor => 0,
        HorseArmorType::Iron => 5,
        HorseArmorType::Gold => 7,
        HorseArmorType::Diamond => 11,
        HorseArmorType::Leather(_) => 3,
    }
}

/// Item identifier of the first horse armor item.
pub const HORSE_ARMOR_FIRST_ID: u16 = 8100;

/// Item identifier of the last horse armor item.
pub const HORSE_ARMOR_LAST_ID: u16 = 8103;

/// The item identifier of a horse armor type (0 for no armor).
pub fn horse_armor_item_id(armor: HorseArmorType) -> (id: u16)
    ensures
        id == match armor {
            HorseArmorType::NoArmor => 0u16,
            HorseArmorType::Iron => 8100u16,
            HorseArmorType::Gold => 8101u16,
            HorseArmorType::Diamond => 8102u16,
            HorseArmorType::Leather(_) => 8103u16,
        },
{
    match armor {
        HorseArmorType::NoArmor => 0,
        HorseArmorType::Iron => 8100,
        HorseArmorType::Gold => 8101,
        HorseArmorType::Diamond => 8102,
        HorseArmorType::Leather(_) => 8103,
    }
}

/// A leather horse armor dyed with the given color.
pub fn dyeable_leather_horse_armor(color: u8) -> (a: HorseArmorType)
    ensures
        a == HorseArmorType::Leather(color),
{
    HorseArmorType::Leather(color)
}

/// Whether an item identifier names a horse armor item.
pub fn is_horse_armor_item(item_id: u16) -> (b: bool)
    ensures
        b == (HORSE_ARMOR_FIRST_ID <= item_id <= HORSE_ARMOR_LAST_ID),
{
    HORSE_ARMOR_FIRST_ID <= item_id && item_id <= HORSE_ARMOR_LAST_ID
}

/// Every armor but "none" maps to a horse armor item, and "none" to none.
pub proof fn lemma_item_id_is_horse_armor(armor: HorseArmorType)
    ensures
        (armor != HorseArmorType::NoArmor) <==> (HORSE_ARMOR_FIRST_ID <= match armor {
            HorseArmorType::NoArmor => 0u16,
            HorseArmorType::Iron => 8100u16,
            HorseArmorType::Gold => 8101u16,
            HorseArmorType::Diamond => 8102u16,
            HorseArmorType::Leather(_) => 8103u16,
        } <= HORSE_ARMOR_LAST_ID),
{
}

} // verus!
