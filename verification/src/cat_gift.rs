//! Cat morning gifts: the items, their weights, the weighted draw and
//! item ids.
use vstd::prelude::*;

verus! {

/// Items a cat can bring as a morning gift.
#[derive(Debug, Clone, Copy, PartialEq, Eq, Hash, Structural)]
pub enum CatGiftItem {
    RawCod,
    RawSalmon,
    RabbitHide,
    RabbitFoot,
    StringItem,
    RottenFlesh,
    Feather,
    PhantomMembrane,
}

/// The weight of a gift in the gift table, in ten-thousandths: 1661 for
/// each of the six common items, 69 for the feather and the phantom
/// membrane.
pub fn cat_gift_weight_units(item: CatGiftItem) -> (w: u16)
    ensures
        w == (if item == CatGiftItem::Feather || item == CatGiftItem::PhantomMembrane { 69u16 } else { 1661u16 }),
{
    match item {
        CatGiftItem::Feather | CatGiftItem::PhantomMembrane => 69,
        _ => 1661,
    }
}

/// The gift hash: one step of the 64-bit linear congruential generator
/// from the seed, modulo 2^64.
pub open spec fn gift_hash(seed: u64) -> u64 {
    seed.wrapping_mul(6364136223846793005u64).wrapping_add(1442695040888963407u64)
}

/// The gift drawn for a hash. The draw scales the hash to `[0, 1)` (as
/// `f64`, then `f32`), multiplies it by the `f32` sum of the weights and
/// takes the first item whose running `f32` sum of weights exceeds it;
/// since every step is monotone, that is the first item whose bound below
/// exceeds the hash, the bounds being the least hashes at which the draw
/// reaches each running sum.
pub open spec fn gift_for_hash(h: u64) -> CatGiftItem {
    if h < 3032466400984695041u64 {
        CatGiftItem::RawCod
    } else if h < 6064932801969390081u64 {
        CatGiftItem::RawSalmon
    } else if h < 9097399615270944256u64 {
        CatGiftItem::RabbitHide
    } else if h < 12129865603938780161u64 {
        CatGiftItem::RabbitFoot
    } else if h < 15162332966996147200u64 {
        CatGiftItem::StringItem
    } else if h < 18194800330053518337u64 {
        CatGiftItem::RottenFlesh
    } else if h < 18320771377247814657u64 {
        CatGiftItem::Feather
    } else {
        CatGiftItem::PhantomMembrane
    }
}

/// Selects a gift item by a weighted draw from the seed (see
/// [`gift_for_hash`]).
pub fn select_cat_gift(seed: u64) -> (g: CatGiftItem)
    ensures
        g == gift_for_hash(gift_hash(seed)),
{
    let h = seed.wrapping_mul(6364136223846793005u64).wrapping_add(1442695040888963407u64);
    if h < 3032466400984695041u64 {
        CatGiftItem::RawCod
    } else if h < 6064932801969390081u64 {
        CatGiftItem::RawSalmon
    } else if h < 9097399615270944256u64 {
        CatGiftItem::RabbitHide
    } else if h < 12129865603938780161u64 {
        CatGiftItem::RabbitFoot
    } else if h < 15162332966996147200u64 {
        CatGiftItem::StringItem
    } else if h < 18194800330053518337u64 {
        CatGiftItem::RottenFlesh
    } else if h < 18320771377247814657u64 {
        CatGiftItem::Feather
    } else {
        CatGiftItem::PhantomMembrane
    }
}

/// The item id of a gift.
pub open spec fn gift_id_spec(item: CatGiftItem) -> u16 {
    match item {
        CatGiftItem::RawCod => 800,
        CatGiftItem::RawSalmon => 801,
        CatGiftItem::RabbitHide => 802,
        CatGiftItem::RabbitFoot => 803,
        CatGiftItem::StringItem => 804,
        CatGiftItem::RottenFlesh => 805,
        CatGiftItem::Feather => 806,
        CatGiftItem::PhantomMembrane => 807,
    }
}

/// The item id of a gift: 800 to 807 in declaration order.
pub fn cat_gift_item_id(item: CatGiftItem) -> (id: u16)
    ensures
        id == gift_id_spec(item),
{
    match item {
        CatGiftItem::RawCod => 800,
        CatGiftItem::RawSalmon => 801,
        CatGiftItem::RabbitHide => 802,
        CatGiftItem::RabbitFoot => 803,
        CatGiftItem::StringItem => 804,
        CatGiftItem::RottenFlesh => 805,
        CatGiftItem::Feather => 806,
        CatGiftItem::PhantomMembrane => 807,
    }
}

/// The number of distinct gift types.
pub fn total_gift_types() -> (n: usize)
    ensures
        n == 8,
{
    8
}

/// Different gifts have different item ids.
pub proof fn lemma_gift_ids_distinct(a: CatGiftItem, b: CatGiftItem)
    requires
        a != b,
    ensures
        gift_id_spec(a) != gift_id_spec(b),
{
}

} // verus!
