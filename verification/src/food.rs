//! Food registry size, hunger values and the eating rule.
use vstd::prelude::*;

verus! {

/// Total number of food items in the registry.
pub const FOOD_COUNT: usize = 18;

/// Item id of the first food item; the others follow consecutively.
pub const FIRST_FOOD_ID: u16 = 3000;

/// Hunger points restored by each food, in item id order from 3000:
/// apple 4, baked potato 5, cooked beef 8, bread 5, carrot 3, cooked
/// chicken 6, cooked cod 5, golden apple 4, golden carrot 6, melon slice 2,
/// mushroom stew 6, cooked porkchop 8, potato 1, pumpkin pie 8, rabbit stew
/// 10, cooked salmon 6, sweet berries 2, suspicious stew 6.
pub open spec fn hunger_table() -> Seq<u32> {
    seq![4u32, 5, 8, 5, 3, 6, 5, 4, 6, 2, 6, 8, 1, 8, 10, 6, 2, 6]
}

/// Hunger points restored by the food with the given item id, if it is a food.
pub fn food_hunger(item_id: u16) -> (h: Option<u32>)
    ensures
        h == (if FIRST_FOOD_ID <= item_id < FIRST_FOOD_ID + FOOD_COUNT {
            Some(hunger_table()[item_id - FIRST_FOOD_ID])
        } else {
            None
        }),
{
    let table: [u32; 18] = [4, 5, 8, 5, 3, 6, 5, 4, 6, 2, 6, 8, 1, 8, 10, 6, 2, 6];
    if item_id >= FIRST_FOOD_ID && item_id < FIRST_FOOD_ID + 18 {
        let i = (item_id - FIRST_FOOD_ID) as usize;
        assert(table@ =~= hunger_table());
        Some(table[i])
    } else {
        None
    }
}

/// Whether the player can eat (hunger is below the maximum).
pub fn can_eat(current_hunger: u32, max_hunger: u32) -> (b: bool)
    ensures
        b == (current_hunger < max_hunger),
{
    current_hunger < max_hunger
}

/// Total number of food items in the registry.
pub fn food_count() -> (n: usize)
    ensures
        n == FOOD_COUNT,
{
    FOOD_COUNT
}

} // verus!
