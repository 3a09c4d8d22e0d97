//! Fox behaviour: nocturnal priorities over fleeing, eating, picking up
//! items and pouncing.
use vstd::prelude::*;

verus! {

/// Item id of sweet berries.
pub const SWEET_BERRY_ID: u16 = 1125;

/// Daytime boundary in ticks: day is `[0, 12000)`, night `[12000, 24000)`.
pub const DAY_END_TICK: u32 = 12_000;

/// The two fox variants.
#[derive(Debug, Clone, Copy, PartialEq, Eq, Structural)]
pub enum FoxVariant {
    Red,
    Arctic,
}

/// A fox's state.
#[derive(Debug, Clone, PartialEq)]
pub struct FoxState {
    pub variant: FoxVariant,
    pub held_item: Option<u16>,
    pub sleeping: bool,
    pub trusted_players: Vec<u64>,
}

/// Whether the world time is daytime.
pub fn is_daytime(time_of_day: u32) -> (b: bool)
    ensures
        b == (time_of_day < DAY_END_TICK),
{
    time_of_day < DAY_END_TICK
}

/// A nearby entity as the fox sees it: its id, whether it is prey, and
/// whether it stands within fleeing range (16 blocks).
#[derive(Debug, Clone, Copy, PartialEq, Eq, Structural)]
pub struct SeenEntity {
    pub id: u64,
    pub is_prey: bool,
    pub in_flee_range: bool,
}

/// Whether some entity in fleeing range is neither prey nor trusted.
pub open spec fn threatened(trusted: Seq<u64>, seen: Seq<SeenEntity>) -> bool {
    exists|i: int| 0 <= i < seen.len() && !(#[trigger] seen[i]).is_prey && !trusted.contains(seen[i].id) && seen[i].in_flee_range
}

/// Whether a non-trusted, non-prey entity is within fleeing range.
pub fn should_flee(state: &FoxState, seen: &[SeenEntity]) -> (b: bool)
    ensures
        b == threatened(state.trusted_players@, seen@),
{
    let mut i: usize = 0;
    while i < seen.len()
        invariant
            i <= seen@.len(),
            forall|k: int| 0 <= k < i ==> !(!(#[trigger] seen@[k]).is_prey && !state.trusted_players@.contains(seen@[k].id) && seen@[k].in_flee_range),
        decreases seen@.len() - i,
    {
        let e = seen[i];
        if !e.is_prey && e.in_flee_range {
            let mut trusted = false;
            let mut j: usize = 0;
            while j < state.trusted_players.len()
                invariant
                    j <= state.trusted_players@.len(),
                    trusted == exists|k: int| 0 <= k < j && state.trusted_players@[k] == e.id,
                decreases state.trusted_players@.len() - j,
            {
                if state.trusted_players[j] == e.id {
                    trusted = true;
                }
                j = j + 1;
            }
            if !trusted {
                assert(!state.trusted_players@.contains(seen@[i as int].id));
                return true;
            }
        }
        i = i + 1;
    }
    false
}

/// The fox's choice for a tick; a pounce names the prey by its index among
/// the nearby entities.
#[derive(Debug, Clone, Copy, PartialEq, Eq, Structural)]
pub enum FoxChoice {
    Sleep,
    PickUpItem(u16),
    Pounce(usize),
    Flee,
    Eat,
}

/// The fox's choice by priority: flee from a threat; sleep by day; eat
/// held sweet berries; pick up the closest item in reach when the mouth is
/// empty; pounce on the closest prey in reach; else rest.
pub open spec fn fox_choice_spec(
    state: FoxState,
    time_of_day: u32,
    seen: Seq<SeenEntity>,
    closest_item: Option<u16>,
    closest_prey: Option<usize>,
) -> FoxChoice {
    if threatened(state.trusted_players@, seen) {
        FoxChoice::Flee
    } else if time_of_day < DAY_END_TICK {
        FoxChoice::Sleep
    } else if state.held_item == Some(SWEET_BERRY_ID) {
        FoxChoice::Eat
    } else if state.held_item is None && closest_item is Some {
        FoxChoice::PickUpItem(closest_item->0)
    } else if closest_prey is Some {
        FoxChoice::Pounce(closest_prey->0)
    } else {
        FoxChoice::Sleep
    }
}

/// Decide the fox's action for a tick from what it sees: the nearby
/// entities, the id of the closest ground item within pickup range (2
/// blocks) and the index of the closest prey within pounce range (12
/// blocks).
pub fn fox_choice(
    state: &FoxState,
    time_of_day: u32,
    seen: &[SeenEntity],
    closest_item: Option<u16>,
    closest_prey: Option<usize>,
) -> (c: FoxChoice)
    ensures
        c == fox_choice_spec(*state, time_of_day, seen@, closest_item, closest_prey),
{
    if should_flee(state, seen) {
        return FoxChoice::Flee;
    }
    if is_daytime(time_of_day) {
        return FoxChoice::Sleep;
    }
    if state.held_item == Some(SWEET_BERRY_ID) {
        return FoxChoice::Eat;
    }
    if state.held_item.is_none() {
        if let Some(item) = closest_item {
            return FoxChoice::PickUpItem(item);
        }
    }
    if let Some(p) = closest_prey {
        return FoxChoice::Pounce(p);
    }
    FoxChoice::Sleep
}

/// Whether eating the item hurts the fox (sweet berries do, by one point).
pub fn sweet_berry_hurts(item_id: u16) -> (b: bool)
    ensures
        b == (item_id == SWEET_BERRY_ID),
{
    item_id == SWEET_BERRY_ID
}

} // verus!
