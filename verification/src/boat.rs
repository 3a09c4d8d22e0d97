//! Boat wood types and the passenger seat.
use vstd::prelude::*;

verus! {

/// The wood species a boat is crafted from.
#[derive(Debug, Clone, Copy, PartialEq, Eq, Hash, Structural)]
pub enum BoatType {
    Oak,
    Birch,
    Spruce,
    Jungle,
    DarkOak,
    Acacia,
    Bamboo,
    Cherry,
    Mangrove,
}

/// Attempt to seat `player_id` in a boat whose seat is `passenger`.
/// Returns `false`, leaving the seat as it was, if it is already taken.
pub fn mount_passenger(passenger: &mut Option<u64>, player_id: u64) -> (r: bool)
    ensures
        r == old(passenger).is_none(),
        *final(passenger) == (if r { Some(player_id) } else { *old(passenger) }),
{
    if passenger.is_some() {
        return false;
    }
    *passenger = Some(player_id);
    true
}

/// Remove the passenger from the seat and return their id, or `None` if
/// the seat was already empty.
pub fn dismount(passenger: &mut Option<u64>) -> (r: Option<u64>)
    ensures
        r == *old(passenger),
        *final(passenger) is None,
{
    let r = *passenger;
    *passenger = None;
    r
}

} // verus!
