//! Golem construction patterns, the iron golem's priorities and the snow
//! golem's weather effect.
//!
//! A pattern check scans the block volume `y` in `-64..=128`, `x` and `z` in
//! `-64..=64` (in the order `y`, then `x`, then `z`) and reports the first
//! position where the pattern stands, through a caller-supplied block lookup.
use vstd::prelude::*;

verus! {

/// Block id of iron blocks.
pub const IRON_BLOCK_ID: u16 = 100;

/// Block id of (carved) pumpkins.
pub const PUMPKIN_BLOCK_ID: u16 = 62;

/// Block id of snow blocks.
pub const SNOW_BLOCK_ID: u16 = 80;

/// Effect produced by a Snow Golem each tick.
#[derive(Debug, Clone, Copy, PartialEq, Eq, Structural)]
pub enum GolemEffect {
    /// Place a snow layer at the golem's position.
    PlaceSnow,
    /// The golem is melting due to high biome temperature.
    Melting,
    /// Nothing special this tick.
    Normal,
}

/// What an Iron Golem does in a tick.
#[derive(Debug, Clone, Copy, PartialEq, Eq, Structural)]
pub enum GolemChoice {
    /// Do nothing.
    Idle,
    /// Attack the hostile with this index among those seen.
    AttackHostile(usize),
    /// Patrol toward the village center.
    PatrolVillage,
    /// Offer a flower to a nearby villager.
    OfferFlower,
}

/// Decide an Iron Golem's action by priority: attack the closest hostile
/// within aggro range (16 blocks), else patrol toward a known village
/// center, else offer a flower when a villager is within 6 blocks, else
/// idle.
pub fn iron_golem_choice(closest_hostile: Option<usize>, knows_village: bool, villager_near: bool) -> (c:
    GolemChoice)
    ensures
        c == (match closest_hostile {
            Some(i) => GolemChoice::AttackHostile(i),
            None => if knows_village {
                GolemChoice::PatrolVillage
            } else if villager_near {
                GolemChoice::OfferFlower
            } else {
                GolemChoice::Idle
            },
        }),
{
    match closest_hostile {
        Some(i) => GolemChoice::AttackHostile(i),
        None => if knows_village {
            GolemChoice::PatrolVillage
        } else if villager_near {
            GolemChoice::OfferFlower
        } else {
            GolemChoice::Idle
        },
    }
}

/// Whether the block lookup reports block `v` at `(x, y, z)`: every answer
/// it can give there is `v`.
pub open spec fn reports<F: Fn(i32, i32, i32) -> u16>(get_block: F, x: int, y: int, z: int, v: u16) -> bool {
    forall|b: u16| #[trigger] call_ensures(get_block, (x as i32, y as i32, z as i32), b) ==> b == v
}

/// Whether the block lookup gave block `v` at `(x, y, z)`: `v` is an
/// answer it can give there.
pub open spec fn gives<F: Fn(i32, i32, i32) -> u16>(get_block: F, x: int, y: int, z: int, v: u16) -> bool {
    call_ensures(get_block, (x as i32, y as i32, z as i32), v)
}

/// The lookup gave an iron golem T-shape with its arms along the X axis
/// and its body at `(x, y, z)`.
pub open spec fn iron_x_given<F: Fn(i32, i32, i32) -> u16>(f: F, x: int, y: int, z: int) -> bool {
    &&& gives(f, x, y, z, IRON_BLOCK_ID)
    &&& gives(f, x - 1, y + 1, z, IRON_BLOCK_ID)
    &&& gives(f, x, y + 1, z, IRON_BLOCK_ID)
    &&& gives(f, x + 1, y + 1, z, IRON_BLOCK_ID)
    &&& gives(f, x, y + 2, z, PUMPKIN_BLOCK_ID)
}

/// The lookup gave an iron golem T-shape with its arms along the Z axis
/// and its body at `(x, y, z)`.
pub open spec fn iron_z_given<F: Fn(i32, i32, i32) -> u16>(f: F, x: int, y: int, z: int) -> bool {
    &&& gives(f, x, y, z, IRON_BLOCK_ID)
    &&& gives(f, x, y + 1, z - 1, IRON_BLOCK_ID)
    &&& gives(f, x, y + 1, z, IRON_BLOCK_ID)
    &&& gives(f, x, y + 1, z + 1, IRON_BLOCK_ID)
    &&& gives(f, x, y + 2, z, PUMPKIN_BLOCK_ID)
}

/// The lookup gave a snow golem stack with its lower snow block at
/// `(x, y, z)`.
pub open spec fn snow_given<F: Fn(i32, i32, i32) -> u16>(f: F, x: int, y: int, z: int) -> bool {
    &&& gives(f, x, y, z, SNOW_BLOCK_ID)
    &&& gives(f, x, y + 1, z, SNOW_BLOCK_ID)
    &&& gives(f, x, y + 2, z, PUMPKIN_BLOCK_ID)
}

/// A block lookup that gives one answer per position.
pub open spec fn is_lookup<F: Fn(i32, i32, i32) -> u16>(get_block: F) -> bool {
    &&& forall|x: i32, y: i32, z: i32| call_requires(get_block, (x, y, z))
    &&& forall|x: i32, y: i32, z: i32, a: u16, b: u16|
        call_ensures(get_block, (x, y, z), a) && call_ensures(get_block, (x, y, z), b) ==> a == b
}

/// Whether `(x, y, z)` lies in the scanned volume.
pub open spec fn in_scan(x: int, y: int, z: int) -> bool {
    -64 <= y <= 128 && -64 <= x <= 64 && -64 <= z <= 64
}

/// Whether `(x, y, z)` comes before `(x2, y2, z2)` in scan order.
pub open spec fn scanned_before(x: int, y: int, z: int, x2: int, y2: int, z2: int) -> bool {
    y < y2 || (y == y2 && (x < x2 || (x == x2 && z < z2)))
}

/// An iron golem T-shape with its arms along the X axis and its body at `(x, y, z)`.
pub open spec fn iron_x_at<F: Fn(i32, i32, i32) -> u16>(f: F, x: int, y: int, z: int) -> bool {
    &&& reports(f, x, y, z, IRON_BLOCK_ID)
    &&& reports(f, x - 1, y + 1, z, IRON_BLOCK_ID)
    &&& reports(f, x, y + 1, z, IRON_BLOCK_ID)
    &&& reports(f, x + 1, y + 1, z, IRON_BLOCK_ID)
    &&& reports(f, x, y + 2, z, PUMPKIN_BLOCK_ID)
}

/// An iron golem T-shape with its arms along the Z axis and its body at `(x, y, z)`.
pub open spec fn iron_z_at<F: Fn(i32, i32, i32) -> u16>(f: F, x: int, y: int, z: int) -> bool {
    &&& reports(f, x, y, z, IRON_BLOCK_ID)
    &&& reports(f, x, y + 1, z - 1, IRON_BLOCK_ID)
    &&& reports(f, x, y + 1, z, IRON_BLOCK_ID)
    &&& reports(f, x, y + 1, z + 1, IRON_BLOCK_ID)
    &&& reports(f, x, y + 2, z, PUMPKIN_BLOCK_ID)
}

/// The blocks of the X-axis T-shape: body, three arms, head.
pub open spec fn iron_x_blocks(x: int, y: int, z: int) -> Seq<(i32, i32, i32)> {
    seq![
        (x as i32, y as i32, z as i32),
        ((x - 1) as i32, (y + 1) as i32, z as i32),
        (x as i32, (y + 1) as i32, z as i32),
        ((x + 1) as i32, (y + 1) as i32, z as i32),
        (x as i32, (y + 2) as i32, z as i32),
    ]
}

/// The blocks of the Z-axis T-shape: body, three arms, head.
pub open spec fn iron_z_blocks(x: int, y: int, z: int) -> Seq<(i32, i32, i32)> {
    seq![
        (x as i32, y as i32, z as i32),
        (x as i32, (y + 1) as i32, (z - 1) as i32),
        (x as i32, (y + 1) as i32, z as i32),
        (x as i32, (y + 1) as i32, (z + 1) as i32),
        (x as i32, (y + 2) as i32, z as i32),
    ]
}

/// Check whether the world contains a valid Iron Golem T-shape pattern.
///
/// The T-shape is three iron blocks across (along X or Z) at `y + 1`, one
/// iron block below the centre at `y`, and a pumpkin on top at `y + 2`.
/// The X orientation is tried first at each position. Returns the five block
/// positions to clear for the first match in scan order, or `None`.
pub fn check_iron_golem_pattern<F: Fn(i32, i32, i32) -> u16>(get_block: &F) -> (r: Option<Vec<(i32, i32, i32)>>)
    requires
        is_lookup(*get_block),
    ensures
        match r {
            None => forall|x: int, y: int, z: int|
                in_scan(x, y, z) ==> !iron_x_at(*get_block, x, y, z) && !iron_z_at(*get_block, x, y, z),
            Some(v) => exists|x: int, y: int, z: int| {
                &&& in_scan(x, y, z)
                &&& if iron_x_given(*get_block, x, y, z) {
                    v@ == iron_x_blocks(x, y, z)
                } else {
                    iron_z_given(*get_block, x, y, z) && v@ == iron_z_blocks(x, y, z)
                }
                &&& forall|x2: int, y2: int, z2: int|
                    in_scan(x2, y2, z2) && scanned_before(x2, y2, z2, x, y, z)
                        ==> !iron_x_at(*get_block, x2, y2, z2) && !iron_z_at(*get_block, x2, y2, z2)
            },
        },
{
    let mut y: i32 = -64;
    while y <= 128
        invariant
            is_lookup(*get_block),
            -64 <= y <= 129,
            forall|x2: int, y2: int, z2: int|
                in_scan(x2, y2, z2) && y2 < y
                    ==> !iron_x_at(*get_block, x2, y2, z2) && !iron_z_at(*get_block, x2, y2, z2),
        decreases 129 - y,
    {
        let mut x: i32 = -64;
        while x <= 64
            invariant
                is_lookup(*get_block),
                -64 <= y <= 128,
                -64 <= x <= 65,
                forall|x2: int, y2: int, z2: int|
                    in_scan(x2, y2, z2) && (y2 < y || (y2 == y && x2 < x))
                        ==> !iron_x_at(*get_block, x2, y2, z2) && !iron_z_at(*get_block, x2, y2, z2),
            decreases 65 - x,
        {
            let mut z: i32 = -64;
            while z <= 64
                invariant
                    is_lookup(*get_block),
                    -64 <= y <= 128,
                    -64 <= x <= 64,
                    -64 <= z <= 65,
                    forall|x2: int, y2: int, z2: int|
                        in_scan(x2, y2, z2) && scanned_before(x2, y2, z2, x as int, y as int, z as int)
                            ==> !iron_x_at(*get_block, x2, y2, z2) && !iron_z_at(*get_block, x2, y2, z2),
                decreases 65 - z,
            {
                if get_block(x, y, z) == IRON_BLOCK_ID {
                    if get_block(x - 1, y + 1, z) == IRON_BLOCK_ID
                        && get_block(x, y + 1, z) == IRON_BLOCK_ID
                        && get_block(x + 1, y + 1, z) == IRON_BLOCK_ID
                        && get_block(x, y + 2, z) == PUMPKIN_BLOCK_ID
                    {
                        let v = vec![
                            (x, y, z),
                            (x - 1, y + 1, z),
                            (x, y + 1, z),
                            (x + 1, y + 1, z),
                            (x, y + 2, z),
                        ];
                        assert(iron_x_given(*get_block, x as int, y as int, z as int));
                        assert(v@ =~= iron_x_blocks(x as int, y as int, z as int));
                        return Some(v);
                    }
                    if get_block(x, y + 1, z - 1) == IRON_BLOCK_ID
                        && get_block(x, y + 1, z) == IRON_BLOCK_ID
                        && get_block(x, y + 1, z + 1) == IRON_BLOCK_ID
                        && get_block(x, y + 2, z) == PUMPKIN_BLOCK_ID
                    {
                        let v = vec![
                            (x, y, z),
                            (x, y + 1, z - 1),
                            (x, y + 1, z),
                            (x, y + 1, z + 1),
                            (x, y + 2, z),
                        ];
                        assert(!iron_x_given(*get_block, x as int, y as int, z as int));
                        assert(iron_z_given(*get_block, x as int, y as int, z as int));
                        assert(v@ =~= iron_z_blocks(x as int, y as int, z as int));
                        return Some(v);
                    }
                }
                assert(!iron_x_at(*get_block, x as int, y as int, z as int));
                assert(!iron_z_at(*get_block, x as int, y as int, z as int));
                z = z + 1;
            }
            x = x + 1;
        }
        y = y + 1;
    }
    None
}

/// A snow golem stack with its lower snow block at `(x, y, z)`.
pub open spec fn snow_at<F: Fn(i32, i32, i32) -> u16>(f: F, x: int, y: int, z: int) -> bool {
    &&& reports(f, x, y, z, SNOW_BLOCK_ID)
    &&& reports(f, x, y + 1, z, SNOW_BLOCK_ID)
    &&& reports(f, x, y + 2, z, PUMPKIN_BLOCK_ID)
}

/// Check whether the world contains a valid Snow Golem pattern: two snow
/// blocks stacked at `y` and `y + 1` under a pumpkin at `y + 2`. Returns the
/// three block positions to clear for the first match in scan order, or `None`.
pub fn check_snow_golem_pattern<F: Fn(i32, i32, i32) -> u16>(get_block: &F) -> (r: Option<Vec<(i32, i32, i32)>>)
    requires
        is_lookup(*get_block),
    ensures
        match r {
            None => forall|x: int, y: int, z: int| in_scan(x, y, z) ==> !snow_at(*get_block, x, y, z),
            Some(v) => exists|x: int, y: int, z: int| {
                &&& in_scan(x, y, z)
                &&& snow_given(*get_block, x, y, z)
                &&& v@ == seq![(x as i32, y as i32, z as i32), (x as i32, (y + 1) as i32, z as i32), (x as i32, (y + 2) as i32, z as i32)]
                &&& forall|x2: int, y2: int, z2: int|
                    in_scan(x2, y2, z2) && scanned_before(x2, y2, z2, x, y, z) ==> !snow_at(*get_block, x2, y2, z2)
            },
        },
{
    let mut y: i32 = -64;
    while y <= 128
        invariant
            is_lookup(*get_block),
            -64 <= y <= 129,
            forall|x2: int, y2: int, z2: int| in_scan(x2, y2, z2) && y2 < y ==> !snow_at(*get_block, x2, y2, z2),
        decreases 129 - y,
    {
        let mut x: i32 = -64;
        while x <= 64
            invariant
                is_lookup(*get_block),
                -64 <= y <= 128,
                -64 <= x <= 65,
                forall|x2: int, y2: int, z2: int|
                    in_scan(x2, y2, z2) && (y2 < y || (y2 == y && x2 < x)) ==> !snow_at(*get_block, x2, y2, z2),
            decreases 65 - x,
        {
            let mut z: i32 = -64;
            while z <= 64
                invariant
                    is_lookup(*get_block),
                    -64 <= y <= 128,
                    -64 <= x <= 64,
                    -64 <= z <= 65,
                    forall|x2: int, y2: int, z2: int|
                        in_scan(x2, y2, z2) && scanned_before(x2, y2, z2, x as int, y as int, z as int)
                            ==> !snow_at(*get_block, x2, y2, z2),
                decreases 65 - z,
            {
                if get_block(x, y, z) == SNOW_BLOCK_ID
                    && get_block(x, y + 1, z) == SNOW_BLOCK_ID
                    && get_block(x, y + 2, z) == PUMPKIN_BLOCK_ID
                {
                    let v = vec![(x, y, z), (x, y + 1, z), (x, y + 2, z)];
                    assert(snow_given(*get_block, x as int, y as int, z as int));
                    assert(v@ =~= seq![(x, y, z), (x, (y + 1) as i32, z), (x, (y + 2) as i32, z)]);
                    assert(in_scan(x as int, y as int, z as int));
                    return Some(v);
                }
                assert(!snow_at(*get_block, x as int, y as int, z as int));
                z = z + 1;
            }
            x = x + 1;
        }
        y = y + 1;
    }
    None
}

} // verus!
