//! Mob behaviour: what each species does at a given distance from the
//! player.
use vstd::prelude::*;
use crate::component::MobKind;

verus! {

/// How far the player is, as the behaviour rules care: each flag says
/// whether the distance is within one of the rule thresholds.
#[derive(Debug, Clone, Copy, PartialEq, Eq, Structural)]
pub struct PlayerRange {
    /// Within 2 blocks: melee reach.
    pub within_attack: bool,
    /// Within 3 blocks: a creeper's fuse range.
    pub within_explode: bool,
    /// Closer than 10 blocks: inside a skeleton's preferred distance.
    pub closer_than_preferred: bool,
    /// Within 16 blocks: hostile detection and skeleton shooting range.
    pub within_detection: bool,
    /// Closer than 16 blocks: the range a hit passive mob keeps fleeing in.
    pub within_flee: bool,
    /// Farther than 16 blocks: beyond skeleton shooting range. (With the
    /// other flags false as well, the distance is not a number.)
    pub beyond_range: bool,
}

/// The action a mob takes, without positions and speeds.
#[derive(Debug, Clone, Copy, PartialEq, Eq, Structural)]
pub enum MobChoice {
    Idle,
    WalkToward,
    FleeFrom,
    Attack,
    Explode,
}

/// Whether a mob kind is passive.
pub open spec fn is_passive(kind: MobKind) -> bool {
    kind == MobKind::Pig || kind == MobKind::Cow || kind == MobKind::Sheep || kind == MobKind::Chicken
}

/// The behaviour rules: zombies and spiders attack in reach and walk toward
/// a detected player; creepers explode within fuse range and walk toward a
/// detected player; skeletons idle beyond shooting range, back away when
/// closer than their preferred distance, shoot when within detection range
/// and otherwise (a distance that compares with nothing) walk toward the
/// player; passive mobs idle.
pub open spec fn choice_spec(kind: MobKind, r: PlayerRange) -> MobChoice {
    match kind {
        MobKind::Zombie | MobKind::Spider => if r.within_attack {
            MobChoice::Attack
        } else if r.within_detection {
            MobChoice::WalkToward
        } else {
            MobChoice::Idle
        },
        MobKind::Creeper => if r.within_explode {
            MobChoice::Explode
        } else if r.within_detection {
            MobChoice::WalkToward
        } else {
            MobChoice::Idle
        },
        MobKind::Skeleton => if r.beyond_range {
            MobChoice::Idle
        } else if !r.within_detection {
            MobChoice::WalkToward
        } else if r.closer_than_preferred {
            MobChoice::FleeFrom
        } else {
            MobChoice::Attack
        },
        _ => MobChoice::Idle,
    }
}

/// The action of a mob of the given kind with the player at the given range.
pub fn behavior_choice(kind: MobKind, range: PlayerRange) -> (c: MobChoice)
    ensures
        c == choice_spec(kind, range),
{
    match kind {
        MobKind::Zombie | MobKind::Spider => if range.within_attack {
            MobChoice::Attack
        } else if range.within_detection {
            MobChoice::WalkToward
        } else {
            MobChoice::Idle
        },
        MobKind::Creeper => if range.within_explode {
            MobChoice::Explode
        } else if range.within_detection {
            MobChoice::WalkToward
        } else {
            MobChoice::Idle
        },
        MobKind::Skeleton => if range.beyond_range {
            MobChoice::Idle
        } else if !range.within_detection {
            MobChoice::WalkToward
        } else if range.closer_than_preferred {
            MobChoice::FleeFrom
        } else {
            MobChoice::Attack
        },
        _ => MobChoice::Idle,
    }
}

/// The action of a mob that remembers whether it was hit, and whether it
/// still remembers it afterwards: a passive mob that was hit flees while
/// the player is within range and forgets the hit once out of range; other
/// mobs follow the plain rules and keep their memory.
pub fn behavior_choice_with_memory(kind: MobKind, was_hit: bool, range: PlayerRange) -> (r: (MobChoice, bool))
    ensures
        is_passive(kind) && was_hit && range.within_flee ==> r == (MobChoice::FleeFrom, true),
        is_passive(kind) && !(was_hit && range.within_flee) ==> r == (MobChoice::Idle, false),
        !is_passive(kind) ==> r == (choice_spec(kind, range), was_hit),
{
    match kind {
        MobKind::Pig | MobKind::Cow | MobKind::Sheep | MobKind::Chicken => {
            if was_hit && range.within_flee {
                (MobChoice::FleeFrom, true)
            } else {
                (MobChoice::Idle, false)
            }
        },
        _ => (behavior_choice(kind, range), was_hit),
    }
}

} // verus!
