//! Ominous bottles and the bad omen effect.
use vstd::prelude::*;

verus! {

/// Maximum bad omen level a player can have.
pub const BAD_OMEN_MAX: u8 = 5;

/// Base duration in ticks of the bad omen effect (100 minutes at 20 ticks
/// per second).
pub const DEFAULT_DURATION_TICKS: u32 = 120_000;

/// Duration in ticks added per bad omen level.
pub const TICKS_PER_LEVEL: u32 = 2_000;

/// Persistent state of the bad omen effect on a player.
#[derive(Debug, Clone, PartialEq, Eq, Structural)]
pub struct OminousState {
    pub bad_omen_level: u8,
    pub duration_ticks: u32,
}

impl OminousState {
    /// No active bad omen.
    pub fn new() -> (s: Self)
        ensures
            s.bad_omen_level == 0,
            s.duration_ticks == 0,
    {
        Self { bad_omen_level: 0, duration_ticks: 0 }
    }
}

impl Default for OminousState {
    fn default() -> (s: Self)
        ensures
            s.bad_omen_level == 0,
            s.duration_ticks == 0,
    {
        Self::new()
    }
}

/// Drink an ominous bottle of potency `level`: the bad omen level becomes
/// `min(old + min(level, 5), 5)` and the duration is reset to
/// `120000 + 2000 * new level`.
pub fn apply_ominous_bottle(state: &mut OminousState, level: u8)
    ensures
        final(state).bad_omen_level == (if old(state).bad_omen_level + level < BAD_OMEN_MAX {
            old(state).bad_omen_level + level
        } else {
            BAD_OMEN_MAX as int
        }),
        final(state).duration_ticks == DEFAULT_DURATION_TICKS + TICKS_PER_LEVEL * final(state).bad_omen_level,
        final(state).bad_omen_level <= BAD_OMEN_MAX,
{
    let clamped = if level < BAD_OMEN_MAX { level } else { BAD_OMEN_MAX };
    let sum: u16 = state.bad_omen_level as u16 + clamped as u16;
    let new_level: u8 = if sum < BAD_OMEN_MAX as u16 { sum as u8 } else { BAD_OMEN_MAX };
    state.bad_omen_level = new_level;
    state.duration_ticks = DEFAULT_DURATION_TICKS + TICKS_PER_LEVEL * (new_level as u32);
}

/// A raid starts when a player with bad omen enters a village.
pub fn trigger_raid_on_village_enter(has_bad_omen: bool) -> (b: bool)
    ensures
        b == has_bad_omen,
{
    has_bad_omen
}

/// An ominous trial spawner activates when a player with bad omen is near.
pub fn ominous_trial_activation(has_bad_omen: bool) -> (b: bool)
    ensures
        b == has_bad_omen,
{
    has_bad_omen
}

/// The maximum level bad omen can reach.
pub fn bad_omen_max_level() -> (l: u8)
    ensures
        l == BAD_OMEN_MAX,
{
    BAD_OMEN_MAX
}

/// The effect after `dt` more ticks: without bad omen nothing changes;
/// otherwise the duration drops by `dt` (not below zero), and the level is
/// reset when it reaches zero.
pub open spec fn ticked(s: OminousState, dt: int) -> OminousState {
    if s.bad_omen_level == 0 {
        s
    } else {
        let d = if s.duration_ticks > dt { s.duration_ticks - dt } else { 0 };
        OminousState { bad_omen_level: if d == 0 { 0 } else { s.bad_omen_level }, duration_ticks: d as u32 }
    }
}

/// Time can be split: ticking `a` and then `b` ticks leaves the effect as
/// ticking `a + b` ticks at once.
pub proof fn lemma_tick_in_parts(s: OminousState, a: nat, b: nat)
    ensures
        ticked(ticked(s, a as int), b as int) == ticked(s, (a + b) as int),
{
}

/// Advance the effect by `dt` ticks. Without bad omen nothing changes and
/// the effect counts as expired. Otherwise the duration drops by `dt`
/// (not below zero); on reaching zero the level is reset and `true` is
/// returned.
pub fn tick_ominous(state: &mut OminousState, dt: u32) -> (expired: bool)
    ensures
        old(state).bad_omen_level == 0 ==> expired && *final(state) == *old(state),
        old(state).bad_omen_level != 0 ==> {
            let d = if old(state).duration_ticks > dt { old(state).duration_ticks - dt } else { 0 };
            &&& final(state).duration_ticks == d
            &&& expired == (d == 0)
            &&& final(state).bad_omen_level == (if d == 0 { 0 } else { old(state).bad_omen_level })
        },
        *final(state) == ticked(*old(state), dt as int),
{
    if state.bad_omen_level == 0 {
        return true;
    }
    state.duration_ticks = if state.duration_ticks > dt { state.duration_ticks - dt } else { 0 };
    if state.duration_ticks == 0 {
        state.bad_omen_level = 0;
        return true;
    }
    false
}

} // verus!
