//! The Ender Dragon fight: its phases and how they follow one another.
use vstd::prelude::*;

verus! {

/// Experience points awarded for defeating the Ender Dragon.
pub const XP_REWARD: u32 = 12_000;

/// Current phase of the Ender Dragon fight.
#[derive(Debug, Clone, Copy, PartialEq, Eq, Hash, Structural)]
pub enum DragonPhase {
    Circling,
    Strafing,
    Landing,
    Perching,
    Dying,
    Dead,
}

/// What happened to the dragon during a tick, as far as phases care.
#[derive(Debug, Clone, Copy, PartialEq, Eq, Structural)]
pub enum PhaseCue {
    /// The current phase's timer ran out (30 s circling, 10 s strafing,
    /// 10 s perching, 5 s dying).
    TimerElapsed,
    /// The strafing dragon came within reach (5 blocks) of its target.
    TargetReached,
    /// The landing dragon came below the perch height.
    Landed,
    /// A blow while perching brought the dragon's health to zero.
    Killed,
    /// Nothing that changes the phase.
    Nothing,
}

/// The phase after a cue: circling gives way to strafing on its timer;
/// strafing returns to circling on reaching the target or on its timer;
/// landing becomes perching on touching down; perching returns to
/// circling on its timer, or turns to dying when killed; dying ends in
/// death on its timer; death is final.
pub open spec fn next_phase_spec(phase: DragonPhase, cue: PhaseCue) -> DragonPhase {
    match phase {
        DragonPhase::Circling => if cue == PhaseCue::TimerElapsed { DragonPhase::Strafing } else { phase },
        DragonPhase::Strafing => if cue == PhaseCue::TimerElapsed || cue == PhaseCue::TargetReached {
            DragonPhase::Circling
        } else {
            phase
        },
        DragonPhase::Landing => if cue == PhaseCue::Landed { DragonPhase::Perching } else { phase },
        DragonPhase::Perching => if cue == PhaseCue::Killed {
            DragonPhase::Dying
        } else if cue == PhaseCue::TimerElapsed {
            DragonPhase::Circling
        } else {
            phase
        },
        DragonPhase::Dying => if cue == PhaseCue::TimerElapsed { DragonPhase::Dead } else { phase },
        DragonPhase::Dead => phase,
    }
}

/// The phase after a cue; the phase timer restarts whenever the phase
/// changes.
pub fn next_phase(phase: DragonPhase, cue: PhaseCue) -> (p: DragonPhase)
    ensures
        p == next_phase_spec(phase, cue),
{
    match phase {
        DragonPhase::Circling => if cue == PhaseCue::TimerElapsed { DragonPhase::Strafing } else { phase },
        DragonPhase::Strafing => if cue == PhaseCue::TimerElapsed || cue == PhaseCue::TargetReached {
            DragonPhase::Circling
        } else {
            phase
        },
        DragonPhase::Landing => if cue == PhaseCue::Landed { DragonPhase::Perching } else { phase },
        DragonPhase::Perching => if cue == PhaseCue::Killed {
            DragonPhase::Dying
        } else if cue == PhaseCue::TimerElapsed {
            DragonPhase::Circling
        } else {
            phase
        },
        DragonPhase::Dying => if cue == PhaseCue::TimerElapsed { DragonPhase::Dead } else { phase },
        DragonPhase::Dead => phase,
    }
}

/// The dragon takes damage only while perching.
pub fn is_vulnerable(phase: DragonPhase) -> (b: bool)
    ensures
        b == (phase == DragonPhase::Perching),
{
    phase == DragonPhase::Perching
}

/// Death is final, and only a perching dragon can start dying.
pub proof fn lemma_dead_is_final(phase: DragonPhase, cue: PhaseCue)
    ensures
        phase == DragonPhase::Dead ==> next_phase_spec(phase, cue) == DragonPhase::Dead,
        next_phase_spec(phase, cue) == DragonPhase::Dying ==> phase == DragonPhase::Dying || phase == DragonPhase::Perching,
        next_phase_spec(phase, cue) == DragonPhase::Dead ==> phase == DragonPhase::Dying || phase == DragonPhase::Dead,
{
}

} // verus!
