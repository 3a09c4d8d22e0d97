use mc_entity::boss::{is_vulnerable, next_phase, DragonPhase, PhaseCue, XP_REWARD};

#[test]
fn xp_reward_is_12000() {
    assert_eq!(XP_REWARD, 12_000);
}

#[test]
fn circling_transitions_to_strafing_on_timer() {
    assert_eq!(next_phase(DragonPhase::Circling, PhaseCue::Nothing), DragonPhase::Circling);
    assert_eq!(next_phase(DragonPhase::Circling, PhaseCue::TimerElapsed), DragonPhase::Strafing);
}

#[test]
fn strafing_returns_on_reach_or_timeout() {
    assert_eq!(next_phase(DragonPhase::Strafing, PhaseCue::TargetReached), DragonPhase::Circling);
    assert_eq!(next_phase(DragonPhase::Strafing, PhaseCue::TimerElapsed), DragonPhase::Circling);
    assert_eq!(next_phase(DragonPhase::Strafing, PhaseCue::Nothing), DragonPhase::Strafing);
}

#[test]
fn landing_perching_dying_dead() {
    assert_eq!(next_phase(DragonPhase::Landing, PhaseCue::Landed), DragonPhase::Perching);
    assert_eq!(next_phase(DragonPhase::Perching, PhaseCue::TimerElapsed), DragonPhase::Circling);
    assert_eq!(next_phase(DragonPhase::Perching, PhaseCue::Killed), DragonPhase::Dying);
    assert_eq!(next_phase(DragonPhase::Dying, PhaseCue::TimerElapsed), DragonPhase::Dead);
    for cue in [PhaseCue::TimerElapsed, PhaseCue::TargetReached, PhaseCue::Landed, PhaseCue::Killed, PhaseCue::Nothing] {
        assert_eq!(next_phase(DragonPhase::Dead, cue), DragonPhase::Dead);
    }
}

#[test]
fn damage_only_during_perching() {
    assert!(is_vulnerable(DragonPhase::Perching));
    for p in [DragonPhase::Circling, DragonPhase::Strafing, DragonPhase::Landing, DragonPhase::Dying, DragonPhase::Dead] {
        assert!(!is_vulnerable(p));
    }
}
