use mc_entity::ominous::{
    apply_ominous_bottle, bad_omen_max_level, ominous_trial_activation, tick_ominous,
    trigger_raid_on_village_enter, OminousState, BAD_OMEN_MAX, DEFAULT_DURATION_TICKS,
    TICKS_PER_LEVEL,
};

#[test]
fn new_state_has_no_bad_omen() {
    let state = OminousState::new();
    assert_eq!(state.bad_omen_level, 0);
    assert_eq!(state.duration_ticks, 0);
}

#[test]
fn default_matches_new() {
    assert_eq!(OminousState::default(), OminousState::new());
}

#[test]
fn apply_bottle_sets_level_and_duration() {
    let mut state = OminousState::new();
    apply_ominous_bottle(&mut state, 1);
    assert_eq!(state.bad_omen_level, 1);
    assert_eq!(state.duration_ticks, DEFAULT_DURATION_TICKS + TICKS_PER_LEVEL);
}

#[test]
fn apply_bottle_stacks_levels() {
    let mut state = OminousState::new();
    apply_ominous_bottle(&mut state, 2);
    assert_eq!(state.bad_omen_level, 2);

    apply_ominous_bottle(&mut state, 2);
    assert_eq!(state.bad_omen_level, 4);
    assert_eq!(state.duration_ticks, DEFAULT_DURATION_TICKS + TICKS_PER_LEVEL * 4);
}

#[test]
fn apply_bottle_clamps_at_max_level() {
    let mut state = OminousState::new();
    apply_ominous_bottle(&mut state, 5);
    assert_eq!(state.bad_omen_level, BAD_OMEN_MAX);

    apply_ominous_bottle(&mut state, 3);
    assert_eq!(state.bad_omen_level, BAD_OMEN_MAX);
    assert_eq!(
        state.duration_ticks,
        DEFAULT_DURATION_TICKS + TICKS_PER_LEVEL * u32::from(BAD_OMEN_MAX)
    );
}

#[test]
fn apply_bottle_clamps_input_level() {
    let mut state = OminousState::new();
    apply_ominous_bottle(&mut state, 10);
    assert_eq!(state.bad_omen_level, BAD_OMEN_MAX);
}

#[test]
fn apply_bottle_zero_level_is_noop() {
    let mut state = OminousState::new();
    apply_ominous_bottle(&mut state, 0);
    assert_eq!(state.bad_omen_level, 0);
    assert_eq!(state.duration_ticks, DEFAULT_DURATION_TICKS);
}

#[test]
fn apply_bottle_with_huge_levels_does_not_overflow() {
    let mut state = OminousState { bad_omen_level: 255, duration_ticks: 0 };
    apply_ominous_bottle(&mut state, 255);
    assert_eq!(state.bad_omen_level, BAD_OMEN_MAX);
    assert_eq!(state.duration_ticks, 130_000);
}

#[test]
fn raid_triggers_with_bad_omen() {
    assert!(trigger_raid_on_village_enter(true));
}

#[test]
fn raid_does_not_trigger_without_bad_omen() {
    assert!(!trigger_raid_on_village_enter(false));
}

#[test]
fn trial_activates_with_bad_omen() {
    assert!(ominous_trial_activation(true));
}

#[test]
fn trial_does_not_activate_without_bad_omen() {
    assert!(!ominous_trial_activation(false));
}

#[test]
fn max_level_is_five() {
    assert_eq!(bad_omen_max_level(), 5);
}

#[test]
fn ominous_tick_decrements_duration() {
    let mut state = OminousState::new();
    apply_ominous_bottle(&mut state, 1);
    let initial = state.duration_ticks;

    let expired = tick_ominous(&mut state, 100);
    assert!(!expired);
    assert_eq!(state.duration_ticks, initial - 100);
    assert_eq!(state.bad_omen_level, 1);
}

#[test]
fn tick_expires_and_resets_level() {
    let mut state = OminousState::new();
    apply_ominous_bottle(&mut state, 1);
    let total = state.duration_ticks;

    let expired = tick_ominous(&mut state, total);
    assert!(expired);
    assert_eq!(state.bad_omen_level, 0);
    assert_eq!(state.duration_ticks, 0);
}

#[test]
fn tick_returns_true_when_no_bad_omen() {
    let mut state = OminousState::new();
    assert!(tick_ominous(&mut state, 100));
}

#[test]
fn tick_saturates_at_zero() {
    let mut state = OminousState::new();
    apply_ominous_bottle(&mut state, 1);

    let expired = tick_ominous(&mut state, u32::MAX);
    assert!(expired);
    assert_eq!(state.duration_ticks, 0);
    assert_eq!(state.bad_omen_level, 0);
}

#[test]
fn tick_partial_then_expire() {
    let mut state = OminousState::new();
    apply_ominous_bottle(&mut state, 2);
    let total = state.duration_ticks;

    let expired = tick_ominous(&mut state, total / 2);
    assert!(!expired);
    assert_eq!(state.bad_omen_level, 2);

    let expired = tick_ominous(&mut state, total - total / 2);
    assert!(expired);
    assert_eq!(state.bad_omen_level, 0);
}

#[test]
fn full_lifecycle() {
    let mut state = OminousState::new();

    assert!(!trigger_raid_on_village_enter(state.bad_omen_level > 0));
    assert!(!ominous_trial_activation(state.bad_omen_level > 0));

    apply_ominous_bottle(&mut state, 1);
    assert_eq!(state.bad_omen_level, 1);
    assert!(trigger_raid_on_village_enter(state.bad_omen_level > 0));
    assert!(ominous_trial_activation(state.bad_omen_level > 0));

    for _ in 0..10 {
        apply_ominous_bottle(&mut state, 1);
    }
    assert_eq!(state.bad_omen_level, bad_omen_max_level());

    let total = state.duration_ticks;
    let expired = tick_ominous(&mut state, total);
    assert!(expired);
    assert_eq!(state.bad_omen_level, 0);
    assert!(!trigger_raid_on_village_enter(state.bad_omen_level > 0));
}
