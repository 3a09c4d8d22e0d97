use mc_entity::allay_ai::{allay_can_duplicate, AllayAiState};

#[test]
fn new_state_is_idle() {
    let state = AllayAiState::new();
    assert_eq!(state.held_item, None);
    assert_eq!(state.note_block, None);
    assert!(!state.collecting);
}

#[test]
fn duplicate_requires_both_conditions() {
    assert!(allay_can_duplicate(true, true));
    assert!(!allay_can_duplicate(true, false));
    assert!(!allay_can_duplicate(false, true));
    assert!(!allay_can_duplicate(false, false));
}
