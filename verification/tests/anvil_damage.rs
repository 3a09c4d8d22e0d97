use mc_entity::anvil_damage::{damage_anvil, AnvilState};

#[test]
fn anvil_state_progression() {
    assert_eq!(damage_anvil(AnvilState::Pristine), AnvilState::Chipped);
    assert_eq!(damage_anvil(AnvilState::Chipped), AnvilState::Damaged);
    assert_eq!(damage_anvil(AnvilState::Damaged), AnvilState::Broken);
}

#[test]
fn broken_anvil_stays_broken() {
    assert_eq!(damage_anvil(AnvilState::Broken), AnvilState::Broken);
}

#[test]
fn three_falls_break_any_anvil() {
    for start in [AnvilState::Pristine, AnvilState::Chipped, AnvilState::Damaged, AnvilState::Broken] {
        let mut s = start;
        for _ in 0..3 {
            s = damage_anvil(s);
        }
        assert_eq!(s, AnvilState::Broken);
    }
}
