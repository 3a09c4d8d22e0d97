use mc_entity::bee::{bee_choice, lose_stinger, BeeChoice, BeeState, HiveState};

#[test]
fn new_bee_has_no_pollen_no_anger_no_hive() {
    let bee = BeeState::new();
    assert!(!bee.has_pollen);
    assert_eq!(bee.anger_ticks, 0);
    assert_eq!(bee.hive_pos, None);
    assert!(!bee.is_angry());
}

#[test]
fn bee_with_hive_stores_position() {
    let bee = BeeState::with_hive((10, 64, -20));
    assert_eq!(bee.hive_pos, Some((10, 64, -20)));
    assert!(!bee.has_pollen);
    assert_eq!(bee.anger_ticks, 0);
}

#[test]
fn lose_stinger_schedules_death_after_sting() {
    assert_eq!(lose_stinger(true), Some(60));
}

#[test]
fn lose_stinger_returns_none_when_not_stung() {
    assert_eq!(lose_stinger(false), None);
}

#[test]
fn new_hive_is_empty() {
    let hive = HiveState::new();
    assert_eq!(hive.bees, 0);
    assert_eq!(hive.honey_level, 0);
    assert!(!hive.is_full());
    assert!(hive.can_accept_bee());
}

#[test]
fn bee_enters_hive_with_pollen_increases_honey() {
    let hive = HiveState::new();
    let updated = hive.bee_enters_with_pollen().unwrap();
    assert_eq!(updated.bees, 1);
    assert_eq!(updated.honey_level, 1);
}

#[test]
fn hive_honey_level_caps_at_five() {
    let hive = HiveState { bees: 0, honey_level: 5 };
    assert!(hive.is_full());
    let updated = hive.bee_enters_with_pollen().unwrap();
    assert_eq!(updated.honey_level, 5);
}

#[test]
fn hive_rejects_bee_when_full_of_bees() {
    let hive = HiveState { bees: 3, honey_level: 0 };
    assert!(!hive.can_accept_bee());
    assert!(hive.bee_enters_with_pollen().is_none());
}

#[test]
fn bee_exits_hive_decreases_count() {
    let hive = HiveState { bees: 2, honey_level: 3 };
    let updated = hive.bee_exits().unwrap();
    assert_eq!(updated.bees, 1);
    assert_eq!(updated.honey_level, 3);
}

#[test]
fn bee_cannot_exit_empty_hive() {
    let hive = HiveState::new();
    assert!(hive.bee_exits().is_none());
}

#[test]
fn enter_then_exit_restores_bee_count() {
    let hive = HiveState { bees: 1, honey_level: 2 };
    let after = hive.bee_enters_with_pollen().unwrap().bee_exits().unwrap();
    assert_eq!(after.bees, 1);
    assert_eq!(after.honey_level, 3);
}

#[test]
fn angry_bee_stings_target() {
    let bee = BeeState { has_pollen: false, anger_ticks: 100, hive_pos: None };
    assert_eq!(bee_choice(&bee, false, true), BeeChoice::Sting);
}

#[test]
fn angry_bee_wanders_when_no_target() {
    let bee = BeeState { has_pollen: false, anger_ticks: 50, hive_pos: None };
    assert_eq!(bee_choice(&bee, false, false), BeeChoice::Wander);
}

#[test]
fn bee_with_pollen_returns_to_hive() {
    let bee = BeeState { has_pollen: true, anger_ticks: 0, hive_pos: Some((10, 64, 10)) };
    assert_eq!(bee_choice(&bee, true, false), BeeChoice::ReturnToHive);
}

#[test]
fn bee_without_pollen_pollinates_when_flowers_nearby() {
    let bee = BeeState { has_pollen: false, anger_ticks: 0, hive_pos: Some((10, 64, 10)) };
    assert_eq!(bee_choice(&bee, true, false), BeeChoice::Pollinate);
}

#[test]
fn bee_wanders_when_nothing_to_do() {
    assert_eq!(bee_choice(&BeeState::new(), false, false), BeeChoice::Wander);
}

#[test]
fn angry_bee_prioritizes_sting_over_return_to_hive() {
    let bee = BeeState { has_pollen: true, anger_ticks: 30, hive_pos: Some((10, 64, 10)) };
    assert_eq!(bee_choice(&bee, false, true), BeeChoice::Sting);
}

#[test]
fn bee_without_hive_wanders_even_with_pollen() {
    let bee = BeeState { has_pollen: true, anger_ticks: 0, hive_pos: None };
    assert_eq!(bee_choice(&bee, true, false), BeeChoice::Wander);
}
