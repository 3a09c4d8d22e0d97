use mc_entity::phantom::should_spawn;

#[test]
fn does_not_spawn_before_threshold() {
    assert!(!should_spawn(0));
    assert!(!should_spawn(71_999));
}

#[test]
fn spawns_at_exactly_threshold() {
    assert!(should_spawn(72_000));
}

#[test]
fn spawns_after_threshold() {
    assert!(should_spawn(100_000));
}

