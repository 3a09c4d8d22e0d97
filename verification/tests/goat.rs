use mc_entity::goat::drops_horn_on_ram;

#[test]
fn drops_horn_when_hitting_log() {
    assert!(drops_horn_on_ram(true));
}

#[test]
fn no_horn_when_not_hitting_log() {
    assert!(!drops_horn_on_ram(false));
}

