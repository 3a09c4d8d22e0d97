use mc_entity::enchant_visual::has_enchant_glow;

#[test]
fn no_glow_for_zero_enchants() {
    assert!(!has_enchant_glow(0));
}

#[test]
fn glow_for_nonzero_enchants() {
    assert!(has_enchant_glow(1));
    assert!(has_enchant_glow(5));
    assert!(has_enchant_glow(255));
}

