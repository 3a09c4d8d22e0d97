use mc_entity::movement_effects::sneak_suppresses_particles;

#[test]
fn sneak_suppresses() {
    assert!(sneak_suppresses_particles());
}
