use mc_entity::honey_block::honey_sticks_entities;

#[test]
fn test_honey_sticks_entities() {
    assert!(honey_sticks_entities());
}
