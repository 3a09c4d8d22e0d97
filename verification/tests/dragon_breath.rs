use mc_entity::dragon_breath::dragon_breath_item_id;

#[test]
fn dragon_breath_item_id_is_9300() {
    assert_eq!(dragon_breath_item_id(), 9300);
}
