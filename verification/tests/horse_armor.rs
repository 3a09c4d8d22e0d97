use mc_entity::horse_armor::{
    dyeable_leather_horse_armor, horse_armor_item_id, horse_armor_protection_points,
    is_horse_armor_item, HorseArmorType,
};

#[test]
fn item_ids() {
    assert_eq!(horse_armor_item_id(HorseArmorType::NoArmor), 0);
    assert_eq!(horse_armor_item_id(HorseArmorType::Iron), 8100);
    assert_eq!(horse_armor_item_id(HorseArmorType::Gold), 8101);
    assert_eq!(horse_armor_item_id(HorseArmorType::Diamond), 8102);
    assert_eq!(horse_armor_item_id(HorseArmorType::Leather(0)), 8103);
}

#[test]
fn dyeable_leather_creates_correct_variant() {
    let armor = dyeable_leather_horse_armor(128);
    assert_eq!(armor, HorseArmorType::Leather(128));
}

#[test]
fn is_horse_armor_item_valid_ids() {
    assert!(is_horse_armor_item(8100));
    assert!(is_horse_armor_item(8101));
    assert!(is_horse_armor_item(8102));
    assert!(is_horse_armor_item(8103));
}

#[test]
fn is_horse_armor_item_invalid_ids() {
    assert!(!is_horse_armor_item(0));
    assert!(!is_horse_armor_item(8099));
    assert!(!is_horse_armor_item(8104));
    assert!(!is_horse_armor_item(u16::MAX));
}

#[test]
fn protection_points_table() {
    assert_eq!(horse_armor_protection_points(HorseArmorType::NoArmor), 0);
    assert_eq!(horse_armor_protection_points(HorseArmorType::Iron), 5);
    assert_eq!(horse_armor_protection_points(HorseArmorType::Gold), 7);
    assert_eq!(horse_armor_protection_points(HorseArmorType::Diamond), 11);
    assert_eq!(horse_armor_protection_points(HorseArmorType::Leather(0)), 3);
    assert_eq!(horse_armor_protection_points(HorseArmorType::Leather(255)), 3);
}

#[test]
fn every_armor_item_id_is_recognised() {
    for a in [HorseArmorType::Iron, HorseArmorType::Gold, HorseArmorType::Diamond, HorseArmorType::Leather(9)] {
        assert!(is_horse_armor_item(horse_armor_item_id(a)));
    }
    assert!(!is_horse_armor_item(horse_armor_item_id(HorseArmorType::NoArmor)));
}

#[test]
fn protection_values() {
    assert_eq!(horse_armor_protection_points(HorseArmorType::NoArmor), 0);
    assert_eq!(horse_armor_protection_points(HorseArmorType::Iron), 5);
    assert_eq!(horse_armor_protection_points(HorseArmorType::Gold), 7);
    assert_eq!(horse_armor_protection_points(HorseArmorType::Diamond), 11);
    assert_eq!(horse_armor_protection_points(HorseArmorType::Leather(0)), 3);
    assert_eq!(horse_armor_protection_points(HorseArmorType::Leather(255)), 3);
}
