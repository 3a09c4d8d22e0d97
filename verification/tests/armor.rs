use mc_entity::armor::{apply_armor_wear, ArmorMaterial, ArmorPiece, ArmorSet, ArmorSlot};

#[test]
fn slot_indices_are_unique_and_sequential() {
    assert_eq!(ArmorSlot::Helmet.index(), 0);
    assert_eq!(ArmorSlot::Chestplate.index(), 1);
    assert_eq!(ArmorSlot::Leggings.index(), 2);
    assert_eq!(ArmorSlot::Boots.index(), 3);
}

#[test]
fn leather_defense_values() {
    assert_eq!(ArmorMaterial::Leather.defense_for_slot(ArmorSlot::Helmet), 1);
    assert_eq!(ArmorMaterial::Leather.defense_for_slot(ArmorSlot::Chestplate), 3);
    assert_eq!(ArmorMaterial::Leather.defense_for_slot(ArmorSlot::Leggings), 2);
    assert_eq!(ArmorMaterial::Leather.defense_for_slot(ArmorSlot::Boots), 1);
}

#[test]
fn iron_defense_values() {
    assert_eq!(ArmorMaterial::Iron.defense_for_slot(ArmorSlot::Helmet), 2);
    assert_eq!(ArmorMaterial::Iron.defense_for_slot(ArmorSlot::Chestplate), 6);
    assert_eq!(ArmorMaterial::Iron.defense_for_slot(ArmorSlot::Leggings), 5);
    assert_eq!(ArmorMaterial::Iron.defense_for_slot(ArmorSlot::Boots), 2);
}

#[test]
fn diamond_defense_values() {
    assert_eq!(ArmorMaterial::Diamond.defense_for_slot(ArmorSlot::Helmet), 3);
    assert_eq!(ArmorMaterial::Diamond.defense_for_slot(ArmorSlot::Chestplate), 8);
    assert_eq!(ArmorMaterial::Diamond.defense_for_slot(ArmorSlot::Leggings), 6);
    assert_eq!(ArmorMaterial::Diamond.defense_for_slot(ArmorSlot::Boots), 3);
}

#[test]
fn netherite_defense_matches_diamond() {
    for slot in [ArmorSlot::Helmet, ArmorSlot::Chestplate, ArmorSlot::Leggings, ArmorSlot::Boots] {
        assert_eq!(
            ArmorMaterial::Netherite.defense_for_slot(slot),
            ArmorMaterial::Diamond.defense_for_slot(slot),
            "netherite and diamond should match for {slot:?}"
        );
    }
}

#[test]
fn gold_defense_values() {
    assert_eq!(ArmorMaterial::Gold.defense_for_slot(ArmorSlot::Helmet), 2);
    assert_eq!(ArmorMaterial::Gold.defense_for_slot(ArmorSlot::Chestplate), 5);
    assert_eq!(ArmorMaterial::Gold.defense_for_slot(ArmorSlot::Leggings), 3);
    assert_eq!(ArmorMaterial::Gold.defense_for_slot(ArmorSlot::Boots), 1);
}

#[test]
fn chain_defense_values() {
    assert_eq!(ArmorMaterial::Chain.defense_for_slot(ArmorSlot::Helmet), 2);
    assert_eq!(ArmorMaterial::Chain.defense_for_slot(ArmorSlot::Chestplate), 5);
    assert_eq!(ArmorMaterial::Chain.defense_for_slot(ArmorSlot::Leggings), 4);
    assert_eq!(ArmorMaterial::Chain.defense_for_slot(ArmorSlot::Boots), 1);
}

#[test]
fn durability_scales_with_material_and_slot() {
    assert_eq!(ArmorMaterial::Leather.durability_for_slot(ArmorSlot::Helmet), 55);
    assert_eq!(ArmorMaterial::Iron.durability_for_slot(ArmorSlot::Chestplate), 240);
    assert_eq!(ArmorMaterial::Diamond.durability_for_slot(ArmorSlot::Leggings), 495);
    assert_eq!(ArmorMaterial::Netherite.durability_for_slot(ArmorSlot::Boots), 481);
    assert_eq!(ArmorMaterial::Gold.durability_for_slot(ArmorSlot::Helmet), 77);
}

#[test]
fn new_piece_starts_at_full_durability() {
    let piece = ArmorPiece::new(ArmorMaterial::Iron, ArmorSlot::Chestplate);
    assert_eq!(piece.durability, 240);
    assert_eq!(piece.max_durability, 240);
    assert!(!piece.is_broken());
}

#[test]
fn piece_is_broken_at_zero_durability() {
    let piece = ArmorPiece {
        material: ArmorMaterial::Leather,
        slot: ArmorSlot::Boots,
        durability: 0,
        max_durability: 65,
    };
    assert!(piece.is_broken());
}

#[test]
fn equip_places_piece_in_correct_slot() {
    let mut set = ArmorSet::new();
    let helmet = ArmorPiece::new(ArmorMaterial::Iron, ArmorSlot::Helmet);
    let prev = set.equip(helmet.clone());
    assert!(prev.is_none());
    assert_eq!(set.slots[0].as_ref().unwrap().material, ArmorMaterial::Iron);
}

#[test]
fn equip_returns_previous_piece() {
    let mut set = ArmorSet::new();
    let iron = ArmorPiece::new(ArmorMaterial::Iron, ArmorSlot::Helmet);
    let diamond = ArmorPiece::new(ArmorMaterial::Diamond, ArmorSlot::Helmet);
    set.equip(iron);
    let prev = set.equip(diamond);
    assert!(prev.is_some());
    assert_eq!(prev.unwrap().material, ArmorMaterial::Iron);
    assert_eq!(set.slots[0].as_ref().unwrap().material, ArmorMaterial::Diamond);
}

#[test]
fn unequip_removes_and_returns_piece() {
    let mut set = ArmorSet::new();
    set.equip(ArmorPiece::new(ArmorMaterial::Gold, ArmorSlot::Boots));
    let removed = set.unequip(ArmorSlot::Boots);
    assert!(removed.is_some());
    assert_eq!(removed.unwrap().material, ArmorMaterial::Gold);
    assert!(set.slots[ArmorSlot::Boots.index()].is_none());
}

#[test]
fn unequip_empty_slot_returns_none() {
    let mut set = ArmorSet::new();
    assert!(set.unequip(ArmorSlot::Leggings).is_none());
}

#[test]
fn total_defense_full_iron_set() {
    let mut set = ArmorSet::new();
    set.equip(ArmorPiece::new(ArmorMaterial::Iron, ArmorSlot::Helmet));
    set.equip(ArmorPiece::new(ArmorMaterial::Iron, ArmorSlot::Chestplate));
    set.equip(ArmorPiece::new(ArmorMaterial::Iron, ArmorSlot::Leggings));
    set.equip(ArmorPiece::new(ArmorMaterial::Iron, ArmorSlot::Boots));
    assert_eq!(set.total_defense(), 15);
}

#[test]
fn total_defense_full_diamond_set() {
    let mut set = ArmorSet::new();
    set.equip(ArmorPiece::new(ArmorMaterial::Diamond, ArmorSlot::Helmet));
    set.equip(ArmorPiece::new(ArmorMaterial::Diamond, ArmorSlot::Chestplate));
    set.equip(ArmorPiece::new(ArmorMaterial::Diamond, ArmorSlot::Leggings));
    set.equip(ArmorPiece::new(ArmorMaterial::Diamond, ArmorSlot::Boots));
    assert_eq!(set.total_defense(), 20);
}

#[test]
fn total_defense_partial_set() {
    let mut set = ArmorSet::new();
    set.equip(ArmorPiece::new(ArmorMaterial::Diamond, ArmorSlot::Chestplate));
    set.equip(ArmorPiece::new(ArmorMaterial::Leather, ArmorSlot::Boots));
    assert_eq!(set.total_defense(), 9);
}

#[test]
fn total_defense_excludes_broken_pieces() {
    let mut set = ArmorSet::new();
    let mut broken = ArmorPiece::new(ArmorMaterial::Iron, ArmorSlot::Helmet);
    broken.durability = 0;
    set.equip(broken);
    set.equip(ArmorPiece::new(ArmorMaterial::Iron, ArmorSlot::Chestplate));
    assert_eq!(set.total_defense(), 6);
}

#[test]
fn default_armor_set_is_empty() {
    let set = ArmorSet::default();
    for slot in &set.slots {
        assert!(slot.is_none());
    }
}

#[test]
fn armor_damage_reduces_durability_by_one() {
    let mut set = ArmorSet::new();
    set.equip(ArmorPiece::new(ArmorMaterial::Iron, ArmorSlot::Helmet));
    set.equip(ArmorPiece::new(ArmorMaterial::Iron, ArmorSlot::Chestplate));
    let helmet_before = set.slots[0].as_ref().unwrap().durability;
    let chest_before = set.slots[1].as_ref().unwrap().durability;
    apply_armor_wear(&mut set);
    assert_eq!(set.slots[0].as_ref().unwrap().durability, helmet_before - 1);
    assert_eq!(set.slots[1].as_ref().unwrap().durability, chest_before - 1);
}

#[test]
fn armor_damage_skips_empty_slots() {
    let mut set = ArmorSet::new();
    set.equip(ArmorPiece::new(ArmorMaterial::Iron, ArmorSlot::Boots));
    apply_armor_wear(&mut set);
    assert!(set.slots[0].is_none());
    assert!(set.slots[1].is_none());
    assert!(set.slots[2].is_none());
    assert_eq!(set.slots[3].as_ref().unwrap().durability, 194);
}

#[test]
fn armor_damage_skips_broken_pieces() {
    let mut set = ArmorSet::new();
    let mut broken = ArmorPiece::new(ArmorMaterial::Leather, ArmorSlot::Helmet);
    broken.durability = 0;
    set.equip(broken);
    apply_armor_wear(&mut set);
    assert_eq!(set.slots[0].as_ref().unwrap().durability, 0);
}

#[test]
fn toughness_only_for_diamond_and_netherite() {
    assert_eq!(ArmorMaterial::Leather.toughness_points(), 0);
    assert_eq!(ArmorMaterial::Chain.toughness_points(), 0);
    assert_eq!(ArmorMaterial::Iron.toughness_points(), 0);
    assert_eq!(ArmorMaterial::Gold.toughness_points(), 0);
    assert_eq!(ArmorMaterial::Diamond.toughness_points(), 2);
    assert_eq!(ArmorMaterial::Netherite.toughness_points(), 3);
}

#[test]
fn total_toughness_full_diamond_set() {
    let mut set = ArmorSet::new();
    set.equip(ArmorPiece::new(ArmorMaterial::Diamond, ArmorSlot::Helmet));
    set.equip(ArmorPiece::new(ArmorMaterial::Diamond, ArmorSlot::Chestplate));
    set.equip(ArmorPiece::new(ArmorMaterial::Diamond, ArmorSlot::Leggings));
    set.equip(ArmorPiece::new(ArmorMaterial::Diamond, ArmorSlot::Boots));
    assert_eq!(set.total_toughness_points(), 8);
}

#[test]
fn total_toughness_iron_is_zero() {
    let mut set = ArmorSet::new();
    set.equip(ArmorPiece::new(ArmorMaterial::Iron, ArmorSlot::Helmet));
    set.equip(ArmorPiece::new(ArmorMaterial::Iron, ArmorSlot::Chestplate));
    assert_eq!(set.total_toughness_points(), 0);
}

#[test]
fn total_toughness_excludes_broken_pieces() {
    let mut set = ArmorSet::new();
    let mut broken = ArmorPiece::new(ArmorMaterial::Diamond, ArmorSlot::Helmet);
    broken.durability = 0;
    set.equip(broken);
    set.equip(ArmorPiece::new(ArmorMaterial::Diamond, ArmorSlot::Boots));
    assert_eq!(set.total_toughness_points(), 2);
}
