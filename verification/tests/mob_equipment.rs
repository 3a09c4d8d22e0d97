use mc_entity::mob_equipment::{
    armor_set_for_tier, armor_tier_for_difficulty, equip_pillager, equip_skeleton, equip_zombie, MobEquipment, ITEM_BOW, ITEM_IRON_SWORD, DIFF_EASY,
    DIFF_HARD, DIFF_NORMAL, ITEM_CHAIN_HELMET, ITEM_CROSSBOW, ITEM_DIAMOND_BOOTS,
    ITEM_DIAMOND_HELMET, ITEM_GOLD_CHESTPLATE, ITEM_IRON_LEGGINGS, ITEM_LEATHER_BOOTS,
    ITEM_LEATHER_CHESTPLATE, ITEM_LEATHER_HELMET, ITEM_LEATHER_LEGGINGS,
};

#[test]
fn empty_has_no_items() {
    let eq = MobEquipment::empty();
    assert!(eq.helmet.is_none());
    assert!(eq.chestplate.is_none());
    assert!(eq.leggings.is_none());
    assert!(eq.boots.is_none());
    assert!(eq.weapon.is_none());
}

#[test]
fn armor_tier_returns_valid_range() {
    for seed in 0..200u64 {
        let tier = armor_tier_for_difficulty(seed, DIFF_HARD);
        assert!(tier <= 4, "tier {} out of range for seed {}", tier, seed);
    }
}

#[test]
fn armor_tier_is_deterministic() {
    let a = armor_tier_for_difficulty(42, DIFF_HARD);
    let b = armor_tier_for_difficulty(42, DIFF_HARD);
    assert_eq!(a, b);
}

#[test]
fn armor_tier_easy_biases_leather() {
    let mut leather = 0;
    for seed in 0..500u64 {
        if armor_tier_for_difficulty(seed, DIFF_EASY) == 0 {
            leather += 1;
        }
    }
    assert!(leather > 400, "expected mostly leather on easy, got {}", leather);
}

#[test]
fn armor_tier_hard_has_more_diamond_than_easy() {
    let count_diamond = |diff: u8| -> u32 {
        (0..1000u64)
            .filter(|&s| armor_tier_for_difficulty(s, diff) == 4)
            .count() as u32
    };
    assert!(count_diamond(DIFF_HARD) > count_diamond(DIFF_EASY));
}

#[test]
fn armor_tier_known_rolls() {
    let tiers: Vec<u8> = (0..10u64).map(|s| armor_tier_for_difficulty(s, DIFF_HARD)).collect();
    assert_eq!(tiers, vec![2, 3, 0, 2, 3, 1, 4, 4, 1, 1]);
    assert!(armor_tier_for_difficulty(0, DIFF_NORMAL) <= 4);
}

#[test]
fn pillager_always_has_crossbow() {
    for seed in 0..50u64 {
        let eq = equip_pillager(seed);
        assert_eq!(eq.weapon, Some(ITEM_CROSSBOW));
        assert!(eq.helmet.is_none());
        assert!(eq.chestplate.is_none());
        assert!(eq.leggings.is_none());
        assert!(eq.boots.is_none());
    }
}

#[test]
fn armor_sets_by_tier() {
    assert_eq!(
        armor_set_for_tier(0),
        (ITEM_LEATHER_HELMET, ITEM_LEATHER_CHESTPLATE, ITEM_LEATHER_LEGGINGS, ITEM_LEATHER_BOOTS)
    );
    assert_eq!(armor_set_for_tier(0).3, ITEM_LEATHER_BOOTS);
    assert_eq!(armor_set_for_tier(1).0, ITEM_CHAIN_HELMET);
    assert_eq!(armor_set_for_tier(2).2, ITEM_IRON_LEGGINGS);
    assert_eq!(armor_set_for_tier(3).1, ITEM_GOLD_CHESTPLATE);
    assert_eq!(armor_set_for_tier(4).0, ITEM_DIAMOND_HELMET);
    assert_eq!(armor_set_for_tier(200).3, ITEM_DIAMOND_BOOTS);
}

#[test]
fn zombie_equipment_is_deterministic() {
    let a = equip_zombie(1234, DIFF_HARD);
    let b = equip_zombie(1234, DIFF_HARD);
    assert_eq!(a, b);
}

#[test]
fn skeleton_always_has_bow() {
    for seed in 0..50u64 {
        for diff in 0..=3u8 {
            let eq = equip_skeleton(seed, diff);
            assert_eq!(eq.weapon, Some(ITEM_BOW));
        }
    }
}

#[test]
fn zombie_on_easy_rarely_wears_armor() {
    let mut any_armor = 0;
    for seed in 0..1000u64 {
        let eq = equip_zombie(seed, DIFF_EASY);
        if eq.helmet.is_some() || eq.chestplate.is_some() || eq.leggings.is_some() || eq.boots.is_some() {
            any_armor += 1;
        }
    }
    assert_eq!(any_armor, 0);
}

/// The slot roll in `[0, 1)` computed in floating point.
fn hash_unit(seed: u64, salt: u64) -> f32 {
    let mut x = seed ^ salt.wrapping_mul(0xD1B5_4A32_D192_ED03);
    x ^= x >> 33;
    x = x.wrapping_mul(0xFF51_AFD7_ED55_8CCD);
    x ^= x >> 33;
    x = x.wrapping_mul(0xC4CE_B9FE_1A85_EC53);
    x ^= x >> 33;
    ((x >> 40) as f32) / ((1u32 << 24) as f32)
}

/// Zombie equipment computed with floating-point chances.
fn float_zombie(seed: u64, difficulty: u8) -> MobEquipment {
    let regional = hash_unit(seed, 0xA11CE_C0FFEE).clamp(0.0, 1.0);
    let chance: f32 = match difficulty {
        0 => 0.0005,
        1 => 0.0,
        2 => 0.025 * regional,
        _ => 0.075 * regional,
    };
    let (helmet, chestplate, leggings, boots) = armor_set_for_tier(armor_tier_for_difficulty(seed, difficulty));
    let roll = |salt: u64, item: u16| if hash_unit(seed, salt) < chance { Some(item) } else { None };
    let weapon_chance: f32 = match difficulty {
        0 | 1 => 0.05,
        2 => 0.15 * regional,
        _ => 0.25 * regional,
    };
    MobEquipment {
        helmet: roll(1, helmet),
        chestplate: roll(2, chestplate),
        leggings: roll(3, leggings),
        boots: roll(4, boots),
        weapon: if hash_unit(seed, 5) < weapon_chance { Some(ITEM_IRON_SWORD) } else { None },
    }
}

#[test]
fn zombie_equipment_matches_float_chances() {
    let mut seed: u64 = 99;
    let mut armored = 0;
    for _ in 0..50_000 {
        for diff in 0..=3u8 {
            let eq = equip_zombie(seed, diff);
            assert_eq!(eq, float_zombie(seed, diff));
            if eq.helmet.is_some() {
                armored += 1;
            }
        }
        seed = seed.wrapping_mul(6364136223846793005).wrapping_add(1);
    }
    assert!(armored > 0);
}

#[test]
fn hard_zombies_sometimes_carry_swords() {
    let swords = (0..2000u64).filter(|&s| equip_zombie(s, DIFF_HARD).weapon == Some(ITEM_IRON_SWORD)).count();
    assert!(swords > 0);
}
