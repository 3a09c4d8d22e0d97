use mc_entity::fishing::{
    catch_loot, hash_u64, rand_index, FishType, FishingAction, FishingLoot, JunkType, TreasureType,
};

#[test]
fn catch_is_deterministic() {
    assert_eq!(catch_loot(0, 42, 100), catch_loot(0, 42, 100));
    assert_eq!(catch_loot(0, 42, 100), FishingLoot::Fish(FishType::Pufferfish));
}

#[test]
fn catch_known_junk_and_treasure() {
    assert_eq!(catch_loot(0, 20, 0), FishingLoot::Junk(JunkType::Tripwire));
    assert_eq!(catch_loot(0, 23, 0), FishingLoot::Treasure(TreasureType::Saddle));
}

#[test]
fn luck_above_three_is_capped() {
    for seed in 0..200u64 {
        assert_eq!(catch_loot(3, seed, seed), catch_loot(200, seed, seed));
    }
}

#[test]
fn loot_distribution_roughly_matches_expected_ratios() {
    let mut fish = 0u32;
    let mut junk = 0u32;
    let mut treasure = 0u32;
    for i in 0..100_000u64 {
        match catch_loot(0, i, i * 7) {
            FishingLoot::Fish(_) => fish += 1,
            FishingLoot::Junk(_) => junk += 1,
            FishingLoot::Treasure(_) => treasure += 1,
        }
    }
    let total = f64::from(fish + junk + treasure);
    assert!((f64::from(fish) / total * 100.0 - 85.0).abs() < 3.0);
    assert!((f64::from(junk) / total * 100.0 - 10.0).abs() < 3.0);
    assert!((f64::from(treasure) / total * 100.0 - 5.0).abs() < 3.0);
}

#[test]
fn luck_of_sea_increases_treasure_rate() {
    let mut none = 0u32;
    let mut max = 0u32;
    for i in 0..100_000u64 {
        if let FishingLoot::Treasure(_) = catch_loot(0, i, i * 13) {
            none += 1;
        }
        if let FishingLoot::Treasure(_) = catch_loot(3, i, i * 13) {
            max += 1;
        }
    }
    assert!(max > none);
    let pct = f64::from(max) / 100_000.0 * 100.0;
    assert!((pct - 14.0).abs() < 3.0);
}

#[test]
fn all_fish_types_are_reachable() {
    let mut seen = std::collections::HashSet::new();
    for i in 0..10_000u64 {
        if let FishingLoot::Fish(f) = catch_loot(0, i, i * 3) {
            seen.insert(f);
        }
    }
    for f in [FishType::Cod, FishType::Salmon, FishType::TropicalFish, FishType::Pufferfish] {
        assert!(seen.contains(&f), "{f:?} never appeared");
    }
}

#[test]
fn all_treasure_types_are_reachable() {
    let mut seen = std::collections::HashSet::new();
    for i in 0..100_000u64 {
        if let FishingLoot::Treasure(t) = catch_loot(3, i, i * 3) {
            seen.insert(t);
        }
    }
    assert_eq!(seen.len(), 6);
}

#[test]
fn rand_index_in_range() {
    for seed in 0..50u64 {
        assert!(rand_index(seed, 7, 10) < 10);
        assert_eq!(rand_index(seed, 7, 10) as u64, hash_u64(seed, 7) % 10);
    }
    assert_eq!(hash_u64(12345, 0), 247259349206175817);
}

#[test]
fn fishing_actions_are_distinct() {
    assert_ne!(FishingAction::NoAction, FishingAction::BobberSplash);
    assert_ne!(FishingAction::BobberSplash, FishingAction::FishEscaped);
}
