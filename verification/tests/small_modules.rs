use mc_entity::ai::{extra_hundredths, simple_hash, wander_offset, AiSystem};
use mc_entity::block::ToolTier;
use mc_entity::boat::BoatType;
use mc_entity::combat::{melee_damage_halves, DamageType};
use mc_entity::depth_strider::{effective_depth_strider_level, MAX_DEPTH_STRIDER_LEVEL, WATER_SPEED_BASE_PERCENT};
use mc_entity::projectile::{projectile_properties, ProjectileEvent, ProjectileType};

#[test]
fn depth_strider_max_level_is_three() {
    assert_eq!(MAX_DEPTH_STRIDER_LEVEL, 3);
    assert_eq!(effective_depth_strider_level(0), 0);
    assert_eq!(effective_depth_strider_level(2), 2);
    assert_eq!(effective_depth_strider_level(4), 3);
    assert_eq!(effective_depth_strider_level(255), 3);
}

#[test]
fn fist_deals_one_damage() {
    assert_eq!(melee_damage_halves(None, false), 2);
    assert_eq!(melee_damage_halves(Some(ToolTier::NoTier), false), 2);
    assert_eq!(melee_damage_halves(Some(ToolTier::NoTier), true), 2);
}

#[test]
fn sword_damage_by_tier() {
    assert_eq!(melee_damage_halves(Some(ToolTier::Wood), true), 8);
    assert_eq!(melee_damage_halves(Some(ToolTier::Stone), true), 10);
    assert_eq!(melee_damage_halves(Some(ToolTier::Iron), true), 12);
    assert_eq!(melee_damage_halves(Some(ToolTier::Gold), true), 8);
    assert_eq!(melee_damage_halves(Some(ToolTier::Diamond), true), 14);
}

#[test]
fn non_sword_tools_deal_two_to_three_damage() {
    for (t, d) in [(ToolTier::Wood, 4), (ToolTier::Stone, 5), (ToolTier::Iron, 5), (ToolTier::Gold, 4), (ToolTier::Diamond, 6)] {
        let got = melee_damage_halves(Some(t), false);
        assert_eq!(got, d);
        assert!((4..=6).contains(&got));
    }
    assert_ne!(DamageType::Melee, DamageType::Fall);
}

#[test]
fn projectile_properties_table() {
    let arrow = projectile_properties(ProjectileType::Arrow);
    let spectral = projectile_properties(ProjectileType::SpectralArrow);
    let tipped = projectile_properties(ProjectileType::TippedArrow);
    assert_eq!(arrow, spectral);
    assert_eq!(arrow, tipped);
    assert_eq!((arrow.gravity_hundredths, arrow.damage, arrow.max_lifetime_secs), (5, 2, 60));
    let trident = projectile_properties(ProjectileType::Trident);
    assert!(trident.damage > arrow.damage);
    assert_eq!(projectile_properties(ProjectileType::Fireball).gravity_hundredths, 0);
    assert_eq!(projectile_properties(ProjectileType::WitherSkull).gravity_hundredths, 0);
    assert_eq!(projectile_properties(ProjectileType::WitherSkull).damage, 8);
    assert_eq!(projectile_properties(ProjectileType::Snowball).damage, 0);
    assert_eq!(projectile_properties(ProjectileType::Egg).damage, 0);
    assert_eq!(projectile_properties(ProjectileType::EnderPearl).max_lifetime_secs, 15);
    assert_ne!(ProjectileEvent::HitBlock(1, 2, 3), ProjectileEvent::Flying);
}

#[test]
fn ai_hash_known_values() {
    let _system = AiSystem;
    assert_eq!(simple_hash(0, 0), 0);
    assert_eq!(simple_hash(1, 1), 2193006749);
    assert_eq!(simple_hash(42, 3), 920980017);
}

#[test]
fn wander_offsets_stay_within_five() {
    for h in [0u32, 1, 10, 11, 255, 256, 2816, u32::MAX] {
        let (dx, dz) = wander_offset(h);
        assert!((-5..=5).contains(&dx));
        assert!((-5..=5).contains(&dz));
    }
    assert_eq!(wander_offset(0), (-5, -5));
    assert_eq!(wander_offset(10 + (10 << 8)), (5, 5));
    assert_eq!(extra_hundredths(299), 299);
    assert_eq!(extra_hundredths(300), 0);
    assert_eq!(extra_hundredths(1234), 34);
}

#[test]
fn all_boat_types_are_distinct() {
    let all = [
        BoatType::Oak, BoatType::Birch, BoatType::Spruce, BoatType::Jungle, BoatType::DarkOak,
        BoatType::Acacia, BoatType::Bamboo, BoatType::Cherry, BoatType::Mangrove,
    ];
    let set: std::collections::HashSet<BoatType> = all.iter().copied().collect();
    assert_eq!(set.len(), 9);
}

#[test]
fn wood_sword_deals_four_damage() {
    assert_eq!(melee_damage_halves(Some(ToolTier::Wood), true), 8);
}

#[test]
fn stone_sword_deals_five_damage() {
    assert_eq!(melee_damage_halves(Some(ToolTier::Stone), true), 10);
}

#[test]
fn iron_sword_deals_six_damage() {
    assert_eq!(melee_damage_halves(Some(ToolTier::Iron), true), 12);
}

#[test]
fn diamond_sword_deals_seven_damage() {
    assert_eq!(melee_damage_halves(Some(ToolTier::Diamond), true), 14);
}

#[test]
fn constants_have_expected_values() {
    assert_eq!(WATER_SPEED_BASE_PERCENT, 20);
    assert_eq!(MAX_DEPTH_STRIDER_LEVEL, 3);
}
