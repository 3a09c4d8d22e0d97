use mc_entity::difficulty::Difficulty;

// ── mob_damage_multiplier ───────────────────────────────────────────

#[test]
fn only_hard_can_starve_to_death() {
    assert!(!Difficulty::Peaceful.can_starve_to_death());
    assert!(!Difficulty::Easy.can_starve_to_death());
    assert!(!Difficulty::Normal.can_starve_to_death());
    assert!(Difficulty::Hard.can_starve_to_death());
}

// ── zombies_break_doors ─────────────────────────────────────────────

#[test]
fn only_hard_zombies_break_doors() {
    assert!(!Difficulty::Peaceful.zombies_break_doors());
    assert!(!Difficulty::Easy.zombies_break_doors());
    assert!(!Difficulty::Normal.zombies_break_doors());
    assert!(Difficulty::Hard.zombies_break_doors());
}

// ── mob_armor_chance ────────────────────────────────────────────────

#[test]
fn peaceful_no_hostile_mobs() {
    assert!(!Difficulty::Peaceful.hostile_mobs_spawn());
}

#[test]
fn non_peaceful_hostile_mobs_spawn() {
    assert!(Difficulty::Easy.hostile_mobs_spawn());
    assert!(Difficulty::Normal.hostile_mobs_spawn());
    assert!(Difficulty::Hard.hostile_mobs_spawn());
}

// ── natural_regen ───────────────────────────────────────────────────

#[test]
fn natural_regen_always_true() {
    assert!(Difficulty::Peaceful.natural_regen());
    assert!(Difficulty::Easy.natural_regen());
    assert!(Difficulty::Normal.natural_regen());
    assert!(Difficulty::Hard.natural_regen());
}

// ── fire_spreads ────────────────────────────────────────────────────

#[test]
fn peaceful_fire_does_not_spread() {
    assert!(!Difficulty::Peaceful.fire_spreads());
}

#[test]
fn non_peaceful_fire_spreads() {
    assert!(Difficulty::Easy.fire_spreads());
    assert!(Difficulty::Normal.fire_spreads());
    assert!(Difficulty::Hard.fire_spreads());
}

// ── regional_difficulty ─────────────────────────────────────────────

#[test]
fn from_str_lowercase() {
    assert_eq!(Difficulty::from_str("peaceful"), Some(Difficulty::Peaceful));
    assert_eq!(Difficulty::from_str("easy"), Some(Difficulty::Easy));
    assert_eq!(Difficulty::from_str("normal"), Some(Difficulty::Normal));
    assert_eq!(Difficulty::from_str("hard"), Some(Difficulty::Hard));
}

#[test]
fn from_str_mixed_case() {
    assert_eq!(Difficulty::from_str("Peaceful"), Some(Difficulty::Peaceful));
    assert_eq!(Difficulty::from_str("EASY"), Some(Difficulty::Easy));
    assert_eq!(Difficulty::from_str("Normal"), Some(Difficulty::Normal));
    assert_eq!(Difficulty::from_str("HARD"), Some(Difficulty::Hard));
}

#[test]
fn from_str_invalid() {
    assert_eq!(Difficulty::from_str(""), None);
    assert_eq!(Difficulty::from_str("medium"), None);
    assert_eq!(Difficulty::from_str("hardcore"), None);
}
