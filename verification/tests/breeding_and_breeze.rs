use mc_entity::breeding::{is_adult, BABY_START_AGE, BREED_COOLDOWN_SECS};
use mc_entity::breeze::breeze_is_immune_to_projectiles;

#[test]
fn is_adult_returns_true_for_zero() {
    assert!(is_adult(0));
}

#[test]
fn is_adult_returns_true_for_positive() {
    assert!(is_adult(100));
}

#[test]
fn is_adult_returns_false_for_negative() {
    assert!(!is_adult(-1));
    assert!(!is_adult(BABY_START_AGE));
}

#[test]
fn immune_to_projectiles() {
    assert!(breeze_is_immune_to_projectiles());
}

#[test]
fn breed_cooldown_constant_is_300() {
    assert_eq!(BREED_COOLDOWN_SECS, 300);
}
