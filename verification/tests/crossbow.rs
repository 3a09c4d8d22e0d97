use mc_entity::crossbow::{charge_quarter_seconds, fire_volley, LoadedProjectile};

#[test]
fn charge_duration_base_is_five_quarters() {
    assert_eq!(charge_quarter_seconds(0), 5);
}

#[test]
fn charge_duration_quick_charge_reduces() {
    assert_eq!(charge_quarter_seconds(1), 4);
    assert_eq!(charge_quarter_seconds(2), 3);
    assert_eq!(charge_quarter_seconds(3), 2);
}

#[test]
fn charge_duration_minimum_is_one_quarter() {
    assert_eq!(charge_quarter_seconds(4), 1);
    assert_eq!(charge_quarter_seconds(5), 1);
    assert_eq!(charge_quarter_seconds(10), 1);
    assert_eq!(charge_quarter_seconds(255), 1);
}

#[test]
fn fire_returns_single_arrow_without_multishot() {
    let projectiles = fire_volley(&Some(vec![LoadedProjectile::Arrow]), false);
    assert_eq!(projectiles, vec![LoadedProjectile::Arrow]);
}

#[test]
fn fire_returns_three_arrows_with_multishot() {
    let projectiles = fire_volley(&Some(vec![LoadedProjectile::Arrow]), true);
    assert_eq!(projectiles.len(), 3);
    assert!(projectiles.iter().all(|p| *p == LoadedProjectile::Arrow));
}

#[test]
fn fire_returns_empty_when_unloaded() {
    assert!(fire_volley(&None, false).is_empty());
    assert!(fire_volley(&Some(vec![]), true).is_empty());
}

#[test]
fn fire_multishot_with_tipped_arrow() {
    let projectiles = fire_volley(&Some(vec![LoadedProjectile::TippedArrow(5), LoadedProjectile::Arrow]), true);
    assert_eq!(projectiles, vec![LoadedProjectile::TippedArrow(5); 3]);
}

#[test]
fn charge_duration_base_is_1_25() {
    // Five quarter seconds.
    assert_eq!(charge_quarter_seconds(0), 5);
}

#[test]
fn charge_duration_minimum_is_0_25() {
    assert_eq!(charge_quarter_seconds(5), 1);
}
