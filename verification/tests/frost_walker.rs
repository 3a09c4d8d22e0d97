use mc_entity::frost_walker::{freeze_water_positions, frost_walker_radius, frost_walker_works_in_dimension, prevents_magma_damage, MAX_FROST_WALKER_LEVEL};

#[test]
fn radius_level_zero_returns_zero() {
    assert_eq!(frost_walker_radius(0), 0);
}

#[test]
fn radius_level_one_returns_three() {
    assert_eq!(frost_walker_radius(1), 3);
}

#[test]
fn radius_level_two_returns_four() {
    assert_eq!(frost_walker_radius(2), 4);
}

#[test]
fn radius_level_three_returns_five() {
    // Even though MAX_FROST_WALKER_LEVEL is 2, the function computes 2+level.
    assert_eq!(frost_walker_radius(3), 5);
}

#[test]
fn freeze_positions_empty_at_level_zero() {
    let positions = freeze_water_positions(0, 64, 0, 0);
    assert!(positions.is_empty());
}

#[test]
fn freeze_positions_all_at_y_minus_one() {
    let positions = freeze_water_positions(10, 64, 20, 1);
    assert!(!positions.is_empty());
    for &(_, by, _) in &positions {
        assert_eq!(by, 63);
    }
}

#[test]
fn freeze_positions_contains_center() {
    let positions = freeze_water_positions(5, 70, 5, 1);
    assert!(positions.contains(&(5, 69, 5)));
}

#[test]
fn freeze_positions_within_radius() {
    let px = 0;
    let pz = 0;
    let level = 2;
    let r = frost_walker_radius(level) as i32;
    let r_sq = r * r;
    let positions = freeze_water_positions(px, 64, pz, level);
    for &(bx, _, bz) in &positions {
        let dx = bx - px;
        let dz = bz - pz;
        assert!(
            dx * dx + dz * dz <= r_sq,
            "position ({bx}, {bz}) is outside radius {r}"
        );
    }
}

#[test]
fn freeze_positions_does_not_include_outside_radius() {
    let px = 0;
    let pz = 0;
    let level = 1;
    let r = frost_walker_radius(level) as i32;
    let positions = freeze_water_positions(px, 64, pz, level);
    // Corner (r, r) should be outside the circle for radius 3.
    assert!(
        !positions.contains(&(r, 63, r)),
        "corner ({r}, 63, {r}) should be outside radius {r}"
    );
}

#[test]
fn freeze_positions_count_level_one() {
    // Radius 3 circle: count positions where dx^2+dz^2 <= 9.
    let positions = freeze_water_positions(0, 64, 0, 1);
    let expected = (-3i32..=3)
        .flat_map(|dx| (-3i32..=3).map(move |dz| (dx, dz)))
        .filter(|&(dx, dz)| dx * dx + dz * dz <= 9)
        .count();
    assert_eq!(positions.len(), expected);
}

#[test]
fn magma_damage_is_prevented() {
    assert!(prevents_magma_damage());
}

#[test]
fn works_in_overworld() {
    assert!(frost_walker_works_in_dimension(0));
}

#[test]
fn does_not_work_in_nether() {
    assert!(!frost_walker_works_in_dimension(1));
}

#[test]
fn works_in_end() {
    assert!(frost_walker_works_in_dimension(2));
}

#[test]
fn unknown_dimension_returns_false() {
    assert!(!frost_walker_works_in_dimension(255));
}

#[test]
fn max_level_is_two() {
    assert_eq!(MAX_FROST_WALKER_LEVEL, 2);
}
