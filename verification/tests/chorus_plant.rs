use mc_entity::chorus_plant::{
    chorus_flower_break_drops_fruit, end_stone_required_below, tick_chorus_growth, ChorusPlant,
    MAX_CHORUS_HEIGHT,
};

#[test]
fn new_creates_default_plant() {
    let plant = ChorusPlant::new();
    assert_eq!(plant.age, 0);
    assert_eq!(plant.height, 0);
    assert!(plant.can_grow);
}

#[test]
fn growth_increases_height_and_age() {
    let mut plant = ChorusPlant::new();
    let grew = tick_chorus_growth(&mut plant, 10);
    assert!(grew);
    assert_eq!(plant.height, 1);
    assert_eq!(plant.age, 1);
}

#[test]
fn no_growth_when_seed_unfavorable() {
    let mut plant = ChorusPlant::new();
    let grew = tick_chorus_growth(&mut plant, 7);
    assert!(!grew);
    assert_eq!(plant.height, 0);
}

#[test]
fn stops_growing_at_max_height() {
    let mut plant = ChorusPlant { age: 4, height: MAX_CHORUS_HEIGHT, can_grow: true };
    let grew = tick_chorus_growth(&mut plant, 10);
    assert!(!grew);
    assert!(!plant.can_grow);
}

#[test]
fn growth_to_max_disables_can_grow() {
    let mut plant = ChorusPlant { age: 3, height: MAX_CHORUS_HEIGHT - 1, can_grow: true };
    let grew = tick_chorus_growth(&mut plant, 0);
    assert!(grew);
    assert_eq!(plant.height, MAX_CHORUS_HEIGHT);
    assert!(!plant.can_grow);
}

#[test]
fn no_growth_when_can_grow_false() {
    let mut plant = ChorusPlant { age: 0, height: 0, can_grow: false };
    let grew = tick_chorus_growth(&mut plant, 0);
    assert!(!grew);
}

#[test]
fn flower_break_drops_fruit() {
    assert!(chorus_flower_break_drops_fruit());
}

#[test]
fn end_stone_required() {
    assert!(end_stone_required_below());
}

#[test]
fn plant_never_exceeds_max_height() {
    let mut plant = ChorusPlant::new();
    for seed in 0..100u64 {
        tick_chorus_growth(&mut plant, seed * 5);
        assert!(plant.height <= MAX_CHORUS_HEIGHT);
    }
    assert_eq!(plant.height, MAX_CHORUS_HEIGHT);
}
