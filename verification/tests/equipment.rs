use mc_entity::equipment::ElytraState;

#[test]
fn elytra_requires_falling_to_glide() {
    let mut elytra = ElytraState::new(432);
    let started = elytra.start_glide(false);
    assert!(!started);
    assert!(!elytra.gliding);
}

#[test]
fn elytra_starts_gliding_when_falling() {
    let mut elytra = ElytraState::new(432);
    let started = elytra.start_glide(true);
    assert!(started);
    assert!(elytra.gliding);
}

#[test]
fn elytra_cannot_glide_at_zero_durability() {
    let mut elytra = ElytraState::new(432);
    elytra.durability = 0;
    let started = elytra.start_glide(true);
    assert!(!started);
}

#[test]
fn elytra_tick_decrements_durability_while_gliding() {
    let mut elytra = ElytraState::new(10);
    elytra.start_glide(true);
    elytra.tick();
    assert_eq!(elytra.durability, 9);
}

#[test]
fn elytra_stops_gliding_at_zero_durability() {
    let mut elytra = ElytraState::new(1);
    elytra.start_glide(true);
    elytra.tick();
    assert_eq!(elytra.durability, 0);
    assert!(!elytra.gliding, "should stop gliding when durability runs out");
}

#[test]
fn elytra_tick_does_nothing_when_not_gliding() {
    let mut elytra = ElytraState::new(432);
    elytra.tick();
    assert_eq!(elytra.durability, 432);
}

#[test]
fn elytra_stop_glide_works() {
    let mut elytra = ElytraState::new(432);
    elytra.start_glide(true);
    elytra.stop_glide();
    assert!(!elytra.gliding);
}

#[test]
fn elytra_wears_out_after_durability_ticks() {
    let mut elytra = ElytraState::new(5);
    assert!(elytra.start_glide(true));
    for _ in 0..5 {
        elytra.tick();
    }
    assert_eq!(elytra.durability, 0);
    assert!(!elytra.gliding);
    assert_eq!(elytra.max_durability, 5);
}
