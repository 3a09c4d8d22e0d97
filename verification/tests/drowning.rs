use mc_entity::drowning::{AirMeter, DEFAULT_MAX_AIR};

#[test]
fn respiration_bonus_per_level() {
    assert_eq!(AirMeter::respiration_bonus(0), 0);
    assert_eq!(AirMeter::respiration_bonus(1), 300);
    assert_eq!(AirMeter::respiration_bonus(2), 600);
    assert_eq!(AirMeter::respiration_bonus(3), 900);
}

#[test]
fn tick_above_water_restores_incrementally() {
    let mut meter = AirMeter { air_ticks: 295, max_air: 300 };
    for _ in 0..5 {
        meter.tick_above_water();
    }
    assert!(meter.is_full());
}

#[test]
fn default_is_same_as_new() {
    assert_eq!(AirMeter::default(), AirMeter::new());
}

#[test]
fn drain_air_counts_down_to_zero_then_restores() {
    let mut meter = AirMeter::new();
    assert!(meter.is_full());
    for i in (1..=299).rev() {
        assert_eq!(meter.drain_air(), i);
    }
    assert_eq!(meter.drain_air(), 0);
    assert_eq!(meter.drain_air(), 0);
    assert_eq!(meter.air_ticks, 0);
    for i in 1..=DEFAULT_MAX_AIR {
        meter.tick_above_water();
        assert_eq!(meter.air_ticks, i);
    }
    meter.tick_above_water();
    assert_eq!(meter.air_ticks, DEFAULT_MAX_AIR);
    assert!(meter.is_full());
}

#[test]
fn new_air_meter_starts_full() {
    let meter = AirMeter::new();
    assert_eq!(meter.air_ticks, 300);
    assert_eq!(meter.max_air, 300);
    assert!(meter.is_full());
}

#[test]
fn tick_underwater_decrements_air() {
    let mut meter = AirMeter::new();
    assert_eq!(meter.drain_air(), 299);
    assert_eq!(meter.air_ticks, 299);
}

#[test]
fn full_drain_cycle_then_drowning_then_restore() {
    let mut meter = AirMeter::new();
    for i in (1..=299).rev() {
        assert_eq!(meter.drain_air(), i);
    }
    assert_eq!(meter.drain_air(), 0);
    assert_eq!(meter.air_ticks, 0);
    assert_eq!(meter.drain_air(), 0);
    assert_eq!(meter.air_ticks, 0);
    for i in 1..=300 {
        meter.tick_above_water();
        assert_eq!(meter.air_ticks, i);
    }
    assert!(meter.is_full());
    meter.tick_above_water();
    assert_eq!(meter.air_ticks, 300);
}
