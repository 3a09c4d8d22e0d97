use mc_entity::horse::{
    stat_hash_bits, Horse, HorseInventory, HorseVariant, HEALTH_SALT, JUMP_SALT, SPEED_SALT,
};

#[derive(Debug, Clone, Copy, PartialEq)]
struct Stats {
    speed: f32,
}

#[test]
fn attach_chest_allocates_slots() {
    let mut inv = HorseInventory::new();
    assert!(!inv.chest);
    assert!(inv.slots.is_empty());

    inv.attach_chest(5);
    assert!(inv.chest);
    assert_eq!(inv.slots.len(), 5);
}

#[test]
fn attach_chest_capped_at_max() {
    let mut inv = HorseInventory::new();
    inv.attach_chest(100);
    assert_eq!(inv.slots.len(), HorseInventory::MAX_CHEST_SLOTS);
}

#[test]
fn horse_variants_are_distinct() {
    let variants = [
        HorseVariant::Horse,
        HorseVariant::Donkey,
        HorseVariant::Mule,
        HorseVariant::Llama,
        HorseVariant::SkeletonHorse,
        HorseVariant::ZombieHorse,
    ];
    for (i, a) in variants.iter().enumerate() {
        for (j, b) in variants.iter().enumerate() {
            if i == j {
                assert_eq!(a, b);
            } else {
                assert_ne!(a, b);
            }
        }
    }
}

#[test]
fn mount_succeeds_with_saddle() {
    let mut horse = Horse::new(HorseVariant::Horse, Stats { speed: 10.0 });
    horse.inventory.saddle = true;
    assert!(horse.mount(1));
    assert_eq!(horse.rider, Some(1));
}

#[test]
fn mount_fails_without_saddle() {
    let mut horse = Horse::new(HorseVariant::Horse, Stats { speed: 10.0 });
    assert!(!horse.mount(1));
    assert_eq!(horse.rider, None);
}

#[test]
fn horse_mount_fails_when_occupied() {
    let mut horse = Horse::new(HorseVariant::Horse, Stats { speed: 10.0 });
    horse.inventory.saddle = true;
    assert!(horse.mount(1));
    assert!(!horse.mount(2));
    assert_eq!(horse.rider, Some(1));
}

#[test]
fn skeleton_horse_mounts_without_saddle() {
    let mut horse = Horse::new(HorseVariant::SkeletonHorse, Stats { speed: 10.0 });
    assert!(horse.mount(5));
    assert_eq!(horse.rider, Some(5));
}

#[test]
fn zombie_horse_mounts_without_saddle() {
    let mut horse = Horse::new(HorseVariant::ZombieHorse, Stats { speed: 10.0 });
    assert!(horse.mount(7));
    assert_eq!(horse.rider, Some(7));
}

#[test]
fn dismount_returns_rider() {
    let mut horse = Horse::new(HorseVariant::Donkey, Stats { speed: 10.0 });
    horse.inventory.saddle = true;
    horse.mount(10);
    assert_eq!(horse.dismount(), Some(10));
    assert_eq!(horse.rider, None);
}

#[test]
fn horse_dismount_returns_none_when_empty() {
    let mut horse = Horse::new(HorseVariant::Mule, Stats { speed: 10.0 });
    assert_eq!(horse.dismount(), None);
}

#[test]
fn mount_keeps_stats_and_inventory() {
    let mut horse = Horse::new(HorseVariant::Llama, Stats { speed: 7.5 });
    horse.inventory.saddle = true;
    horse.inventory.attach_chest(3);
    assert!(horse.mount(4));
    assert_eq!(horse.stats, Stats { speed: 7.5 });
    assert_eq!(horse.inventory.slots.len(), 3);
}

#[test]
fn stat_hash_bits_known_values() {
    assert_eq!(stat_hash_bits(0, SPEED_SALT), 0);
    assert_eq!(stat_hash_bits(1, SPEED_SALT), 174566);
    assert_eq!(stat_hash_bits(1, JUMP_SALT), 11319822);
    assert_eq!(stat_hash_bits(1, HEALTH_SALT), 11346184);
    assert_eq!(stat_hash_bits(42, SPEED_SALT), 14658607);
    assert_eq!(stat_hash_bits(42, JUMP_SALT), 3201384);
    assert_eq!(stat_hash_bits(12345, HEALTH_SALT), 8732276);
    for seed in 0..100u64 {
        assert!(stat_hash_bits(seed, SPEED_SALT) < 1 << 24);
    }
}
