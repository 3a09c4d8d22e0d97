use mc_entity::boat::{dismount, mount_passenger};

#[test]
fn mount_succeeds_when_empty() {
    let mut seat: Option<u64> = None;
    assert!(mount_passenger(&mut seat, 1));
    assert_eq!(seat, Some(1));
}

#[test]
fn boat_mount_fails_when_occupied() {
    let mut seat: Option<u64> = None;
    assert!(mount_passenger(&mut seat, 1));
    assert!(!mount_passenger(&mut seat, 2));
    assert_eq!(seat, Some(1));
}

#[test]
fn dismount_returns_passenger_and_clears() {
    let mut seat: Option<u64> = None;
    mount_passenger(&mut seat, 42);
    assert_eq!(dismount(&mut seat), Some(42));
    assert_eq!(seat, None);
}

#[test]
fn boat_dismount_returns_none_when_empty() {
    let mut seat: Option<u64> = None;
    assert_eq!(dismount(&mut seat), None);
}

#[test]
fn mount_dismount_cycle() {
    let mut seat: Option<u64> = None;
    assert!(mount_passenger(&mut seat, 10));
    assert_eq!(seat, Some(10));
    assert!(!mount_passenger(&mut seat, 20));
    assert_eq!(dismount(&mut seat), Some(10));
    assert!(mount_passenger(&mut seat, 20));
    assert_eq!(seat, Some(20));
}
