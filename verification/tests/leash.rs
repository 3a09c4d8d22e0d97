use mc_entity::leash::{attempt_join_caravan, caravan_speed_percent, LlamaCaravan, DEFAULT_MAX_CHAIN};

#[test]
fn new_caravan_has_leader_only() {
    let caravan = LlamaCaravan::new(1);
    assert_eq!(caravan.leader, 1);
    assert!(caravan.followers.is_empty());
    assert_eq!(caravan.max_chain, DEFAULT_MAX_CHAIN);
    assert_eq!(caravan.len(), 1);
    assert!(caravan.is_empty());
}

#[test]
fn caravan_with_custom_max_chain() {
    let caravan = LlamaCaravan::with_max_chain(5, 3);
    assert_eq!(caravan.leader, 5);
    assert_eq!(caravan.max_chain, 3);
}

#[test]
fn join_caravan_succeeds() {
    let mut caravan = LlamaCaravan::new(1);
    assert!(attempt_join_caravan(&mut caravan, 2));
    assert_eq!(caravan.followers, vec![2]);
    assert_eq!(caravan.len(), 2);
    assert!(!caravan.is_empty());
}

#[test]
fn join_caravan_multiple_followers() {
    let mut caravan = LlamaCaravan::new(1);
    assert!(attempt_join_caravan(&mut caravan, 2));
    assert!(attempt_join_caravan(&mut caravan, 3));
    assert!(attempt_join_caravan(&mut caravan, 4));
    assert_eq!(caravan.followers, vec![2, 3, 4]);
    assert_eq!(caravan.len(), 4);
}

#[test]
fn join_caravan_rejected_when_full() {
    let mut caravan = LlamaCaravan::with_max_chain(1, 2);
    assert!(attempt_join_caravan(&mut caravan, 10));
    assert!(attempt_join_caravan(&mut caravan, 11));
    assert!(!attempt_join_caravan(&mut caravan, 12));
    assert_eq!(caravan.followers.len(), 2);
}

#[test]
fn join_caravan_rejected_for_leader() {
    let mut caravan = LlamaCaravan::new(1);
    assert!(!attempt_join_caravan(&mut caravan, 1));
    assert!(caravan.followers.is_empty());
}

#[test]
fn join_caravan_rejected_for_duplicate() {
    let mut caravan = LlamaCaravan::new(1);
    assert!(attempt_join_caravan(&mut caravan, 2));
    assert!(!attempt_join_caravan(&mut caravan, 2));
    assert_eq!(caravan.followers.len(), 1);
}

#[test]
fn default_chain_fills_at_ten() {
    let mut caravan = LlamaCaravan::new(0);
    for id in 1..=10u64 {
        assert!(attempt_join_caravan(&mut caravan, id));
    }
    assert!(!attempt_join_caravan(&mut caravan, 11));
    assert_eq!(caravan.len(), 11);
}

#[test]
fn speed_percent_by_position() {
    assert_eq!(caravan_speed_percent(0), 100);
    assert_eq!(caravan_speed_percent(1), 95);
    assert_eq!(caravan_speed_percent(9), 55);
    assert_eq!(caravan_speed_percent(10), 50);
    assert_eq!(caravan_speed_percent(255), 50);
}

#[test]
fn leader_speed_multiplier_is_one() {
    assert_eq!(caravan_speed_percent(0), 100);
}

#[test]
fn first_follower_speed_multiplier() {
    assert_eq!(caravan_speed_percent(1), 95);
}

#[test]
fn speed_multiplier_decreases_with_chain_position() {
    let m1 = caravan_speed_percent(1);
    let m2 = caravan_speed_percent(2);
    let m3 = caravan_speed_percent(3);
    assert!(m1 > m2);
    assert!(m2 > m3);
}

#[test]
fn speed_multiplier_never_below_minimum() {
    assert_eq!(caravan_speed_percent(255), 50);
}

#[test]
fn speed_multiplier_at_boundary() {
    assert_eq!(caravan_speed_percent(10), 50);
}

#[test]
fn speed_multiplier_just_above_minimum() {
    assert_eq!(caravan_speed_percent(9), 55);
}
