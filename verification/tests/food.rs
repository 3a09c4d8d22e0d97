use mc_entity::food::{can_eat, food_count, food_hunger};

#[test]
fn can_eat_when_hungry() {
    assert!(can_eat(10, 20));
}

#[test]
fn can_eat_when_nearly_full() {
    assert!(can_eat(19, 20));
}

#[test]
fn cannot_eat_when_full() {
    assert!(!can_eat(20, 20));
}

#[test]
fn can_eat_when_starving() {
    assert!(can_eat(0, 20));
}

#[test]
fn food_count_matches_table() {
    assert_eq!(food_count(), 18);
}


#[test]
fn lookup_apple() {
    assert_eq!(food_hunger(3000), Some(4));
}

#[test]
fn lookup_baked_potato() {
    assert_eq!(food_hunger(3001), Some(5));
}

#[test]
fn lookup_beef_cooked() {
    assert_eq!(food_hunger(3002), Some(8));
}

#[test]
fn lookup_bread() {
    assert_eq!(food_hunger(3003), Some(5));
}

#[test]
fn lookup_carrot() {
    assert_eq!(food_hunger(3004), Some(3));
}

#[test]
fn lookup_chicken_cooked() {
    assert_eq!(food_hunger(3005), Some(6));
}

#[test]
fn lookup_cod_cooked() {
    assert_eq!(food_hunger(3006), Some(5));
}

#[test]
fn lookup_golden_apple() {
    assert_eq!(food_hunger(3007), Some(4));
}

#[test]
fn lookup_golden_carrot() {
    assert_eq!(food_hunger(3008), Some(6));
}

#[test]
fn lookup_melon_slice() {
    assert_eq!(food_hunger(3009), Some(2));
}

#[test]
fn lookup_mushroom_stew() {
    assert_eq!(food_hunger(3010), Some(6));
}

#[test]
fn lookup_porkchop_cooked() {
    assert_eq!(food_hunger(3011), Some(8));
}

#[test]
fn lookup_potato() {
    assert_eq!(food_hunger(3012), Some(1));
}

#[test]
fn lookup_pumpkin_pie() {
    assert_eq!(food_hunger(3013), Some(8));
}

#[test]
fn lookup_rabbit_stew() {
    assert_eq!(food_hunger(3014), Some(10));
}

#[test]
fn lookup_salmon_cooked() {
    assert_eq!(food_hunger(3015), Some(6));
}

#[test]
fn lookup_sweet_berries() {
    assert_eq!(food_hunger(3016), Some(2));
}

#[test]
fn lookup_suspicious_stew() {
    assert_eq!(food_hunger(3017), Some(6));
}

#[test]
fn unknown_item_returns_none() {
    assert!(food_hunger(0).is_none());
    assert!(food_hunger(9999).is_none());
    assert!(food_hunger(2999).is_none());
    assert!(food_hunger(3018).is_none());
}
