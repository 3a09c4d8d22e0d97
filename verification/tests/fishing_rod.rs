use mc_entity::fishing_rod::{
    hash_u64, reel_catch, FishingEvent, ITEM_CLOWNFISH, ITEM_COD, ITEM_LURE, ITEM_PUFFERFISH,
    ITEM_SALMON,
};

#[test]
fn reel_returns_item_when_biting() {
    let item = reel_catch(true, 123);
    assert!(item.is_some());
    let id = item.unwrap();
    assert!(matches!(id, ITEM_LURE | ITEM_COD | ITEM_SALMON | ITEM_CLOWNFISH | ITEM_PUFFERFISH));
    assert_eq!(id, ITEM_SALMON);
}

#[test]
fn reel_returns_none_when_not_biting() {
    assert!(reel_catch(false, 123).is_none());
}

#[test]
fn reel_items_cover_the_table() {
    let mut seen = std::collections::HashSet::new();
    for seed in 0..2000u64 {
        seen.insert(reel_catch(true, seed).unwrap());
    }
    assert_eq!(seen.len(), 5);
}

#[test]
fn finalizer_mix_of_zero_is_zero() {
    assert_eq!(hash_u64(0), 0);
    assert_ne!(hash_u64(1), 1);
}

#[test]
fn caught_event_carries_item() {
    let e = FishingEvent::Caught(ITEM_COD);
    assert_eq!(e, FishingEvent::Caught(3015));
    assert_ne!(e, FishingEvent::Lost);
}
