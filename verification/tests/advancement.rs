use mc_entity::advancement::{
    advancement_properties, advancement_registry, AdvancementId, AdvancementTracker,
    AdvancementTrigger, BLOCK_OAK_LOG, DIM_NETHER, ITEM_OAK_PLANKS, MOB_CREEPER,
};

#[test]
fn registry_has_correct_count() {
    assert_eq!(advancement_registry().len(), AdvancementId::COUNT);
}

#[test]
fn root_advancement_has_no_parent() {
    assert!(advancement_registry()[AdvancementId::OpenInventory as usize].parent.is_none());
}

#[test]
fn mine_wood_unlocks_from_block_mined() {
    let mut tracker = AdvancementTracker::new();
    tracker.mark_unlocked(AdvancementId::OpenInventory);

    tracker.push_trigger(AdvancementTrigger::BlockMined(BLOCK_OAK_LOG));
    let unlocked = tracker.check_triggers();

    assert!(unlocked.contains(&AdvancementId::MineWood));
    assert!(tracker.is_unlocked(AdvancementId::MineWood));
}

#[test]
fn chain_unlocks_mine_wood_then_craft_planks() {
    let mut tracker = AdvancementTracker::new();
    tracker.mark_unlocked(AdvancementId::OpenInventory);

    tracker.push_trigger(AdvancementTrigger::BlockMined(BLOCK_OAK_LOG));
    let first = tracker.check_triggers();
    assert!(first.contains(&AdvancementId::MineWood));

    tracker.push_trigger(AdvancementTrigger::ItemCrafted(ITEM_OAK_PLANKS));
    let second = tracker.check_triggers();
    assert!(second.contains(&AdvancementId::CraftPlanks));
    assert!(tracker.is_unlocked(AdvancementId::CraftPlanks));
}

#[test]
fn cannot_unlock_without_parent() {
    let mut tracker = AdvancementTracker::new();
    tracker.push_trigger(AdvancementTrigger::BlockMined(BLOCK_OAK_LOG));
    let unlocked = tracker.check_triggers();

    assert!(unlocked.is_empty());
    assert!(!tracker.is_unlocked(AdvancementId::MineWood));
}

#[test]
fn triggers_clear_after_processing() {
    let mut tracker = AdvancementTracker::new();
    tracker.push_trigger(AdvancementTrigger::BlockMined(BLOCK_OAK_LOG));

    let _ = tracker.check_triggers();
    let second = tracker.check_triggers();
    assert!(second.is_empty());
}

#[test]
fn duplicate_trigger_does_not_double_unlock() {
    let mut tracker = AdvancementTracker::new();
    tracker.mark_unlocked(AdvancementId::OpenInventory);

    tracker.push_trigger(AdvancementTrigger::BlockMined(BLOCK_OAK_LOG));
    tracker.push_trigger(AdvancementTrigger::BlockMined(BLOCK_OAK_LOG));
    let unlocked = tracker.check_triggers();

    assert_eq!(unlocked.iter().filter(|&&id| id == AdvancementId::MineWood).count(), 1);
}

#[test]
fn unlock_count_tracks_correctly() {
    let mut tracker = AdvancementTracker::new();
    assert_eq!(tracker.unlock_count(), 0);

    tracker.mark_unlocked(AdvancementId::OpenInventory);
    assert_eq!(tracker.unlock_count(), 1);

    tracker.push_trigger(AdvancementTrigger::BlockMined(BLOCK_OAK_LOG));
    let _ = tracker.check_triggers();
    assert_eq!(tracker.unlock_count(), 2);
}

#[test]
fn total_count_returns_30() {
    assert_eq!(AdvancementTracker::total_count(), 30);
}

#[test]
fn distance_trigger_unlocks_at_threshold() {
    let mut tracker = AdvancementTracker::new();
    tracker.mark_unlocked(AdvancementId::OpenInventory);

    tracker.push_trigger(AdvancementTrigger::DistanceTraveled(999));
    let unlocked = tracker.check_triggers();
    assert!(unlocked.is_empty());

    tracker.push_trigger(AdvancementTrigger::DistanceTraveled(1000));
    let unlocked = tracker.check_triggers();
    assert!(unlocked.contains(&AdvancementId::CoverDistance1000));
}

#[test]
fn kill_creeper_unlocks_from_mob_killed() {
    let mut tracker = AdvancementTracker::new();
    tracker.mark_unlocked(AdvancementId::OpenInventory);

    tracker.push_trigger(AdvancementTrigger::MobKilled(MOB_CREEPER));
    let unlocked = tracker.check_triggers();
    assert!(unlocked.contains(&AdvancementId::KillCreeper));
}

#[test]
fn enter_nether_requires_get_diamond_parent() {
    let mut tracker = AdvancementTracker::new();
    tracker.push_trigger(AdvancementTrigger::DimensionEntered(DIM_NETHER));
    let unlocked = tracker.check_triggers();
    assert!(unlocked.is_empty());

    for id in [
        AdvancementId::OpenInventory,
        AdvancementId::MineWood,
        AdvancementId::CraftPlanks,
        AdvancementId::MakePickaxe,
        AdvancementId::MineCobblestone,
        AdvancementId::BuildFurnace,
        AdvancementId::SmeltIron,
        AdvancementId::GetDiamond,
    ] {
        tracker.mark_unlocked(id);
    }

    tracker.push_trigger(AdvancementTrigger::DimensionEntered(DIM_NETHER));
    let unlocked = tracker.check_triggers();
    assert!(unlocked.contains(&AdvancementId::EnterNether));
}

#[test]
fn trigger_in_same_batch_unlocks_child_after_parent() {
    let mut tracker = AdvancementTracker::new();
    tracker.mark_unlocked(AdvancementId::OpenInventory);
    tracker.push_trigger(AdvancementTrigger::BlockMined(BLOCK_OAK_LOG));
    tracker.push_trigger(AdvancementTrigger::ItemCrafted(ITEM_OAK_PLANKS));
    let unlocked = tracker.check_triggers();
    assert_eq!(unlocked, vec![AdvancementId::MineWood, AdvancementId::CraftPlanks]);
}

#[test]
fn child_before_parent_in_batch_is_not_unlocked() {
    let mut tracker = AdvancementTracker::new();
    tracker.mark_unlocked(AdvancementId::OpenInventory);
    tracker.push_trigger(AdvancementTrigger::ItemCrafted(ITEM_OAK_PLANKS));
    tracker.push_trigger(AdvancementTrigger::BlockMined(BLOCK_OAK_LOG));
    let unlocked = tracker.check_triggers();
    assert_eq!(unlocked, vec![AdvancementId::MineWood]);
    assert!(!tracker.is_unlocked(AdvancementId::CraftPlanks));
}

#[test]
fn registry_parents_match_properties() {
    let reg = advancement_registry();
    assert_eq!(reg.len(), 30);
    assert_eq!(reg[1].parent, advancement_properties(AdvancementId::MineWood).parent);
    assert_eq!(AdvancementId::from_index(1), Some(AdvancementId::MineWood));
    assert_eq!(AdvancementId::MineWood.index(), 1);
    assert_eq!(AdvancementId::from_index(30), None);
}
