use mc_entity::effects::{ActiveEffect, EffectManager, StatusEffect};

#[test]
fn add_and_remove_effect() {
    let mut mgr = EffectManager::new();
    mgr.add_effect(ActiveEffect {
        effect: StatusEffect::Speed,
        duration_ticks: 100,
        amplifier: 0,
    });

    assert!(mgr.has_effect(StatusEffect::Speed));
    assert_eq!(mgr.get_amplifier(StatusEffect::Speed), Some(0));

    mgr.remove_effect(StatusEffect::Speed);
    assert!(!mgr.has_effect(StatusEffect::Speed));
    assert_eq!(mgr.get_amplifier(StatusEffect::Speed), None);
}

#[test]
fn stronger_replaces_weaker() {
    let mut mgr = EffectManager::new();
    mgr.add_effect(ActiveEffect {
        effect: StatusEffect::Strength,
        duration_ticks: 200,
        amplifier: 0,
    });
    // Stronger amplifier should replace.
    mgr.add_effect(ActiveEffect {
        effect: StatusEffect::Strength,
        duration_ticks: 100,
        amplifier: 2,
    });
    assert_eq!(mgr.get_amplifier(StatusEffect::Strength), Some(2));
}

#[test]
fn weaker_does_not_replace_stronger() {
    let mut mgr = EffectManager::new();
    mgr.add_effect(ActiveEffect {
        effect: StatusEffect::Strength,
        duration_ticks: 200,
        amplifier: 2,
    });
    // Weaker amplifier should NOT replace.
    mgr.add_effect(ActiveEffect {
        effect: StatusEffect::Strength,
        duration_ticks: 300,
        amplifier: 1,
    });
    assert_eq!(mgr.get_amplifier(StatusEffect::Strength), Some(2));
}

#[test]
fn effects_tick_decrements_duration() {
    let mut mgr = EffectManager::new();
    mgr.add_effect(ActiveEffect {
        effect: StatusEffect::Regeneration,
        duration_ticks: 3,
        amplifier: 0,
    });

    mgr.tick();
    assert!(mgr.has_effect(StatusEffect::Regeneration));

    mgr.tick();
    assert!(mgr.has_effect(StatusEffect::Regeneration));

    // Third tick brings duration to 0 -> removed.
    mgr.tick();
    assert!(!mgr.has_effect(StatusEffect::Regeneration));
}

#[test]
fn tick_removes_expired_effects_only() {
    let mut mgr = EffectManager::new();
    mgr.add_effect(ActiveEffect {
        effect: StatusEffect::Speed,
        duration_ticks: 1,
        amplifier: 0,
    });
    mgr.add_effect(ActiveEffect {
        effect: StatusEffect::Invisibility,
        duration_ticks: 5,
        amplifier: 1,
    });

    mgr.tick();
    assert!(!mgr.has_effect(StatusEffect::Speed));
    assert!(mgr.has_effect(StatusEffect::Invisibility));
}

