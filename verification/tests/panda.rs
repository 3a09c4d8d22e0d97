use mc_entity::panda::{breed, personality, pseudo_random, PandaGenes, PandaPersonality};

#[test]
fn dominant_main_gene_always_displays() {
    let genes = PandaGenes::new(PandaPersonality::Lazy, PandaPersonality::Aggressive);
    assert_eq!(personality(&genes), PandaPersonality::Lazy);
}

#[test]
fn recessive_main_gene_displays_when_hidden_matches() {
    let genes = PandaGenes::new(PandaPersonality::Brown, PandaPersonality::Brown);
    assert_eq!(personality(&genes), PandaPersonality::Brown);
}

#[test]
fn recessive_main_gene_falls_back_to_normal_when_hidden_differs() {
    let genes = PandaGenes::new(PandaPersonality::Aggressive, PandaPersonality::Lazy);
    assert_eq!(personality(&genes), PandaPersonality::Normal);
}

#[test]
fn all_dominant_variants_display_regardless_of_hidden() {
    for dominant in [
        PandaPersonality::Normal,
        PandaPersonality::Lazy,
        PandaPersonality::Worried,
        PandaPersonality::Playful,
    ] {
        for hidden in [PandaPersonality::Aggressive, PandaPersonality::Weak, PandaPersonality::Brown] {
            assert_eq!(
                personality(&PandaGenes::new(dominant, hidden)),
                dominant,
                "dominant {dominant:?} should display with hidden {hidden:?}"
            );
        }
    }
}

#[test]
fn recessive_weak_displays_only_when_both_match() {
    assert_eq!(
        personality(&PandaGenes::new(PandaPersonality::Weak, PandaPersonality::Weak)),
        PandaPersonality::Weak,
    );
    assert_eq!(
        personality(&PandaGenes::new(PandaPersonality::Weak, PandaPersonality::Normal)),
        PandaPersonality::Normal,
    );
}

#[test]
fn panda_breed_is_deterministic() {
    let p1 = PandaGenes::new(PandaPersonality::Lazy, PandaPersonality::Worried);
    let p2 = PandaGenes::new(PandaPersonality::Playful, PandaPersonality::Brown);
    let a = breed(&p1, &p2, 12345);
    let b = breed(&p1, &p2, 12345);
    assert_eq!(a, b, "same parents + seed must produce identical offspring");
}

#[test]
fn breed_different_seeds_can_differ() {
    let p1 = PandaGenes::new(PandaPersonality::Lazy, PandaPersonality::Normal);
    let p2 = PandaGenes::new(PandaPersonality::Playful, PandaPersonality::Normal);
    let results: Vec<_> = (0..20).map(|s| breed(&p1, &p2, s)).collect();
    let all_same = results.windows(2).all(|w| w[0] == w[1]);
    assert!(!all_same, "different seeds should eventually produce different offspring");
}

#[test]
fn breed_inherits_from_parents_without_mutation() {
    let p1 = PandaGenes::new(PandaPersonality::Lazy, PandaPersonality::Worried);
    let p2 = PandaGenes::new(PandaPersonality::Playful, PandaPersonality::Brown);

    for seed in 100..200 {
        let child = breed(&p1, &p2, seed);
        let mutate_main = pseudo_random(seed, 2);
        let mutate_hidden = pseudo_random(seed, 3);

        if mutate_main % 32 != 0 {
            assert!(
                child.main == p1.main || child.main == p2.main,
                "seed {seed}: main gene {:?} not from either parent ({:?}, {:?})",
                child.main,
                p1.main,
                p2.main,
            );
        }
        if mutate_hidden % 32 != 0 {
            assert!(
                child.hidden == p1.hidden || child.hidden == p2.hidden,
                "seed {seed}: hidden gene {:?} not from either parent ({:?}, {:?})",
                child.hidden,
                p1.hidden,
                p2.hidden,
            );
        }
    }
}

#[test]
fn dominant_recessive_classification() {
    assert!(PandaPersonality::Normal.is_dominant());
    assert!(PandaPersonality::Lazy.is_dominant());
    assert!(PandaPersonality::Worried.is_dominant());
    assert!(PandaPersonality::Playful.is_dominant());

    assert!(PandaPersonality::Aggressive.is_recessive());
    assert!(PandaPersonality::Weak.is_recessive());
    assert!(PandaPersonality::Brown.is_recessive());
}

#[test]
fn breed_known_offspring() {
    let p1 = PandaGenes::new(PandaPersonality::Lazy, PandaPersonality::Worried);
    let p2 = PandaGenes::new(PandaPersonality::Playful, PandaPersonality::Brown);
    assert_eq!(
        breed(&p1, &p2, 12345),
        PandaGenes::new(PandaPersonality::Playful, PandaPersonality::Worried)
    );
    assert_eq!(pseudo_random(12345, 0), 247259349206175817);
}

#[test]
fn from_index_wraps_modulo_seven() {
    assert_eq!(PandaPersonality::from_index(0), PandaPersonality::Normal);
    assert_eq!(PandaPersonality::from_index(6), PandaPersonality::Brown);
    assert_eq!(PandaPersonality::from_index(7), PandaPersonality::Normal);
    assert_eq!(PandaPersonality::from_index(11), PandaPersonality::Aggressive);
}

#[test]
fn mutation_draws_from_index_hash() {
    // Seed 61 mutates the main gene (hash with salt 2 is a multiple of 32).
    assert_eq!(pseudo_random(61, 2) % 32, 0);
    let p = PandaGenes::new(PandaPersonality::Lazy, PandaPersonality::Lazy);
    let child = breed(&p, &p, 61);
    assert_eq!(child.main, PandaPersonality::from_index(pseudo_random(61, 4)));
}
