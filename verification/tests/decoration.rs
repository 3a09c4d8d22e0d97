use mc_entity::decoration::{choose_painting, Banner, BannerPattern, MAX_BANNER_PATTERNS};
use mc_entity::painting;
use mc_entity::painting::PaintingVariant;

// -- Painting sizes (delegated to painting module) -------------------------

#[test]
fn painting_sizes_are_correct() {
    // 1x1
    assert_eq!(painting::painting_size(PaintingVariant::Kebab), (1, 1));
    assert_eq!(painting::painting_size(PaintingVariant::Aztec), (1, 1));
    assert_eq!(painting::painting_size(PaintingVariant::Alban), (1, 1));
    assert_eq!(painting::painting_size(PaintingVariant::Aztec2), (1, 1));
    assert_eq!(painting::painting_size(PaintingVariant::Bomb), (1, 1));
    assert_eq!(painting::painting_size(PaintingVariant::Plant), (1, 1));
    assert_eq!(painting::painting_size(PaintingVariant::Wasteland), (1, 1));

    // 2x1
    assert_eq!(painting::painting_size(PaintingVariant::Pool), (2, 1));
    assert_eq!(painting::painting_size(PaintingVariant::Courbet), (2, 1));

    // 2x2
    assert_eq!(painting::painting_size(PaintingVariant::Wanderer), (2, 2));
    assert_eq!(painting::painting_size(PaintingVariant::Graham), (2, 2));
    assert_eq!(painting::painting_size(PaintingVariant::Sunset), (2, 1));
    assert_eq!(painting::painting_size(PaintingVariant::Sea), (2, 1));
    assert_eq!(painting::painting_size(PaintingVariant::Creebet), (2, 1));
    assert_eq!(painting::painting_size(PaintingVariant::Match), (2, 2));
    assert_eq!(painting::painting_size(PaintingVariant::Bust), (2, 2));
    assert_eq!(painting::painting_size(PaintingVariant::Stage), (2, 2));
    assert_eq!(painting::painting_size(PaintingVariant::Void), (2, 2));
    assert_eq!(painting::painting_size(PaintingVariant::SkullAndRoses), (2, 2));

    // 4x2
    assert_eq!(painting::painting_size(PaintingVariant::Fighters), (4, 2));
}

// -- choose_painting respects space ---------------------------------------

#[test]
fn choose_painting_fits_within_1x1() {
    for seed in 0..50 {
        let p = choose_painting(1, 1, seed);
        let (w, h) = painting::painting_size(p);
        assert!(
            w <= 1 && h <= 1,
            "painting {p:?} does not fit in 1x1"
        );
    }
}

#[test]
fn choose_painting_fits_within_2x2() {
    for seed in 0..50 {
        let p = choose_painting(2, 2, seed);
        let (w, h) = painting::painting_size(p);
        assert!(
            w <= 2 && h <= 2,
            "painting {p:?} ({w}x{h}) does not fit in 2x2"
        );
    }
}

#[test]
fn choose_painting_fits_within_4x4() {
    for seed in 0..50 {
        let p = choose_painting(4, 4, seed);
        let (w, h) = painting::painting_size(p);
        assert!(
            w <= 4 && h <= 4,
            "painting {p:?} ({w}x{h}) does not fit in 4x4"
        );
    }
}

#[test]
fn choose_painting_only_1x1_for_narrow_space() {
    // Width 1, height 1 — only 1x1 paintings should be chosen.
    for seed in 0..50 {
        let p = choose_painting(1, 1, seed);
        assert_eq!(painting::painting_size(p), (1, 1));
    }
}

#[test]
fn choose_painting_is_deterministic() {
    let a = choose_painting(4, 4, 42);
    let b = choose_painting(4, 4, 42);
    assert_eq!(a, b);
}

// -- Banner creation ------------------------------------------------------

#[test]
fn banner_creation_has_no_patterns() {
    let banner = Banner::new(0);
    assert_eq!(banner.base_color, 0);
    assert!(banner.patterns.is_empty());
}

#[test]
fn banner_add_pattern_succeeds_within_limit() {
    let mut banner = Banner::new(1);
    for i in 0..MAX_BANNER_PATTERNS {
        assert!(
            banner.add_pattern(BannerPattern::Stripe, i as u8),
            "should accept pattern {i}"
        );
    }
    assert_eq!(banner.patterns.len(), MAX_BANNER_PATTERNS);
}

#[test]
fn banner_rejects_pattern_beyond_limit() {
    let mut banner = Banner::new(14);
    for _ in 0..MAX_BANNER_PATTERNS {
        banner.add_pattern(BannerPattern::Base, 0);
    }
    assert!(
        !banner.add_pattern(BannerPattern::Skull, 15),
        "should reject 7th pattern"
    );
    assert_eq!(banner.patterns.len(), MAX_BANNER_PATTERNS);
}

#[test]
fn banner_stores_patterns_in_order() {
    let mut banner = Banner::new(0);
    banner.add_pattern(BannerPattern::Cross, 1);
    banner.add_pattern(BannerPattern::Flower, 5);
    banner.add_pattern(BannerPattern::Gradient, 10);

    assert_eq!(
        banner.patterns,
        vec![
            (BannerPattern::Cross, 1),
            (BannerPattern::Flower, 5),
            (BannerPattern::Gradient, 10),
        ]
    );
}
