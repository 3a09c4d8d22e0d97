use mc_entity::cat_gift::{select_cat_gift, cat_gift_item_id, cat_gift_weight_units, total_gift_types, CatGiftItem};

const ITEMS: [CatGiftItem; 8] = [
    CatGiftItem::RawCod,
    CatGiftItem::RawSalmon,
    CatGiftItem::RabbitHide,
    CatGiftItem::RabbitFoot,
    CatGiftItem::StringItem,
    CatGiftItem::RottenFlesh,
    CatGiftItem::Feather,
    CatGiftItem::PhantomMembrane,
];

#[test]
fn test_total_gift_types() {
    assert_eq!(total_gift_types(), 8);
}

#[test]
fn test_cat_gift_item_id_unique() {
    let ids: std::collections::HashSet<u16> = ITEMS.iter().map(|i| cat_gift_item_id(*i)).collect();
    assert_eq!(ids.len(), 8);
}

#[test]
fn gift_item_ids_in_order() {
    let ids: Vec<u16> = ITEMS.iter().map(|i| cat_gift_item_id(*i)).collect();
    assert_eq!(ids, vec![800, 801, 802, 803, 804, 805, 806, 807]);
}

#[test]
fn weights_in_ten_thousandths() {
    assert_eq!(cat_gift_weight_units(CatGiftItem::RawCod), 1661);
    assert_eq!(cat_gift_weight_units(CatGiftItem::RottenFlesh), 1661);
    assert_eq!(cat_gift_weight_units(CatGiftItem::Feather), 69);
    assert_eq!(cat_gift_weight_units(CatGiftItem::PhantomMembrane), 69);
    let total: u32 = ITEMS.iter().map(|i| u32::from(cat_gift_weight_units(*i))).sum();
    assert_eq!(total, 10_104);
}

#[test]
fn test_select_cat_gift_deterministic() {
    let gift1 = select_cat_gift(42);
    let gift2 = select_cat_gift(42);
    assert_eq!(gift1, gift2);
}

#[test]
fn test_select_cat_gift_varies_with_seed() {
    let mut seen = std::collections::HashSet::new();
    for seed in 0..100 {
        seen.insert(select_cat_gift(seed));
    }
    assert!(seen.len() >= 2);
}

const GIFTS: [CatGiftItem; 8] = [
    CatGiftItem::RawCod,
    CatGiftItem::RawSalmon,
    CatGiftItem::RabbitHide,
    CatGiftItem::RabbitFoot,
    CatGiftItem::StringItem,
    CatGiftItem::RottenFlesh,
    CatGiftItem::Feather,
    CatGiftItem::PhantomMembrane,
];

/// The weighted draw carried out in floating point, item by item.
fn float_draw(seed: u64) -> CatGiftItem {
    let weights: [f32; 8] = [0.1661, 0.1661, 0.1661, 0.1661, 0.1661, 0.1661, 0.0069, 0.0069];
    let total: f32 = weights.iter().sum();
    let hash = seed.wrapping_mul(6364136223846793005).wrapping_add(1442695040888963407);
    let target = (hash as f64 / u64::MAX as f64) as f32 * total;
    let mut cumulative = 0.0f32;
    for (item, w) in GIFTS.iter().zip(weights.iter()) {
        cumulative += w;
        if target < cumulative {
            return *item;
        }
    }
    CatGiftItem::PhantomMembrane
}

#[test]
fn select_cat_gift_known_seeds() {
    assert_eq!(select_cat_gift(0), CatGiftItem::RawCod);
    assert_eq!(select_cat_gift(1), CatGiftItem::RabbitHide);
    assert_eq!(select_cat_gift(2), CatGiftItem::StringItem);
    assert_eq!(select_cat_gift(42), CatGiftItem::RabbitFoot);
}

#[test]
fn select_cat_gift_matches_float_draw() {
    let mut seed: u64 = 0x1234_5678;
    for _ in 0..200_000 {
        assert_eq!(select_cat_gift(seed), float_draw(seed));
        seed = seed.wrapping_mul(2862933555777941757).wrapping_add(3037000493);
    }
}

#[test]
fn select_cat_gift_matches_float_draw_at_bounds() {
    // Seeds whose hashes sit on either side of each bound.
    let inverse: u64 = {
        // Multiplicative inverse of the generator's multiplier modulo 2^64.
        let a: u64 = 6364136223846793005;
        let mut x: u64 = 1;
        for _ in 0..6 {
            x = x.wrapping_mul(2u64.wrapping_sub(a.wrapping_mul(x)));
        }
        x
    };
    let bounds: [u64; 7] = [
        3032466400984695041,
        6064932801969390081,
        9097399615270944256,
        12129865603938780161,
        15162332966996147200,
        18194800330053518337,
        18320771377247814657,
    ];
    for (i, b) in bounds.iter().enumerate() {
        for h in [b - 1, *b] {
            let seed = h.wrapping_sub(1442695040888963407).wrapping_mul(inverse);
            assert_eq!(float_draw(seed), select_cat_gift(seed));
            let expected = if h < *b { GIFTS[i] } else { GIFTS[i + 1] };
            assert_eq!(select_cat_gift(seed), expected);
        }
    }
}
