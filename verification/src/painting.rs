//! Painting variants: sizes, names and placement by available space.
use vstd::prelude::*;

verus! {

/// The 26 canonical Minecraft painting variants.
#[derive(Debug, Clone, Copy, PartialEq, Eq, Hash, Structural)]
pub enum PaintingVariant {
    Kebab,
    Aztec,
    Alban,
    Aztec2,
    Bomb,
    Plant,
    Wasteland,
    Pool,
    Courbet,
    Sea,
    Sunset,
    Creebet,
    Wanderer,
    Graham,
    Match,
    Bust,
    Stage,
    Void,
    SkullAndRoses,
    Wither,
    Fighters,
    Skeleton,
    DonkeyKong,
    Pointer,
    Pigscene,
    BurningSkull,
}

/// The dimensions `(width, height)` of each painting in blocks.
pub open spec fn size_of(variant: PaintingVariant) -> (u8, u8) {
    match variant {
        PaintingVariant::Kebab => (1u8, 1u8),
        PaintingVariant::Aztec => (1u8, 1u8),
        PaintingVariant::Alban => (1u8, 1u8),
        PaintingVariant::Aztec2 => (1u8, 1u8),
        PaintingVariant::Bomb => (1u8, 1u8),
        PaintingVariant::Plant => (1u8, 1u8),
        PaintingVariant::Wasteland => (1u8, 1u8),
        PaintingVariant::Pool => (2u8, 1u8),
        PaintingVariant::Courbet => (2u8, 1u8),
        PaintingVariant::Sea => (2u8, 1u8),
        PaintingVariant::Sunset => (2u8, 1u8),
        PaintingVariant::Creebet => (2u8, 1u8),
        PaintingVariant::Wanderer => (2u8, 2u8),
        PaintingVariant::Graham => (2u8, 2u8),
        PaintingVariant::Match => (2u8, 2u8),
        PaintingVariant::Bust => (2u8, 2u8),
        PaintingVariant::Stage => (2u8, 2u8),
        PaintingVariant::Void => (2u8, 2u8),
        PaintingVariant::SkullAndRoses => (2u8, 2u8),
        PaintingVariant::Wither => (2u8, 2u8),
        PaintingVariant::Fighters => (4u8, 2u8),
        PaintingVariant::Skeleton => (4u8, 3u8),
        PaintingVariant::DonkeyKong => (4u8, 3u8),
        PaintingVariant::Pointer => (4u8, 4u8),
        PaintingVariant::Pigscene => (4u8, 4u8),
        PaintingVariant::BurningSkull => (4u8, 4u8),
    }
}

/// The name of each painting.
pub open spec fn name_of(variant: PaintingVariant) -> Seq<char> {
    match variant {
        PaintingVariant::Kebab => "Kebab"@,
        PaintingVariant::Aztec => "Aztec"@,
        PaintingVariant::Alban => "Alban"@,
        PaintingVariant::Aztec2 => "Aztec2"@,
        PaintingVariant::Bomb => "Bomb"@,
        PaintingVariant::Plant => "Plant"@,
        PaintingVariant::Wasteland => "Wasteland"@,
        PaintingVariant::Pool => "Pool"@,
        PaintingVariant::Courbet => "Courbet"@,
        PaintingVariant::Sea => "Sea"@,
        PaintingVariant::Sunset => "Sunset"@,
        PaintingVariant::Creebet => "Creebet"@,
        PaintingVariant::Wanderer => "Wanderer"@,
        PaintingVariant::Graham => "Graham"@,
        PaintingVariant::Match => "Match"@,
        PaintingVariant::Bust => "Bust"@,
        PaintingVariant::Stage => "Stage"@,
        PaintingVariant::Void => "Void"@,
        PaintingVariant::SkullAndRoses => "SkullAndRoses"@,
        PaintingVariant::Wither => "Wither"@,
        PaintingVariant::Fighters => "Fighters"@,
        PaintingVariant::Skeleton => "Skeleton"@,
        PaintingVariant::DonkeyKong => "DonkeyKong"@,
        PaintingVariant::Pointer => "Pointer"@,
        PaintingVariant::Pigscene => "Pigscene"@,
        PaintingVariant::BurningSkull => "BurningSkull"@,
    }
}

/// All painting variants in declaration order.
pub open spec fn all_paintings() -> Seq<PaintingVariant> {
    seq![
        PaintingVariant::Kebab,
        PaintingVariant::Aztec,
        PaintingVariant::Alban,
        PaintingVariant::Aztec2,
        PaintingVariant::Bomb,
        PaintingVariant::Plant,
        PaintingVariant::Wasteland,
        PaintingVariant::Pool,
        PaintingVariant::Courbet,
        PaintingVariant::Sea,
        PaintingVariant::Sunset,
        PaintingVariant::Creebet,
        PaintingVariant::Wanderer,
        PaintingVariant::Graham,
        PaintingVariant::Match,
        PaintingVariant::Bust,
        PaintingVariant::Stage,
        PaintingVariant::Void,
        PaintingVariant::SkullAndRoses,
        PaintingVariant::Wither,
        PaintingVariant::Fighters,
        PaintingVariant::Skeleton,
        PaintingVariant::DonkeyKong,
        PaintingVariant::Pointer,
        PaintingVariant::Pigscene,
        PaintingVariant::BurningSkull,
    ]
}

/// Whether a painting fits in `max_w` x `max_h` blocks.
pub open spec fn fits_in(max_w: u8, max_h: u8) -> spec_fn(PaintingVariant) -> bool {
    |p: PaintingVariant| size_of(p).0 <= max_w && size_of(p).1 <= max_h
}

/// All painting variants in declaration order.
pub fn all_paintings_vec() -> (v: Vec<PaintingVariant>)
    ensures
        v@ == all_paintings(),
{
    let mut v: Vec<PaintingVariant> = Vec::new();
    v.push(PaintingVariant::Kebab);
    v.push(PaintingVariant::Aztec);
    v.push(PaintingVariant::Alban);
    v.push(PaintingVariant::Aztec2);
    v.push(PaintingVariant::Bomb);
    v.push(PaintingVariant::Plant);
    v.push(PaintingVariant::Wasteland);
    v.push(PaintingVariant::Pool);
    v.push(PaintingVariant::Courbet);
    v.push(PaintingVariant::Sea);
    v.push(PaintingVariant::Sunset);
    v.push(PaintingVariant::Creebet);
    v.push(PaintingVariant::Wanderer);
    v.push(PaintingVariant::Graham);
    v.push(PaintingVariant::Match);
    v.push(PaintingVariant::Bust);
    v.push(PaintingVariant::Stage);
    v.push(PaintingVariant::Void);
    v.push(PaintingVariant::SkullAndRoses);
    v.push(PaintingVariant::Wither);
    v.push(PaintingVariant::Fighters);
    v.push(PaintingVariant::Skeleton);
    v.push(PaintingVariant::DonkeyKong);
    v.push(PaintingVariant::Pointer);
    v.push(PaintingVariant::Pigscene);
    v.push(PaintingVariant::BurningSkull);
    assert(v@ =~= all_paintings());
    v
}

/// Returns the dimensions `(width, height)` of the given painting in blocks.
pub fn painting_size(variant: PaintingVariant) -> (s: (u8, u8))
    ensures
        s == size_of(variant),
{
    match variant {
        PaintingVariant::Kebab => (1, 1),
        PaintingVariant::Aztec => (1, 1),
        PaintingVariant::Alban => (1, 1),
        PaintingVariant::Aztec2 => (1, 1),
        PaintingVariant::Bomb => (1, 1),
        PaintingVariant::Plant => (1, 1),
        PaintingVariant::Wasteland => (1, 1),
        PaintingVariant::Pool => (2, 1),
        PaintingVariant::Courbet => (2, 1),
        PaintingVariant::Sea => (2, 1),
        PaintingVariant::Sunset => (2, 1),
        PaintingVariant::Creebet => (2, 1),
        PaintingVariant::Wanderer => (2, 2),
        PaintingVariant::Graham => (2, 2),
        PaintingVariant::Match => (2, 2),
        PaintingVariant::Bust => (2, 2),
        PaintingVariant::Stage => (2, 2),
        PaintingVariant::Void => (2, 2),
        PaintingVariant::SkullAndRoses => (2, 2),
        PaintingVariant::Wither => (2, 2),
        PaintingVariant::Fighters => (4, 2),
        PaintingVariant::Skeleton => (4, 3),
        PaintingVariant::DonkeyKong => (4, 3),
        PaintingVariant::Pointer => (4, 4),
        PaintingVariant::Pigscene => (4, 4),
        PaintingVariant::BurningSkull => (4, 4),
    }
}

/// Returns all painting variants whose dimensions fit within `max_w` x `max_h`,
/// in declaration order.
pub fn paintings_fitting(max_w: u8, max_h: u8) -> (r: Vec<PaintingVariant>)
    ensures
        r@ == all_paintings().filter(fits_in(max_w, max_h)),
{
    let all = all_paintings_vec();
    let ghost pred = fits_in(max_w, max_h);
    let mut r: Vec<PaintingVariant> = Vec::new();
    let mut i: usize = 0;
    while i < all.len()
        invariant
            i <= all.len(),
            all@ == all_paintings(),
            pred == fits_in(max_w, max_h),
            r@ == all@.take(i as int).filter(pred),
        decreases all.len() - i,
    {
        let p = all[i];
        let (w, h) = painting_size(p);
        if w <= max_w && h <= max_h {
            r.push(p);
        }
        proof {
            let t1 = all@.take(i + 1);
            assert(t1.drop_last() =~= all@.take(i as int));
            assert(t1.last() == all@[i as int]);
            reveal(Seq::filter);
        }
        i = i + 1;
    }
    assert(all@.take(all@.len() as int) =~= all@);
    r
}

/// Returns the human-readable name of the painting variant.
pub fn painting_name(variant: PaintingVariant) -> (name: &'static str)
    ensures
        name@ == name_of(variant),
{
    match variant {
        PaintingVariant::Kebab => "Kebab",
        PaintingVariant::Aztec => "Aztec",
        PaintingVariant::Alban => "Alban",
        PaintingVariant::Aztec2 => "Aztec2",
        PaintingVariant::Bomb => "Bomb",
        PaintingVariant::Plant => "Plant",
        PaintingVariant::Wasteland => "Wasteland",
        PaintingVariant::Pool => "Pool",
        PaintingVariant::Courbet => "Courbet",
        PaintingVariant::Sea => "Sea",
        PaintingVariant::Sunset => "Sunset",
        PaintingVariant::Creebet => "Creebet",
        PaintingVariant::Wanderer => "Wanderer",
        PaintingVariant::Graham => "Graham",
        PaintingVariant::Match => "Match",
        PaintingVariant::Bust => "Bust",
        PaintingVariant::Stage => "Stage",
        PaintingVariant::Void => "Void",
        PaintingVariant::SkullAndRoses => "SkullAndRoses",
        PaintingVariant::Wither => "Wither",
        PaintingVariant::Fighters => "Fighters",
        PaintingVariant::Skeleton => "Skeleton",
        PaintingVariant::DonkeyKong => "DonkeyKong",
        PaintingVariant::Pointer => "Pointer",
        PaintingVariant::Pigscene => "Pigscene",
        PaintingVariant::BurningSkull => "BurningSkull",
    }
}

/// Returns the total number of painting variants (26).
pub fn total_paintings() -> (n: usize)
    ensures
        n == all_paintings().len(),
{
    26
}

} // verus!
