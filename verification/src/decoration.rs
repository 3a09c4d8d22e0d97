//! Banner decorations and painting placement.
use vstd::prelude::*;
use crate::painting::{PaintingVariant, all_paintings, fits_in, paintings_fitting};

verus! {

/// The mixing hash of painting placement, from `seed` and `index`.
pub open spec fn placement_hash(seed: u64, index: u64) -> u64 {
    let h0 = seed.wrapping_mul(6_364_136_223_846_793_005u64).wrapping_add(index);
    let h1 = h0 ^ (h0 >> 33u64);
    let h2 = h1.wrapping_mul(0xff51_afd7_ed55_8ccdu64);
    let h3 = h2 ^ (h2 >> 33u64);
    let h4 = h3.wrapping_mul(0xc4ce_b9fe_1a85_ec53u64);
    h4 ^ (h4 >> 33u64)
}

/// Simple hash-based pseudo-random number derived from `seed` and `index`.
pub fn pseudo_random(seed: u64, index: u64) -> (h: u64)
    ensures
        h == placement_hash(seed, index),
{
    let mut h = seed.wrapping_mul(6_364_136_223_846_793_005u64).wrapping_add(index);
    h = h ^ (h >> 33u64);
    h = h.wrapping_mul(0xff51_afd7_ed55_8ccdu64);
    h = h ^ (h >> 33u64);
    h = h.wrapping_mul(0xc4ce_b9fe_1a85_ec53u64);
    h ^ (h >> 33u64)
}

/// Choose a random painting that fits within the given `available_width` and
/// `available_height` (in blocks): the candidate at position
/// `hash(seed, n) % n` among the `n` fitting variants, or `Kebab` (1x1) if
/// none fits.
pub fn choose_painting(available_width: u8, available_height: u8, seed: u64) -> (p: PaintingVariant)
    ensures
        ({
            let c = all_paintings().filter(fits_in(available_width, available_height));
            p == if c.len() == 0 {
                PaintingVariant::Kebab
            } else {
                c[(placement_hash(seed, c.len() as u64) % (c.len() as u64)) as int]
            }
        }),
{
    let candidates = paintings_fitting(available_width, available_height);
    if candidates.len() == 0 {
        return PaintingVariant::Kebab;
    }
    let n = candidates.len() as u64;
    let idx = pseudo_random(seed, n) % n;
    candidates[idx as usize]
}

/// Maximum number of pattern layers on a single banner.
pub const MAX_BANNER_PATTERNS: usize = 6;

/// The 15 banner pattern types available for decoration.
#[derive(Debug, Clone, Copy, PartialEq, Eq, Hash, Structural)]
pub enum BannerPattern {
    Base,
    Stripe,
    Cross,
    Diagonal,
    HalfHorizontal,
    HalfVertical,
    Triangle,
    Rhombus,
    Circle,
    Border,
    Bricks,
    Gradient,
    Skull,
    Creeper,
    Flower,
}

/// A banner with a base colour and up to 6 pattern layers.
///
/// Each layer is a `(BannerPattern, colour)` pair where `colour` is a dye
/// colour index (0-15 in vanilla Minecraft).
#[derive(Debug, Clone, PartialEq)]
pub struct Banner {
    pub base_color: u8,
    pub patterns: Vec<(BannerPattern, u8)>,
}

impl Banner {
    /// Creates a new banner with the given base colour and no pattern layers.
    pub fn new(color: u8) -> (b: Self)
        ensures
            b.base_color == color,
            b.patterns@ == Seq::<(BannerPattern, u8)>::empty(),
    {
        Self { base_color: color, patterns: Vec::new() }
    }

    /// Adds a pattern layer to the banner.
    ///
    /// Returns `true` if the pattern was added, or `false` if the banner
    /// already has the maximum number of layers ([`MAX_BANNER_PATTERNS`]).
    pub fn add_pattern(&mut self, pattern: BannerPattern, color: u8) -> (added: bool)
        ensures
            added == (old(self).patterns@.len() < MAX_BANNER_PATTERNS),
            final(self).base_color == old(self).base_color,
            final(self).patterns@ == if added {
                old(self).patterns@.push((pattern, color))
            } else {
                old(self).patterns@
            },
    {
        if self.patterns.len() >= MAX_BANNER_PATTERNS {
            return false;
        }
        self.patterns.push((pattern, color));
        true
    }
}

} // verus!
