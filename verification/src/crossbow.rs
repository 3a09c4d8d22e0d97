//! Crossbow projectiles and piercing.
use vstd::prelude::*;

verus! {

/// The type of projectile loaded into a crossbow.
#[derive(Debug, Clone, Copy, PartialEq, Eq, Hash)]
pub enum LoadedProjectile {
    Arrow,
    SpectralArrow,
    /// A tipped arrow carrying the given potion effect id.
    TippedArrow(u8),
    Firework,
}

/// Number of extra targets a piercing projectile passes through beyond the
/// first: the enchantment level itself.
pub fn piercing_remaining_targets(piercing_level: u8) -> (r: u8)
    ensures
        r == piercing_level,
{
    piercing_level
}

/// The charge time of a crossbow in quarter seconds: five (1.25 s) less one
/// per Quick Charge level, never below one (0.25 s).
pub fn charge_quarter_seconds(quick_charge_level: u8) -> (q: u8)
    ensures
        q == (if quick_charge_level < 4 { 5 - quick_charge_level } else { 1 }),
{
    if quick_charge_level < 4 {
        5 - quick_charge_level
    } else {
        1
    }
}

/// The projectiles a shot releases: none when nothing is loaded, otherwise
/// the first loaded projectile, three times with Multishot and once
/// without.
pub fn fire_volley(loaded: &Option<Vec<LoadedProjectile>>, has_multishot: bool) -> (shot: Vec<LoadedProjectile>)
    ensures
        match loaded {
            Some(v) => if v@.len() > 0 {
                shot@ == (if has_multishot { seq![v@[0], v@[0], v@[0]] } else { seq![v@[0]] })
            } else {
                shot@.len() == 0
            },
            None => shot@.len() == 0,
        },
{
    match loaded {
        Some(v) => {
            if v.len() > 0 {
                let base = v[0];
                if has_multishot {
                    vec![base, base, base]
                } else {
                    vec![base]
                }
            } else {
                Vec::new()
            }
        },
        None => Vec::new(),
    }
}

} // verus!
