//! Projectile kinds, their physical properties, and tick outcomes.
use vstd::prelude::*;

verus! {

#[derive(Debug, Clone, Copy, PartialEq, Eq, Hash, Structural)]
pub enum ProjectileType {
    Arrow,
    SpectralArrow,
    TippedArrow,
    Trident,
    Snowball,
    Egg,
    EnderPearl,
    Fireball,
    WitherSkull,
}

/// Outcome of a single projectile tick.
#[derive(Debug, Clone, Copy, PartialEq, Eq, Structural)]
pub enum ProjectileEvent {
    /// Still airborne.
    Flying,
    /// Struck the solid block at these coordinates.
    HitBlock(i32, i32, i32),
    /// Struck the entity with this id.
    HitEntity(u64),
    /// Exceeded its maximum lifetime and despawned.
    Expired,
}

/// The physical properties of a projectile kind.
#[derive(Debug, Clone, Copy, PartialEq, Eq, Structural)]
pub struct ProjectileProperties {
    /// Downward acceleration in hundredths of a block per second squared.
    pub gravity_hundredths: u8,
    /// Direct hit damage in half-hearts.
    pub damage: u8,
    /// Seconds before the projectile despawns.
    pub max_lifetime_secs: u8,
}

/// The properties of a projectile kind: arrows fall at 0.05 and deal 2
/// for 60 s; the trident deals 8; snowballs, eggs and pearls fall at 0.03,
/// deal nothing and last 15 s; fireballs (6) and wither skulls (8) do not
/// fall and last 30 s.
pub open spec fn properties_spec(t: ProjectileType) -> (u8, u8, u8) {
    match t {
        ProjectileType::Arrow | ProjectileType::SpectralArrow | ProjectileType::TippedArrow => (5, 2, 60),
        ProjectileType::Trident => (5, 8, 60),
        ProjectileType::Snowball | ProjectileType::Egg | ProjectileType::EnderPearl => (3, 0, 15),
        ProjectileType::Fireball => (0, 6, 30),
        ProjectileType::WitherSkull => (0, 8, 30),
    }
}

/// The physical properties of a projectile kind.
pub fn projectile_properties(t: ProjectileType) -> (p: ProjectileProperties)
    ensures
        (p.gravity_hundredths, p.damage, p.max_lifetime_secs) == properties_spec(t),
{
    let (g, d, l): (u8, u8, u8) = match t {
        ProjectileType::Arrow | ProjectileType::SpectralArrow | ProjectileType::TippedArrow => (5, 2, 60),
        ProjectileType::Trident => (5, 8, 60),
        ProjectileType::Snowball | ProjectileType::Egg | ProjectileType::EnderPearl => (3, 0, 15),
        ProjectileType::Fireball => (0, 6, 30),
        ProjectileType::WitherSkull => (0, 8, 30),
    };
    ProjectileProperties { gravity_hundredths: g, damage: d, max_lifetime_secs: l }
}

} // verus!
