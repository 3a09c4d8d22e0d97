//! Frost Walker enchantment: the disc of water it freezes and where it works.
use vstd::prelude::*;

verus! {

/// Maximum enchantment level for Frost Walker.
pub const MAX_FROST_WALKER_LEVEL: u8 = 2;

/// Returns the freeze radius for a given Frost Walker level: 0 at level 0,
/// otherwise `2 + level`.
pub fn frost_walker_radius(level: u8) -> (r: u8)
    requires
        level <= 253,
    ensures
        r == (if level == 0 { 0 } else { 2 + level }),
{
    if level == 0 {
        return 0;
    }
    2 + level
}

/// The positions of one row `dx` of the disc, `dz` running over
/// `[-r, upto)`, in order.
pub open spec fn disc_row(px: int, by: int, pz: int, r: int, dx: int, upto: int) -> Seq<(i32, i32, i32)>
    decreases upto + r,
{
    if upto <= -r {
        seq![]
    } else {
        let prev = disc_row(px, by, pz, r, dx, upto - 1);
        let dz = upto - 1;
        if dx * dx + dz * dz <= r * r {
            prev.push(((px + dx) as i32, by as i32, (pz + dz) as i32))
        } else {
            prev
        }
    }
}

/// The positions of the disc for the rows `dx` in `[-r, upto)`, in order.
pub open spec fn disc_rows(px: int, by: int, pz: int, r: int, upto: int) -> Seq<(i32, i32, i32)>
    decreases upto + r,
{
    if upto <= -r {
        seq![]
    } else {
        disc_rows(px, by, pz, r, upto - 1) + disc_row(px, by, pz, r, upto - 1, r + 1)
    }
}

/// Returns all block positions in a circle of [`frost_walker_radius`] at
/// `y = py - 1` centred on `(px, pz)`: the `(px + dx, py - 1, pz + dz)` with
/// `dx*dx + dz*dz <= radius*radius`, `dx` then `dz` running from `-radius`
/// to `radius`.
pub fn freeze_water_positions(px: i32, py: i32, pz: i32, level: u8) -> (positions: Vec<(i32, i32, i32)>)
    requires
        level <= 253,
        py > i32::MIN,
        level > 0 ==> i32::MIN + 2 + level <= px <= i32::MAX - 2 - level,
        level > 0 ==> i32::MIN + 2 + level <= pz <= i32::MAX - 2 - level,
    ensures
        positions@ == (if level == 0 {
            Seq::<(i32, i32, i32)>::empty()
        } else {
            disc_rows(px as int, py - 1, pz as int, 2 + level, 3 + level)
        }),
{
    let r = frost_walker_radius(level) as i32;
    if r == 0 {
        return Vec::new();
    }
    let by = py - 1;
    assert(0 <= r * r <= 255 * 255) by (nonlinear_arith)
        requires 0 <= r <= 255;
    let r_sq = r * r;
    let mut positions: Vec<(i32, i32, i32)> = Vec::new();
    let mut dx: i32 = -r;
    while dx <= r
        invariant
            r == 2 + level,
            3 <= r <= 255,
            r_sq == r * r,
            by == py - 1,
            -r <= dx <= r + 1,
            i32::MIN + r <= px <= i32::MAX - r,
            i32::MIN + r <= pz <= i32::MAX - r,
            positions@ == disc_rows(px as int, by as int, pz as int, r as int, dx as int),
        decreases r + 1 - dx,
    {
        let ghost before = positions@;
        let mut dz: i32 = -r;
        while dz <= r
            invariant
                r == 2 + level,
                3 <= r <= 255,
                r_sq == r * r,
                by == py - 1,
                -r <= dx <= r,
                -r <= dz <= r + 1,
                i32::MIN + r <= px <= i32::MAX - r,
                i32::MIN + r <= pz <= i32::MAX - r,
                before == disc_rows(px as int, by as int, pz as int, r as int, dx as int),
                positions@ == before + disc_row(px as int, by as int, pz as int, r as int, dx as int, dz as int),
            decreases r + 1 - dz,
        {
            assert(0 <= dx * dx <= 65536) by (nonlinear_arith)
                requires -256 <= dx <= 256;
            assert(0 <= dz * dz <= 65536) by (nonlinear_arith)
                requires -256 <= dz <= 256;
            if dx * dx + dz * dz <= r_sq {
                positions.push((px + dx, by, pz + dz));
            }
            proof {
                let row = disc_row(px as int, by as int, pz as int, r as int, dx as int, dz as int);
                if dx * dx + dz * dz <= r_sq {
                    assert(before + row.push(((px + dx) as i32, by, (pz + dz) as i32))
                        =~= (before + row).push(((px + dx) as i32, by, (pz + dz) as i32)));
                }
            }
            dz = dz + 1;
        }
        dx = dx + 1;
    }
    positions
}

/// Frost Walker prevents magma block damage.
pub fn prevents_magma_damage() -> (b: bool)
    ensures
        b,
{
    true
}

/// Returns whether Frost Walker functions in the given dimension: the
/// Overworld (0) and the End (2), not the Nether (1) nor unknown dimensions.
pub fn frost_walker_works_in_dimension(dim: u8) -> (b: bool)
    ensures
        b == (dim == 0 || dim == 2),
{
    match dim {
        0 | 2 => true,
        1 => false,
        _ => false,
    }
}

} // verus!
