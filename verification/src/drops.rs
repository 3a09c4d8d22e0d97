//! Block and mob drops that draw their counts from the thread-local random
//! generator.
use vstd::prelude::*;
use rand::Rng;
use crate::block::{BlockId, block_raw};
use crate::loot::LootCondition;
use crate::loot_blocks::block_table_spec;

verus! {

pub const STICK: u16 = 1000;
pub const COAL: u16 = 1001;
pub const DIAMOND: u16 = 1002;
pub const FLINT: u16 = 1003;

pub const ROTTEN_FLESH: u16 = 2000;
pub const BONE: u16 = 2001;
pub const ARROW: u16 = 2002;
pub const GUNPOWDER: u16 = 2003;
pub const STRING_ITEM: u16 = 2004;
pub const RAW_PORKCHOP: u16 = 2005;
pub const LEATHER: u16 = 2006;
pub const RAW_BEEF: u16 = 2007;
pub const WOOL: u16 = 2008;
pub const FEATHER: u16 = 2009;
pub const RAW_CHICKEN: u16 = 2010;

/// Systems that move and collect dropped items and experience orbs.
pub struct DropSystem;

/// A uniformly random integer in `[lo, hi]` from `rand::rng().random_range(lo..=hi)`.
///
/// Only the range of the result is stated; the value depends on the
/// thread-local generator's state.
#[verifier::external_body]
fn random_in_range(lo: u8, hi: u8) -> (r: u8)
    requires
        lo <= hi,
    ensures
        lo <= r <= hi,
{
    rand::rng().random_range(lo..=hi)
}

/// A drop list holding `(item, count)` when the count is positive, and nothing otherwise.
pub open spec fn if_positive(item: u16, count: u8) -> Seq<(u16, u8)> {
    if count > 0 { seq![(item, count)] } else { seq![] }
}

/// The item ids of a list of `(item, count)` drops.
pub open spec fn drop_ids(items: Seq<(u16, u8)>) -> Seq<u16> {
    items.map_values(|d: (u16, u8)| d.0)
}

/// Drop `m` can absorb drop `j`: `m` is still on the ground when it is
/// visited, holds the same item, and lies within range of `j`.
pub open spec fn can_absorb(ids: Seq<u16>, near: Seq<Seq<bool>>, m: nat, j: nat) -> bool
    decreases m, m + 2,
{
    &&& !is_absorbed(ids, near, m)
    &&& ids[m as int] == ids[j as int]
    &&& near[m as int][j as int]
}

/// The first drop in `[k, j)` that can absorb drop `j`, if any.
pub open spec fn first_absorber_from(ids: Seq<u16>, near: Seq<Seq<bool>>, j: nat, k: nat) -> Option<nat>
    decreases j, (j - k) as nat,
{
    if k >= j {
        None
    } else if can_absorb(ids, near, k, j) {
        Some(k)
    } else {
        first_absorber_from(ids, near, j, k + 1)
    }
}

/// The drop that absorbs drop `j` when drops are merged in index order:
/// the first earlier drop that is not itself absorbed, holds the same item
/// and lies within range.
pub open spec fn absorber(ids: Seq<u16>, near: Seq<Seq<bool>>, j: nat) -> Option<nat> {
    first_absorber_from(ids, near, j, 0)
}

/// Drop `j` is merged into an earlier drop.
pub open spec fn is_absorbed(ids: Seq<u16>, near: Seq<Seq<bool>>, j: nat) -> bool
    decreases j, j + 1,
{
    first_absorber_from(ids, near, j, 0) is Some
}

/// The sum of the counts of the drops in `(i, m)` that drop `i` absorbs.
pub open spec fn absorbed_total(items: Seq<(u16, u8)>, near: Seq<Seq<bool>>, i: nat, m: nat) -> nat
    decreases m,
{
    if m <= i + 1 {
        0
    } else {
        absorbed_total(items, near, i, (m - 1) as nat) + (if absorber(drop_ids(items), near, (m - 1) as nat)
            == Some(i) {
            items[m - 1].1 as nat
        } else {
            0nat
        })
    }
}

/// The count of drop `i` after merging: its own count plus those of the
/// drops it absorbs, saturating at 255.
pub open spec fn merged_count(items: Seq<(u16, u8)>, near: Seq<Seq<bool>>, i: nat) -> u8 {
    saturated(items[i as int].1 + absorbed_total(items, near, i, items.len()))
}

/// A count cut at 255.
pub open spec fn saturated(total: int) -> u8 {
    if total > 255 { 255u8 } else { total as u8 }
}

/// The indices of the drops left after merging, in the order merging leaves them.
pub open spec fn merged_order(items: Seq<(u16, u8)>, near: Seq<Seq<bool>>) -> Seq<usize> {
    swap_compacted(absorbed_flags(drop_ids(items), near), 0)
}

/// The order in which removing absorbed drops from the back by
/// `swap_remove` leaves the drops in `[i, len)`: a kept drop stays in front
/// of what follows it, and removing one moves the current last drop into
/// its place.
pub open spec fn swap_compacted(absorbed: Seq<bool>, i: nat) -> Seq<usize>
    decreases absorbed.len() - i,
{
    if i >= absorbed.len() {
        seq![]
    } else {
        let t = swap_compacted(absorbed, i + 1);
        if absorbed[i as int] {
            if t.len() == 0 { t } else { seq![t.last()] + t.drop_last() }
        } else {
            seq![i as usize] + t
        }
    }
}

/// The absorbed flags of all drops.
pub open spec fn absorbed_flags(ids: Seq<u16>, near: Seq<Seq<bool>>) -> Seq<bool> {
    Seq::new(ids.len(), |j: int| is_absorbed(ids, near, j as nat))
}

/// A proximity matrix with one row and one column per drop.
pub open spec fn near_is_square(near: Seq<Vec<bool>>, n: nat) -> bool {
    near.len() == n && forall|i: int| 0 <= i < n ==> #[trigger] near[i]@.len() == n
}

/// The rows of a proximity matrix as sequences.
pub open spec fn near_rows(near: Seq<Vec<bool>>) -> Seq<Seq<bool>> {
    near.map_values(|r: Vec<bool>| r@)
}

/// `first_absorber_from` is the first drop in `[k, j)` that can absorb `j`.
proof fn lemma_first_absorber_from(ids: Seq<u16>, near: Seq<Seq<bool>>, j: nat, k: nat)
    ensures
        match first_absorber_from(ids, near, j, k) {
            Some(a) => k <= a < j && can_absorb(ids, near, a, j) && forall|m: nat|
                k <= m < a ==> !#[trigger] can_absorb(ids, near, m, j),
            None => forall|m: nat| k <= m < j ==> !#[trigger] can_absorb(ids, near, m, j),
        },
    decreases j - k,
{
    if k < j {
        lemma_first_absorber_from(ids, near, j, k + 1);
    }
}

/// The absorber of drop `j` is the first earlier drop that can absorb it.
proof fn lemma_absorber(ids: Seq<u16>, near: Seq<Seq<bool>>, j: nat)
    ensures
        is_absorbed(ids, near, j) == absorber(ids, near, j) is Some,
        match absorber(ids, near, j) {
            Some(a) => a < j && can_absorb(ids, near, a, j) && forall|m: nat|
                m < a ==> !#[trigger] can_absorb(ids, near, m, j),
            None => forall|m: nat| m < j ==> !#[trigger] can_absorb(ids, near, m, j),
        },
{
    lemma_first_absorber_from(ids, near, j, 0);
}

/// Every index in `[i, len)` that is not absorbed occurs once in
/// `swap_compacted(absorbed, i)`, and nothing else occurs there.
proof fn lemma_swap_compacted(absorbed: Seq<bool>, i: nat)
    requires
        absorbed.len() <= usize::MAX,
    ensures
        forall|k: int| 0 <= k < swap_compacted(absorbed, i).len() ==> {
            let v = #[trigger] swap_compacted(absorbed, i)[k];
            i <= v < absorbed.len() && !absorbed[v as int]
        },
        forall|k: int| i <= k < absorbed.len() && !absorbed[k] ==> swap_compacted(absorbed, i).contains(
            k as usize,
        ),
        swap_compacted(absorbed, i).no_duplicates(),
    decreases absorbed.len() - i,
{
    if i < absorbed.len() {
        lemma_swap_compacted(absorbed, i + 1);
        let t = swap_compacted(absorbed, i + 1);
        let s = swap_compacted(absorbed, i);
        if absorbed[i as int] {
            if t.len() > 0 {
                assert forall|k: int| i <= k < absorbed.len() && !absorbed[k] implies s.contains(k as usize) by {
                    assert(t.contains(k as usize));
                    let p = choose|p: int| 0 <= p < t.len() && t[p] == k as usize;
                    if p == t.len() - 1 {
                        assert(s[0] == k as usize);
                    } else {
                        assert(s[p + 1] == k as usize);
                    }
                }
                assert forall|a: int, b: int| 0 <= a < s.len() && 0 <= b < s.len() && a != b implies s[a]
                    != s[b] by {
                    let pa = if a == 0 { t.len() - 1 } else { a - 1 };
                    let pb = if b == 0 { t.len() - 1 } else { b - 1 };
                    assert(s[a] == t[pa]);
                    assert(s[b] == t[pb]);
                }
                assert forall|k: int| 0 <= k < s.len() implies {
                    let v = #[trigger] s[k];
                    i <= v < absorbed.len() && !absorbed[v as int]
                } by {
                    let pk = if k == 0 { t.len() - 1 } else { k - 1 };
                    assert(s[k] == t[pk]);
                }
            }
        } else {
            assert forall|k: int| i <= k < absorbed.len() && !absorbed[k] implies s.contains(k as usize) by {
                if k == i {
                    assert(s[0] == k as usize);
                } else {
                    assert(t.contains(k as usize));
                    let p = choose|p: int| 0 <= p < t.len() && t[p] == k as usize;
                    assert(s[p + 1] == k as usize);
                }
            }
            assert forall|a: int, b: int| 0 <= a < s.len() && 0 <= b < s.len() && a != b implies s[a]
                != s[b] by {
                if a > 0 {
                    assert(s[a] == t[a - 1]);
                }
                if b > 0 {
                    assert(s[b] == t[b - 1]);
                }
            }
            assert forall|k: int| 0 <= k < s.len() implies {
                let v = #[trigger] s[k];
                i <= v < absorbed.len() && !absorbed[v as int]
            } by {
                if k > 0 {
                    assert(s[k] == t[k - 1]);
                }
            }
        }
    }
}

/// Absorbing adds saturating: adding `y` to a count already cut at 255
/// gives the same as cutting the whole sum.
proof fn lemma_saturating_step(x: int, y: u8)
    requires
        x >= 0,
    ensures
        (saturated(x) + y > 255 ==> saturated(x + y) == 255),
        (saturated(x) + y <= 255 ==> saturated(x + y) == saturated(x) + y),
{
}

/// After merging, no two remaining drops hold the same item within range
/// of each other.
pub proof fn lemma_merged_drops_apart(ids: Seq<u16>, near: Seq<Seq<bool>>, i: nat, j: nat)
    requires
        i < j,
        !is_absorbed(ids, near, i),
        !is_absorbed(ids, near, j),
    ensures
        !(ids[i as int] == ids[j as int] && near[i as int][j as int]),
{
    lemma_absorber(ids, near, j);
    assert(!can_absorb(ids, near, i, j));
}

/// The sum of the counts of the first `m` drops.
pub open spec fn count_sum(items: Seq<(u16, u8)>, m: nat) -> nat
    decreases m,
{
    if m == 0 {
        0
    } else {
        count_sum(items, (m - 1) as nat) + items[m - 1].1 as nat
    }
}

/// Over the drops below `k` that are not absorbed, the sum of their own
/// counts and of what they absorb from the drops below `m`.
pub open spec fn kept_total(items: Seq<(u16, u8)>, near: Seq<Seq<bool>>, k: nat, m: nat) -> nat
    decreases k,
{
    if k == 0 {
        0
    } else {
        kept_total(items, near, (k - 1) as nat, m) + (if is_absorbed(drop_ids(items), near, (k - 1) as nat) {
            0nat
        } else {
            items[k - 1].1 as nat + absorbed_total(items, near, (k - 1) as nat, m)
        })
    }
}

/// Letting drop `m` in adds its count to the kept drop that absorbs it, if
/// that drop lies below `k`.
proof fn lemma_kept_total_step(items: Seq<(u16, u8)>, near: Seq<Seq<bool>>, k: nat, m: nat)
    requires
        k <= m,
    ensures
        kept_total(items, near, k, m + 1) == kept_total(items, near, k, m) + (if absorber(
            drop_ids(items),
            near,
            m,
        ) matches Some(a) && a < k {
            items[m as int].1 as nat
        } else {
            0nat
        }),
    decreases k,
{
    if k > 0 {
        lemma_kept_total_step(items, near, (k - 1) as nat, m);
        let i = (k - 1) as nat;
        lemma_absorber(drop_ids(items), near, m);
        if absorber(drop_ids(items), near, m) == Some(i) {
            assert(!is_absorbed(drop_ids(items), near, i));
        }
    }
}

/// Merging loses no items: over the drops left, their own counts plus the
/// counts they absorb (before the cut at 255) add up to the counts of all
/// the drops.
pub proof fn lemma_merge_conserves_count(items: Seq<(u16, u8)>, near: Seq<Seq<bool>>, m: nat)
    ensures
        kept_total(items, near, m, m) == count_sum(items, m),
    decreases m,
{
    if m > 0 {
        let p = (m - 1) as nat;
        lemma_merge_conserves_count(items, near, p);
        lemma_kept_total_step(items, near, p, p);
        lemma_absorber(drop_ids(items), near, p);
        assert(absorbed_total(items, near, p, m) == 0);
    }
}

impl DropSystem {
    /// Merges nearby drops of the same item. `items[k]` is drop `k` as
    /// `(item, count)`, and `near[i][j]` says whether drops `i` and `j` lie
    /// within merge range of each other. Visiting the drops in order, each
    /// drop still on the ground absorbs every later drop still on the
    /// ground that holds the same item within range, adding its count
    /// (saturating at 255); the absorbed drops are then taken out from the
    /// back with `swap_remove`. Returns, in the order left, the index of
    /// each remaining drop with its new count.
    pub fn merge_nearby_drops(items: &Vec<(u16, u8)>, near: &Vec<Vec<bool>>) -> (merged: Vec<(usize, u8)>)
        requires
            near_is_square(near@, items.len() as nat),
        ensures
            merged.len() == merged_order(items@, near_rows(near@)).len(),
            forall|k: int| 0 <= k < merged.len() ==> #[trigger] merged[k] == (
                merged_order(items@, near_rows(near@))[k],
                merged_count(items@, near_rows(near@), merged_order(items@, near_rows(near@))[k] as nat),
            ),
            forall|k: int| 0 <= k < merged.len() ==> {
                let v = #[trigger] merged[k].0;
                v < items.len() && !is_absorbed(drop_ids(items@), near_rows(near@), v as nat)
            },
            forall|m: int|
                0 <= m < items.len() && !#[trigger] is_absorbed(drop_ids(items@), near_rows(near@), m as nat) ==> exists|
                    k: int,
                | 0 <= k < merged.len() && #[trigger] merged[k].0 == m,
            forall|a: int, b: int| 0 <= a < b < merged.len() ==> merged[a].0 != merged[b].0,
    {
        let n = items.len();
        let ghost ids = drop_ids(items@);
        let ghost nr = near_rows(near@);
        let mut absorbed: Vec<bool> = Vec::new();
        let mut counts: Vec<u8> = Vec::new();
        let mut k: usize = 0;
        while k < n
            invariant
                k <= n,
                n == items.len(),
                absorbed.len() == k,
                counts.len() == k,
                forall|m: int| 0 <= m < k ==> !#[trigger] absorbed[m],
                forall|m: int| 0 <= m < k ==> #[trigger] counts[m] == items[m].1,
            decreases n - k,
        {
            absorbed.push(false);
            counts.push(items[k].1);
            k += 1;
        }
        proof {
            assert forall|m: int| 0 <= m < n implies !(#[trigger] absorber(ids, nr, m as nat) matches Some(
                a,
            ) && a < 0) by {}
        }
        let mut i: usize = 0;
        while i < n
            invariant
                n == items.len(),
                near_is_square(near@, n as nat),
                ids == drop_ids(items@),
                nr == near_rows(near@),
                i <= n,
                absorbed.len() == n,
                counts.len() == n,
                forall|m: int|
                    0 <= m < n ==> #[trigger] absorbed[m] == (absorber(ids, nr, m as nat) matches Some(a)
                        && a < i),
                forall|m: int|
                    0 <= m < i && !is_absorbed(ids, nr, m as nat) ==> #[trigger] counts[m] == merged_count(
                        items@,
                        nr,
                        m as nat,
                    ),
                forall|m: int| i <= m < n ==> #[trigger] counts[m] == items[m].1,
            decreases n - i,
        {
            proof {
                lemma_absorber(ids, nr, i as nat);
                assert forall|m: int| 0 <= m < n implies #[trigger] absorber(ids, nr, m as nat) != Some(
                    i as nat,
                ) || (i < m && !is_absorbed(ids, nr, i as nat)) by {
                    lemma_absorber(ids, nr, m as nat);
                }
            }
            if !absorbed[i] {
                let mut j: usize = i + 1;
                while j < n
                    invariant
                        n == items.len(),
                        near_is_square(near@, n as nat),
                        ids == drop_ids(items@),
                        nr == near_rows(near@),
                        i < n,
                        i + 1 <= j <= n,
                        !is_absorbed(ids, nr, i as nat),
                        absorbed.len() == n,
                        counts.len() == n,
                        forall|m: int|
                            0 <= m < n ==> #[trigger] absorbed[m] == ((absorber(ids, nr, m as nat) matches Some(
                                a,
                            ) && a < i) || (absorber(ids, nr, m as nat) == Some(i as nat) && m < j)),
                        counts[i as int] == saturated(items[i as int].1 + absorbed_total(items@, nr, i as nat, j as nat)),
                        forall|m: int|
                            0 <= m < i && !is_absorbed(ids, nr, m as nat) ==> #[trigger] counts[m] == merged_count(
                                items@,
                                nr,
                                m as nat,
                            ),
                        forall|m: int| i < m < n ==> #[trigger] counts[m] == items[m].1,
                    decreases n - j,
                {
                    proof {
                        lemma_absorber(ids, nr, j as nat);
                        assert(ids[i as int] == items[i as int].0);
                        assert(ids[j as int] == items[j as int].0);
                        assert(nr[i as int] == near[i as int]@);
                        lemma_saturating_step(items[i as int].1 + absorbed_total(items@, nr, i as nat, j as nat), items[j as int].1);
                    }
                    proof {
                        assert(can_absorb(ids, nr, i as nat, j as nat) == (items[i as int].0 == items[j as int].0
                            && near[i as int]@[j as int]));
                        assert(absorbed_total(items@, nr, i as nat, (j + 1) as nat) == absorbed_total(
                            items@,
                            nr,
                            i as nat,
                            j as nat,
                        ) + (if absorber(ids, nr, j as nat) == Some(i as nat) {
                            items[j as int].1 as nat
                        } else {
                            0nat
                        }));
                    }
                    if !absorbed[j] && items[i].0 == items[j].0 && near[i][j] {
                        let c = counts[i].saturating_add(counts[j]);
                        counts.set(i, c);
                        absorbed.set(j, true);
                    }
                    proof {
                        assert(absorbed@[j as int] == ((absorber(ids, nr, j as nat) matches Some(a) && a < i)
                            || absorber(ids, nr, j as nat) == Some(i as nat)));
                    }
                    j += 1;
                }
            }
            i += 1;
        }
        let mut order: Vec<usize> = Vec::new();
        let mut p: usize = 0;
        while p < n
            invariant
                p <= n,
                order@ =~= Seq::new(p as nat, |q: int| q as usize),
            decreases n - p,
        {
            order.push(p);
            p += 1;
        }
        proof {
            assert forall|m: int| 0 <= m < n implies absorbed@[m] == #[trigger] absorbed_flags(ids, nr)[m] by {
                lemma_absorber(ids, nr, m as nat);
            }
            assert(absorbed@ =~= absorbed_flags(ids, nr));
        }
        let mut idx: usize = n;
        while idx > 0
            invariant
                idx <= n,
                absorbed.len() == n,
                n <= usize::MAX,
                order@ =~= Seq::new(idx as nat, |q: int| q as usize) + swap_compacted(absorbed@, idx as nat),
            decreases idx,
        {
            idx -= 1;
            let ghost t = swap_compacted(absorbed@, (idx + 1) as nat);
            if absorbed[idx] {
                order.swap_remove(idx);
                proof {
                    if t.len() > 0 {
                        assert(order@ =~= Seq::new(idx as nat, |q: int| q as usize) + (seq![t.last()] + t.drop_last()));
                    }
                }
            }
        }
        proof {
            lemma_swap_compacted(absorbed@, 0);
        }
        let mut merged: Vec<(usize, u8)> = Vec::new();
        let mut q: usize = 0;
        while q < order.len()
            invariant
                q <= order.len(),
                order@ == merged_order(items@, nr),
                merged.len() == q,
                counts.len() == n,
                n == items.len(),
                absorbed@ == absorbed_flags(ids, nr),
                ids == drop_ids(items@),
                forall|k: int|
                    0 <= k < order.len() ==> {
                        let v = #[trigger] order@[k];
                        0 <= v < n && !absorbed@[v as int]
                    },
                forall|m: int|
                    0 <= m < n && !is_absorbed(ids, nr, m as nat) ==> #[trigger] counts[m] == merged_count(
                        items@,
                        nr,
                        m as nat,
                    ),
                forall|k: int| 0 <= k < q ==> #[trigger] merged[k] == (order@[k], merged_count(items@, nr, order@[k] as nat)),
            decreases order.len() - q,
        {
            let v = order[q];
            merged.push((v, counts[v]));
            q += 1;
        }
        proof {
            assert forall|m: int|
                0 <= m < items.len() && !#[trigger] is_absorbed(ids, nr, m as nat) implies exists|k: int|
                0 <= k < merged.len() && #[trigger] merged[k].0 == m by {
                assert(absorbed_flags(ids, nr)[m] == is_absorbed(ids, nr, m as nat));
                assert(!absorbed@[m]);
                assert(order@.contains(m as usize));
                let k = choose|k: int| 0 <= k < order.len() && order@[k] == m as usize;
                assert(merged[k].0 == m);
            }
            assert forall|a: int, b: int| 0 <= a < b < merged.len() implies merged[a].0 != merged[b].0 by {
                assert(merged[a].0 == order@[a]);
                assert(merged[b].0 == order@[b]);
            }
            assert forall|k: int| 0 <= k < merged.len() implies {
                let v = #[trigger] merged[k].0;
                v < items.len() && !is_absorbed(drop_ids(items@), near_rows(near@), v as nat)
            } by {
                assert(merged[k].0 == order@[k]);
                assert(absorbed_flags(ids, nr)[order@[k] as int] == is_absorbed(ids, nr, order@[k] as nat));
            }
        }
        merged
    }
}

/// The drops of a block given the roll `r` in `[0, 9]` used for leaves and
/// gravel: leaves drop a stick when `r == 0`, gravel drops flint when
/// `r == 0` and itself otherwise, air, bedrock, water and glass drop nothing,
/// stone drops cobblestone, grass drops dirt, ores drop their item or
/// themselves, and every other block drops itself.
pub open spec fn block_drops_spec(block: BlockId, r: u8) -> Seq<(u16, u8)> {
    match block {
        BlockId::Stone => seq![(block_raw(BlockId::Cobblestone), 1u8)],
        BlockId::DiamondOre => seq![(DIAMOND, 1u8)],
        BlockId::CoalOre => seq![(COAL, 1u8)],
        BlockId::IronOre => seq![(block_raw(BlockId::IronOre), 1u8)],
        BlockId::GoldOre => seq![(block_raw(BlockId::GoldOre), 1u8)],
        BlockId::GrassBlock => seq![(block_raw(BlockId::Dirt), 1u8)],
        BlockId::OakLeaves => if r == 0 { seq![(STICK, 1u8)] } else { seq![] },
        BlockId::Gravel => if r == 0 { seq![(FLINT, 1u8)] } else { seq![(block_raw(BlockId::Gravel), 1u8)] },
        BlockId::Air | BlockId::Bedrock | BlockId::Water | BlockId::Glass => seq![],
        _ => seq![(block_raw(block), 1u8)],
    }
}

/// Whether every entry of a loot table needs silk touch (an empty table
/// included): without silk touch such a table gives nothing.
pub open spec fn needs_silk_touch(t: Seq<(Seq<(u16, u8, u8, u32, Seq<LootCondition>)>, u8)>) -> bool {
    forall|i: int, j: int|
        0 <= i < t.len() && 0 <= j < t[i].0.len() ==> (#[trigger] t[i].0[j]).4.contains(LootCondition::SilkTouch)
}

/// Breaking a block drops nothing, whatever the roll, exactly when its loot
/// table gives nothing without silk touch; any other block drops something
/// on the roll `0`.
pub proof fn lemma_drops_follow_loot_table(block: BlockId, r: u8)
    ensures
        needs_silk_touch(block_table_spec(block_raw(block))) ==> block_drops_spec(block, r).len() == 0,
        !needs_silk_touch(block_table_spec(block_raw(block))) ==> block_drops_spec(block, 0).len() > 0,
{
    let t = block_table_spec(block_raw(block));
    assert(seq![LootCondition::SilkTouch].contains(LootCondition::SilkTouch)) by {
        assert(seq![LootCondition::SilkTouch][0] == LootCondition::SilkTouch);
    }
    match block {
        BlockId::Air | BlockId::Bedrock | BlockId::Water | BlockId::Glass => {
            assert(needs_silk_touch(t));
        },
        BlockId::Gravel => {
            assert(!t[0].0[0].4.contains(LootCondition::SilkTouch)) by {
                assert(t[0].0[0].4 == seq![LootCondition::RandomChance(crate::loot::CHANCE_ONE_TENTH)]);
            }
        },
        BlockId::Stone | BlockId::DiamondOre | BlockId::CoalOre | BlockId::LapisOre | BlockId::EmeraldOre
        | BlockId::RedstoneOre | BlockId::GrassBlock | BlockId::OakLeaves => {
            assert(!t[0].0[1].4.contains(LootCondition::SilkTouch)) by {
                assert(t[0].0[1].4.len() == 1);
                assert(t[0].0[1].4[0] != LootCondition::SilkTouch);
            }
        },
        _ => {
            assert(!t[0].0[0].4.contains(LootCondition::SilkTouch)) by {
                assert(t[0].0[0].4 == seq![LootCondition::Always]);
            }
        },
    }
}

/// The drops of a block for a given roll `r` (see [`block_drops_spec`]).
pub fn block_drops_for_roll(block: BlockId, r: u8) -> (drops: Vec<(u16, u8)>)
    ensures
        drops@ == block_drops_spec(block, r),
{
    match block {
        BlockId::Stone => vec![(BlockId::Cobblestone.to_raw(), 1)],
        BlockId::DiamondOre => vec![(DIAMOND, 1)],
        BlockId::CoalOre => vec![(COAL, 1)],
        BlockId::IronOre => vec![(BlockId::IronOre.to_raw(), 1)],
        BlockId::GoldOre => vec![(BlockId::GoldOre.to_raw(), 1)],
        BlockId::GrassBlock => vec![(BlockId::Dirt.to_raw(), 1)],
        BlockId::OakLeaves => if r == 0 { vec![(STICK, 1)] } else { Vec::new() },
        BlockId::Gravel => if r == 0 { vec![(FLINT, 1)] } else { vec![(BlockId::Gravel.to_raw(), 1)] },
        BlockId::Air | BlockId::Bedrock | BlockId::Water | BlockId::Glass => Vec::new(),
        other => vec![(other.to_raw(), 1)],
    }
}

/// Returns a list of `(item_id, count)` dropped when the given block is
/// broken; leaves and gravel use a one-in-ten random roll.
pub fn spawn_block_drops(block: BlockId) -> (drops: Vec<(u16, u8)>)
    ensures
        exists|r: u8| r <= 9 && drops@ == block_drops_spec(block, r),
{
    let r = match block {
        BlockId::OakLeaves | BlockId::Gravel => random_in_range(0, 9),
        _ => 0,
    };
    block_drops_for_roll(block, r)
}

/// The drops of a mob of kind `kind` given its rolls `a` and `b`: zombies,
/// creepers and spiders drop `a` (0..=2) of their item, skeletons `a` bones
/// and `b` arrows (0..=2 each), pigs `a` porkchops (1..=3), cows `b` beef
/// (1..=3) and then `a` leather (0..=2), sheep one wool, chickens one raw
/// chicken and then `a` feathers (0..=2); items with a count of zero are
/// left out, and other kinds drop nothing.
pub open spec fn mob_drops_spec(kind: u8, a: u8, b: u8) -> Seq<(u16, u8)> {
    if kind == 0 {
        if_positive(ROTTEN_FLESH, a)
    } else if kind == 1 {
        if_positive(BONE, a) + if_positive(ARROW, b)
    } else if kind == 2 {
        if_positive(GUNPOWDER, a)
    } else if kind == 3 {
        if_positive(STRING_ITEM, a)
    } else if kind == 4 {
        seq![(RAW_PORKCHOP, a)]
    } else if kind == 5 {
        seq![(RAW_BEEF, b)] + if_positive(LEATHER, a)
    } else if kind == 6 {
        seq![(WOOL, 1u8)]
    } else if kind == 7 {
        seq![(RAW_CHICKEN, 1u8)] + if_positive(FEATHER, a)
    } else {
        seq![]
    }
}

/// The ranges of the rolls of each mob kind (see [`mob_drops_spec`]).
pub open spec fn mob_rolls_in_range(kind: u8, a: u8, b: u8) -> bool {
    if kind == 4 {
        1 <= a <= 3
    } else if kind == 5 {
        a <= 2 && 1 <= b <= 3
    } else {
        a <= 2 && b <= 2
    }
}

/// The drops of a mob for given rolls (see [`mob_drops_spec`]).
pub fn mob_drops_for_rolls(kind: u8, a: u8, b: u8) -> (drops: Vec<(u16, u8)>)
    ensures
        drops@ == mob_drops_spec(kind, a, b),
{
    let mut drops: Vec<(u16, u8)> = Vec::new();
    if kind == 0 {
        if a > 0 { drops.push((ROTTEN_FLESH, a)); }
    } else if kind == 1 {
        if a > 0 { drops.push((BONE, a)); }
        if b > 0 { drops.push((ARROW, b)); }
    } else if kind == 2 {
        if a > 0 { drops.push((GUNPOWDER, a)); }
    } else if kind == 3 {
        if a > 0 { drops.push((STRING_ITEM, a)); }
    } else if kind == 4 {
        drops.push((RAW_PORKCHOP, a));
    } else if kind == 5 {
        drops.push((RAW_BEEF, b));
        if a > 0 { drops.push((LEATHER, a)); }
    } else if kind == 6 {
        drops.push((WOOL, 1));
    } else if kind == 7 {
        drops.push((RAW_CHICKEN, 1));
        if a > 0 { drops.push((FEATHER, a)); }
    }
    assert(drops@ =~= mob_drops_spec(kind, a, b));
    drops
}

/// Returns a list of `(item_id, count)` dropped when a mob of the given kind
/// dies (`kind` is the discriminant of `MobKind`), with counts drawn from
/// the thread-local random generator. Pigs, cows, sheep and chickens
/// always drop something.
pub fn spawn_mob_drops(kind: u8) -> (drops: Vec<(u16, u8)>)
    ensures
        exists|a: u8, b: u8| mob_rolls_in_range(kind, a, b) && drops@ == mob_drops_spec(kind, a, b),
        4 <= kind <= 7 ==> drops@.len() >= 1,
{
    let (a, b) = if kind == 0 || kind == 2 || kind == 3 || kind == 7 {
        (random_in_range(0, 2), 0u8)
    } else if kind == 1 {
        let bones = random_in_range(0, 2);
        let arrows = random_in_range(0, 2);
        (bones, arrows)
    } else if kind == 4 {
        (random_in_range(1, 3), 0u8)
    } else if kind == 5 {
        let leather = random_in_range(0, 2);
        let beef = random_in_range(1, 3);
        (leather, beef)
    } else {
        (0u8, 0u8)
    };
    mob_drops_for_rolls(kind, a, b)
}

} // verus!
