//! Loot tables: pools of weighted entries, rolled deterministically from a seed.
//!
//! Rolling a table walks its pools in order and rolls each pool `rolls` times.
//! One roll filters the pool's entries by their conditions (every condition
//! must pass), picks one of the eligible entries with probability
//! proportional to its weight, and draws a count in
//! `[min_count, max_count + bonus]`, where the bonus is the looting level for
//! mob loot and the fortune level for block loot. All randomness comes from a
//! splitmix64 stream started at the context's seed.
use vstd::prelude::*;

verus! {

/// A condition that must be met for a loot entry to be eligible.
#[derive(Debug, Clone, Copy, PartialEq, Eq, Structural)]
pub enum LootCondition {
    /// Always passes.
    Always,
    /// Requires the mob to have been killed by a player (not environment).
    KilledByPlayer,
    /// Requires at least the given looting enchantment level.
    HasLooting(u8),
    /// Passes with a given probability. The value is that probability scaled
    /// by 2^24 and rounded up (so `0` never passes and `16_777_216` always
    /// does): the condition draws a 24-bit random fraction `k / 2^24` and
    /// passes when `k` is below this threshold.
    RandomChance(u32),
    /// Requires the player to be using a Silk Touch tool.
    SilkTouch,
}

/// A single possible item drop within a loot pool.
#[derive(Debug, Clone)]
pub struct LootEntry {
    pub item_id: u16,
    pub min_count: u8,
    pub max_count: u8,
    pub weight: u32,
    pub conditions: Vec<LootCondition>,
}

/// A pool of entries rolled a fixed number of times.
#[derive(Debug, Clone)]
pub struct LootPool {
    pub entries: Vec<LootEntry>,
    pub rolls: u8,
}

/// A complete loot table composed of one or more pools.
#[derive(Debug, Clone)]
pub struct LootTable {
    pub pools: Vec<LootPool>,
}

/// Runtime context passed when rolling a loot table.
#[derive(Debug, Clone, Copy)]
pub struct LootContext {
    pub killed_by_player: bool,
    pub looting_level: u8,
    pub silk_touch: bool,
    pub fortune_level: u8,
    pub seed: u64,
}

// ---------------------------------------------------------------------------
// The random stream
// ---------------------------------------------------------------------------

/// The splitmix64 state after one step from `s`.
pub open spec fn split_state(s: u64) -> u64 {
    s.wrapping_add(0x9E37_79B9_7F4A_7C15u64)
}

/// The splitmix64 output of one step from `s`.
pub open spec fn split_out(s: u64) -> u64 {
    let z0 = split_state(s);
    let z1 = (z0 ^ (z0 >> 30u64)).wrapping_mul(0xBF58_476D_1CE4_E5B9u64);
    let z2 = (z1 ^ (z1 >> 27u64)).wrapping_mul(0x94D0_49BB_1331_11EBu64);
    z2 ^ (z2 >> 31u64)
}

/// One splitmix64 step: advances `state` and returns the mixed output.
pub fn splitmix(state: &mut u64) -> (r: u64)
    ensures
        *final(state) == split_state(*old(state)),
        r == split_out(*old(state)),
{
    *state = state.wrapping_add(0x9E37_79B9_7F4A_7C15u64);
    let mut z = *state;
    z = (z ^ (z >> 30u64)).wrapping_mul(0xBF58_476D_1CE4_E5B9u64);
    z = (z ^ (z >> 27u64)).wrapping_mul(0x94D0_49BB_1331_11EBu64);
    z ^ (z >> 31u64)
}

/// A count in `[min, max]` drawn from the stream at `s`, and the stream
/// afterwards; when `min >= max` it is `min` and no randomness is used.
pub open spec fn range_draw(s: u64, min: u8, max: u8) -> (u8, u64) {
    if min >= max {
        (min, s)
    } else {
        ((min as int + (split_out(s) as int) % ((max - min) as int + 1)) as u8, split_state(s))
    }
}

/// Returns a value in `[min, max]` (inclusive on both ends).
pub fn rand_range_u8(state: &mut u64, min: u8, max: u8) -> (r: u8)
    ensures
        (r, *final(state)) == range_draw(*old(state), min, max),
        min <= max ==> min <= r <= max,
{
    if min >= max {
        return min;
    }
    let range = (max - min) as u64 + 1;
    let v = splitmix(state) % range;
    min + v as u8
}

// ---------------------------------------------------------------------------
// Conditions and eligibility
// ---------------------------------------------------------------------------

/// Whether a condition that uses no randomness passes in `ctx`.
pub open spec fn static_pass(c: LootCondition, ctx: LootContext) -> bool {
    match c {
        LootCondition::Always => true,
        LootCondition::KilledByPlayer => ctx.killed_by_player,
        LootCondition::HasLooting(level) => ctx.looting_level >= level,
        LootCondition::RandomChance(_) => true,
        LootCondition::SilkTouch => ctx.silk_touch,
    }
}

/// Whether the conditions from index `i` on all pass, checked in order and
/// stopping at the first failure, and the stream afterwards. Each
/// `RandomChance` that is reached draws once from the stream.
pub open spec fn conditions_from(conds: Seq<LootCondition>, i: int, ctx: LootContext, s: u64) -> (bool, u64)
    decreases conds.len() - i,
{
    if i >= conds.len() || i < 0 {
        (true, s)
    } else {
        let (pass, next) = match conds[i] {
            LootCondition::RandomChance(t) => ((split_out(s) >> 40u64) < t as u64, split_state(s)),
            _ => (static_pass(conds[i], ctx), s),
        };
        if pass {
            conditions_from(conds, i + 1, ctx, next)
        } else {
            (false, next)
        }
    }
}

/// Evaluate all conditions for an entry. All must pass.
fn check_conditions(conditions: &Vec<LootCondition>, ctx: &LootContext, rng_state: &mut u64) -> (pass: bool)
    ensures
        (pass, *final(rng_state)) == conditions_from(conditions@, 0, *ctx, *old(rng_state)),
{
    let mut i: usize = 0;
    while i < conditions.len()
        invariant
            i <= conditions.len(),
            conditions_from(conditions@, 0, *ctx, *old(rng_state))
                == conditions_from(conditions@, i as int, *ctx, *rng_state),
        decreases conditions.len() - i,
    {
        let pass = match conditions[i] {
            LootCondition::Always => true,
            LootCondition::KilledByPlayer => ctx.killed_by_player,
            LootCondition::HasLooting(level) => ctx.looting_level >= level,
            LootCondition::RandomChance(t) => (splitmix(rng_state) >> 40u64) < t as u64,
            LootCondition::SilkTouch => ctx.silk_touch,
        };
        if !pass {
            return false;
        }
        i = i + 1;
    }
    true
}

/// Indices of the entries from `i` on whose conditions pass, evaluated in
/// order on one stream, and the stream afterwards.
pub open spec fn eligible_from(entries: Seq<LootEntry>, i: int, ctx: LootContext, s: u64) -> (Seq<usize>, u64)
    decreases entries.len() - i,
{
    if i >= entries.len() || i < 0 {
        (seq![], s)
    } else {
        let (pass, next) = conditions_from(entries[i].conditions@, 0, ctx, s);
        let (rest, fin) = eligible_from(entries, i + 1, ctx, next);
        (if pass { seq![i as usize] + rest } else { rest }, fin)
    }
}

/// Whether an entry carries a `SilkTouch` condition.
pub open spec fn has_silk(e: LootEntry) -> bool {
    exists|j: int| 0 <= j < e.conditions@.len() && e.conditions@[j] == LootCondition::SilkTouch
}

/// The indices among `idxs` from position `k` on whose entry carries a `SilkTouch` condition.
pub open spec fn silk_from(entries: Seq<LootEntry>, idxs: Seq<usize>, k: int) -> Seq<usize>
    decreases idxs.len() - k,
{
    if k >= idxs.len() || k < 0 {
        seq![]
    } else {
        let rest = silk_from(entries, idxs, k + 1);
        if has_silk(entries[idxs[k] as int]) { seq![idxs[k]] + rest } else { rest }
    }
}

/// With silk touch, the eligible entries that carry a `SilkTouch` condition
/// if there are any; otherwise all eligible entries.
pub open spec fn preferred(entries: Seq<LootEntry>, idxs: Seq<usize>, silk_touch: bool) -> Seq<usize> {
    if !silk_touch {
        idxs
    } else if silk_from(entries, idxs, 0).len() == 0 {
        idxs
    } else {
        silk_from(entries, idxs, 0)
    }
}

/// Sum of the weights of the entries at the first `n` indices of `idxs`.
pub open spec fn weight_sum(entries: Seq<LootEntry>, idxs: Seq<usize>, n: int) -> nat
    decreases n,
{
    if n <= 0 {
        0
    } else {
        weight_sum(entries, idxs, n - 1) + entries[idxs[n - 1] as int].weight as nat
    }
}

/// Position in `idxs` of the entry that a pick lands on: the first position
/// `j` whose running weight total exceeds `pick`.
pub open spec fn pick_position(entries: Seq<LootEntry>, idxs: Seq<usize>, pick: nat, j: int) -> Option<int>
    decreases idxs.len() - j,
{
    if j >= idxs.len() || j < 0 {
        None
    } else if pick < weight_sum(entries, idxs, j + 1) {
        Some(j)
    } else {
        pick_position(entries, idxs, pick, j + 1)
    }
}

/// The result of one roll of a pool from stream `s` (an item and a count,
/// or nothing), and the stream afterwards. `block` selects block loot
/// (silk-touch preference, fortune bonus) over mob loot (looting bonus).
pub open spec fn roll_once(pool: LootPool, ctx: LootContext, s: u64, block: bool) -> (Option<(u16, u8)>, u64) {
    let entries = pool.entries@;
    let (elig, s1) = eligible_from(entries, 0, ctx, s);
    if elig.len() == 0 {
        (None, s1)
    } else {
        let fin = if block { preferred(entries, elig, ctx.silk_touch) } else { elig };
        let total = weight_sum(entries, fin, fin.len() as int);
        if total == 0 {
            (None, s1)
        } else {
            let pick = (split_out(s1) as nat) % total;
            let s2 = split_state(s1);
            match pick_position(entries, fin, pick, 0) {
                None => (None, s2),
                Some(j) => {
                    let e = entries[fin[j] as int];
                    let bonus = if block { ctx.fortune_level } else { ctx.looting_level };
                    let emax = e.max_count.saturating_add(bonus);
                    let (count, s3) = range_draw(s2, e.min_count, emax);
                    (if count > 0 { Some((e.item_id, count)) } else { None }, s3)
                },
            }
        }
    }
}

/// The drops of the first `n` rolls of a pool, and the stream afterwards.
pub open spec fn pool_rolls(pool: LootPool, ctx: LootContext, s: u64, n: int, block: bool) -> (Seq<(u16, u8)>, u64)
    decreases n,
{
    if n <= 0 {
        (seq![], s)
    } else {
        let (prev, s1) = pool_rolls(pool, ctx, s, n - 1, block);
        let (drop, s2) = roll_once(pool, ctx, s1, block);
        (match drop { Some(d) => prev.push(d), None => prev }, s2)
    }
}

/// The drops of the first `k` pools of a table, and the stream afterwards.
pub open spec fn table_rolls(pools: Seq<LootPool>, ctx: LootContext, s: u64, k: int, block: bool) -> (Seq<(u16, u8)>, u64)
    decreases k,
{
    if k <= 0 {
        (seq![], s)
    } else {
        let (prev, s1) = table_rolls(pools, ctx, s, k - 1, block);
        let (more, s2) = pool_rolls(pools[k - 1], ctx, s1, pools[k - 1].rolls as int, block);
        (prev + more, s2)
    }
}

/// The drops of rolling a whole table with the context's seed.
pub open spec fn table_drops(table: LootTable, ctx: LootContext, block: bool) -> Seq<(u16, u8)> {
    table_rolls(table.pools@, ctx, ctx.seed, table.pools@.len() as int, block).0
}


// ---------------------------------------------------------------------------
// What a roll can give
// ---------------------------------------------------------------------------

/// Whether a drop can come from entry `e`: it is the entry's item, the
/// count is at least one and at least the entry's minimum, and it exceeds
/// the maximum raised by the bonus (looting for mob loot, fortune for block
/// loot, saturating at 255) only when it is the minimum itself.
pub open spec fn entry_allows(e: LootEntry, ctx: LootContext, block: bool, d: (u16, u8)) -> bool {
    let bonus = if block { ctx.fortune_level } else { ctx.looting_level };
    let emax = e.max_count.saturating_add(bonus);
    &&& d.0 == e.item_id
    &&& d.1 >= 1
    &&& e.min_count <= d.1
    &&& (d.1 <= emax || d.1 == e.min_count)
}

/// Whether a drop can come from some entry of some pool.
pub open spec fn drop_fits(pools: Seq<LootPool>, ctx: LootContext, block: bool, d: (u16, u8)) -> bool {
    exists|p: int, i: int| 0 <= p < pools.len() && 0 <= i < pools[p].entries@.len()
        && entry_allows(#[trigger] pools[p].entries@[i], ctx, block, d)
}

/// The total number of rolls of the first `k` pools.
pub open spec fn total_rolls(pools: Seq<LootPool>, k: int) -> nat
    decreases k,
{
    if k <= 0 { 0 } else { total_rolls(pools, k - 1) + pools[k - 1].rolls as nat }
}

proof fn lemma_range_draw(s: u64, min: u8, max: u8)
    ensures
        ({
            let (c, _) = range_draw(s, min, max);
            &&& min <= c
            &&& (c <= max || c == min)
        }),
{
    if min < max {
        let m = (max - min) as int + 1;
        let r = (split_out(s) as int) % m;
        assert(0 <= r < m);
    }
}

proof fn lemma_eligible_in_range(entries: Seq<LootEntry>, i: int, ctx: LootContext, s: u64)
    requires
        0 <= i,
        entries.len() <= usize::MAX,
    ensures
        forall|k: int| 0 <= k < eligible_from(entries, i, ctx, s).0.len()
            ==> i <= #[trigger] eligible_from(entries, i, ctx, s).0[k] < entries.len(),
    decreases entries.len() - i,
{
    if i < entries.len() {
        let (pass, next) = conditions_from(entries[i].conditions@, 0, ctx, s);
        lemma_eligible_in_range(entries, i + 1, ctx, next);
        let rest = eligible_from(entries, i + 1, ctx, next).0;
        if pass {
            let out = seq![i as usize] + rest;
            assert forall|k: int| 0 <= k < out.len() implies i <= #[trigger] out[k] < entries.len() by {
                if k > 0 {
                    assert(out[k] == rest[k - 1]);
                }
            }
        }
    }
}

proof fn lemma_silk_in_range(entries: Seq<LootEntry>, idxs: Seq<usize>, k: int)
    requires
        0 <= k,
        forall|m: int| 0 <= m < idxs.len() ==> #[trigger] idxs[m] < entries.len(),
    ensures
        forall|m: int| 0 <= m < silk_from(entries, idxs, k).len() ==> #[trigger] silk_from(entries, idxs, k)[m] < entries.len(),
    decreases idxs.len() - k,
{
    if k < idxs.len() {
        lemma_silk_in_range(entries, idxs, k + 1);
        let rest = silk_from(entries, idxs, k + 1);
        if has_silk(entries[idxs[k] as int]) {
            let out = seq![idxs[k]] + rest;
            assert forall|m: int| 0 <= m < out.len() implies #[trigger] out[m] < entries.len() by {
                if m > 0 {
                    assert(out[m] == rest[m - 1]);
                }
            }
        }
    }
}

proof fn lemma_pick_in_range(entries: Seq<LootEntry>, idxs: Seq<usize>, pick: nat, j: int)
    requires
        0 <= j,
    ensures
        match pick_position(entries, idxs, pick, j) {
            Some(q) => j <= q < idxs.len(),
            None => true,
        },
    decreases idxs.len() - j,
{
    if j < idxs.len() && !(pick < weight_sum(entries, idxs, j + 1)) {
        lemma_pick_in_range(entries, idxs, pick, j + 1);
    }
}

proof fn lemma_roll_once_fits(pool: LootPool, ctx: LootContext, s: u64, block: bool)
    requires
        pool.entries@.len() <= usize::MAX,
    ensures
        match roll_once(pool, ctx, s, block).0 {
            Some(d) => exists|i: int| 0 <= i < pool.entries@.len() && entry_allows(#[trigger] pool.entries@[i], ctx, block, d),
            None => true,
        },
{
    let entries = pool.entries@;
    let (elig, s1) = eligible_from(entries, 0, ctx, s);
    lemma_eligible_in_range(entries, 0, ctx, s);
    if elig.len() > 0 {
        let fin = if block { preferred(entries, elig, ctx.silk_touch) } else { elig };
        lemma_silk_in_range(entries, elig, 0);
        assert(forall|m: int| 0 <= m < fin.len() ==> #[trigger] fin[m] < entries.len());
        let total = weight_sum(entries, fin, fin.len() as int);
        if total > 0 {
            let pick = (split_out(s1) as nat) % total;
            let s2 = split_state(s1);
            lemma_pick_in_range(entries, fin, pick, 0);
            match pick_position(entries, fin, pick, 0) {
                None => {},
                Some(j) => {
                    let i = fin[j] as int;
                    let e = entries[i];
                    let bonus = if block { ctx.fortune_level } else { ctx.looting_level };
                    let emax = e.max_count.saturating_add(bonus);
                    lemma_range_draw(s2, e.min_count, emax);
                    let (count, _) = range_draw(s2, e.min_count, emax);
                    if count > 0 {
                        assert(entry_allows(pool.entries@[i], ctx, block, (e.item_id, count)));
                    }
                },
            }
        }
    }
}

proof fn lemma_pool_rolls_fit(pools: Seq<LootPool>, p: int, ctx: LootContext, s: u64, n: int, block: bool)
    requires
        0 <= p < pools.len(),
        pools[p].entries@.len() <= usize::MAX,
    ensures
        pool_rolls(pools[p], ctx, s, n, block).0.len() <= if n < 0 { 0 } else { n },
        forall|k: int| 0 <= k < pool_rolls(pools[p], ctx, s, n, block).0.len()
            ==> drop_fits(pools, ctx, block, #[trigger] pool_rolls(pools[p], ctx, s, n, block).0[k]),
    decreases n,
{
    if n > 0 {
        lemma_pool_rolls_fit(pools, p, ctx, s, n - 1, block);
        let (prev, s1) = pool_rolls(pools[p], ctx, s, n - 1, block);
        lemma_roll_once_fits(pools[p], ctx, s1, block);
        let (drop, _) = roll_once(pools[p], ctx, s1, block);
        match drop {
            Some(d) => {
                let i = choose|i: int| 0 <= i < pools[p].entries@.len() && entry_allows(#[trigger] pools[p].entries@[i], ctx, block, d);
                assert(drop_fits(pools, ctx, block, d));
                let out = prev.push(d);
                assert forall|k: int| 0 <= k < out.len() implies drop_fits(pools, ctx, block, #[trigger] out[k]) by {
                    if k < prev.len() {
                        assert(out[k] == prev[k]);
                    }
                }
            },
            None => {},
        }
    }
}

proof fn lemma_table_rolls_fit(pools: Seq<LootPool>, ctx: LootContext, s: u64, k: int, block: bool)
    requires
        k <= pools.len(),
        forall|p: int| 0 <= p < pools.len() ==> (#[trigger] pools[p]).entries@.len() <= usize::MAX,
    ensures
        table_rolls(pools, ctx, s, k, block).0.len() <= total_rolls(pools, k),
        forall|m: int| 0 <= m < table_rolls(pools, ctx, s, k, block).0.len()
            ==> drop_fits(pools, ctx, block, #[trigger] table_rolls(pools, ctx, s, k, block).0[m]),
    decreases k,
{
    if k > 0 {
        lemma_table_rolls_fit(pools, ctx, s, k - 1, block);
        let (prev, s1) = table_rolls(pools, ctx, s, k - 1, block);
        lemma_pool_rolls_fit(pools, k - 1, ctx, s1, pools[k - 1].rolls as int, block);
        let (more, _) = pool_rolls(pools[k - 1], ctx, s1, pools[k - 1].rolls as int, block);
        let out = prev + more;
        assert forall|m: int| 0 <= m < out.len() implies drop_fits(pools, ctx, block, #[trigger] out[m]) by {
            if m < prev.len() {
                assert(out[m] == prev[m]);
            } else {
                assert(out[m] == more[m - prev.len()]);
            }
        }
    }
}

/// What rolling a table can give: at most one drop per roll, and every drop
/// is the item of some entry of the table with a count of at least one,
/// at least the entry's minimum, and at most its maximum raised by the
/// looting (mob loot) or fortune (block loot) level, unless the count is
/// the minimum itself. The same seed always gives the same drops.
pub proof fn lemma_table_drops_bounded(table: LootTable, ctx: LootContext, block: bool)
    requires
        forall|p: int| 0 <= p < table.pools@.len() ==> (#[trigger] table.pools@[p]).entries@.len() <= usize::MAX,
    ensures
        table_drops(table, ctx, block).len() <= total_rolls(table.pools@, table.pools@.len() as int),
        forall|m: int| 0 <= m < table_drops(table, ctx, block).len()
            ==> drop_fits(table.pools@, ctx, block, #[trigger] table_drops(table, ctx, block)[m]),
{
    lemma_table_rolls_fit(table.pools@, ctx, ctx.seed, table.pools@.len() as int, block);
}

/// A pool that drops its one item on every roll: a single entry with
/// positive weight, a minimum count of at least one and only `Always`
/// conditions, rolled at least once.
pub open spec fn sure_pool(pool: LootPool) -> bool {
    &&& pool.entries@.len() == 1
    &&& pool.rolls >= 1
    &&& pool.entries@[0].weight > 0
    &&& pool.entries@[0].min_count >= 1
    &&& forall|j: int| 0 <= j < pool.entries@[0].conditions@.len() ==> #[trigger] pool.entries@[0].conditions@[j] == LootCondition::Always
}

/// `Always` conditions pass without drawing from the stream.
proof fn lemma_always_conditions(conds: Seq<LootCondition>, i: int, ctx: LootContext, s: u64)
    requires
        0 <= i,
        forall|j: int| 0 <= j < conds.len() ==> #[trigger] conds[j] == LootCondition::Always,
    ensures
        conditions_from(conds, i, ctx, s) == (true, s),
    decreases conds.len() - i,
{
    if i < conds.len() {
        lemma_always_conditions(conds, i + 1, ctx, s);
    }
}

/// Every roll of a sure pool drops its item with a positive count.
proof fn lemma_sure_roll(pool: LootPool, ctx: LootContext, s: u64, block: bool)
    requires
        sure_pool(pool),
    ensures
        roll_once(pool, ctx, s, block).0 matches Some(d) && d.0 == pool.entries@[0].item_id && d.1 >= 1,
{
    let entries = pool.entries@;
    let e = entries[0];
    lemma_always_conditions(e.conditions@, 0, ctx, s);
    assert(eligible_from(entries, 1, ctx, s) == (Seq::<usize>::empty(), s));
    let elig = eligible_from(entries, 0, ctx, s).0;
    assert(elig =~= seq![0usize]);
    if block && ctx.silk_touch {
        assert(!has_silk(e));
        assert(silk_from(entries, elig, 1) == Seq::<usize>::empty());
        assert(silk_from(entries, elig, 0) =~= Seq::<usize>::empty());
    }
    let fin = if block { preferred(entries, elig, ctx.silk_touch) } else { elig };
    assert(fin =~= seq![0usize]);
    assert(weight_sum(entries, fin, 0) == 0);
    assert(weight_sum(entries, fin, 1) == e.weight);
    let pick = (split_out(s) as nat) % (e.weight as nat);
    assert(pick_position(entries, fin, pick, 0) == Some(0int));
    let bonus = if block { ctx.fortune_level } else { ctx.looting_level };
    let emax = e.max_count.saturating_add(bonus);
    lemma_range_draw(split_state(s), e.min_count, emax);
}

/// A sure pool rolled `n` times drops its item `n` times.
proof fn lemma_sure_pool_rolls(pool: LootPool, ctx: LootContext, s: u64, n: int, block: bool)
    requires
        sure_pool(pool),
        n >= 0,
    ensures
        pool_rolls(pool, ctx, s, n, block).0.len() == n,
        forall|m: int| 0 <= m < n ==> (#[trigger] pool_rolls(pool, ctx, s, n, block).0[m]).0 == pool.entries@[0].item_id,
    decreases n,
{
    if n > 0 {
        lemma_sure_pool_rolls(pool, ctx, s, n - 1, block);
        let (prev, s1) = pool_rolls(pool, ctx, s, n - 1, block);
        lemma_sure_roll(pool, ctx, s1, block);
        assert forall|m: int| 0 <= m < n implies (#[trigger] pool_rolls(pool, ctx, s, n, block).0[m]).0
            == pool.entries@[0].item_id by {
            if m < n - 1 {
                assert(pool_rolls(pool, ctx, s, n, block).0[m] == prev[m]);
            }
        }
    }
}

/// With a sure first pool, the first `k >= 1` pools drop at least once and
/// the first drop is that pool's item.
proof fn lemma_sure_first_pool_rolls(pools: Seq<LootPool>, ctx: LootContext, s: u64, k: int, block: bool)
    requires
        1 <= k <= pools.len(),
        sure_pool(pools[0]),
    ensures
        table_rolls(pools, ctx, s, k, block).0.len() >= 1,
        table_rolls(pools, ctx, s, k, block).0[0].0 == pools[0].entries@[0].item_id,
    decreases k,
{
    if k == 1 {
        lemma_sure_pool_rolls(pools[0], ctx, s, pools[0].rolls as int, block);
        let more = pool_rolls(pools[0], ctx, s, pools[0].rolls as int, block).0;
        assert(table_rolls(pools, ctx, s, 0, block).0 == Seq::<(u16, u8)>::empty());
        assert(table_rolls(pools, ctx, s, 1, block).0 =~= more);
    } else {
        lemma_sure_first_pool_rolls(pools, ctx, s, k - 1, block);
        let prev = table_rolls(pools, ctx, s, k - 1, block).0;
        assert(table_rolls(pools, ctx, s, k, block).0[0] == prev[0]);
    }
}

/// A table whose first pool is sure always drops something, and its first
/// drop is that pool's item, whatever the seed.
pub proof fn lemma_sure_first_pool_drops_first(table: LootTable, ctx: LootContext, block: bool)
    requires
        table.pools@.len() >= 1,
        sure_pool(table.pools@[0]),
    ensures
        table_drops(table, ctx, block).len() >= 1,
        table_drops(table, ctx, block)[0].0 == table.pools@[0].entries@[0].item_id,
{
    lemma_sure_first_pool_rolls(table.pools@, ctx, ctx.seed, table.pools@.len() as int, block);
}

// ---------------------------------------------------------------------------
// Plain views of tables, for stating table contents
// ---------------------------------------------------------------------------

/// An entry as plain values: item, min count, max count, weight, conditions.
pub open spec fn entry_view(e: LootEntry) -> (u16, u8, u8, u32, Seq<LootCondition>) {
    (e.item_id, e.min_count, e.max_count, e.weight, e.conditions@)
}

/// A pool as plain values: its entries and its number of rolls.
pub open spec fn pool_view(p: LootPool) -> (Seq<(u16, u8, u8, u32, Seq<LootCondition>)>, u8) {
    (p.entries@.map_values(|e: LootEntry| entry_view(e)), p.rolls)
}

/// A table as plain values: its pools in order.
pub open spec fn table_view(t: LootTable) -> Seq<(Seq<(u16, u8, u8, u32, Seq<LootCondition>)>, u8)> {
    t.pools@.map_values(|p: LootPool| pool_view(p))
}

/// Probability 0.1 (as an `f32`) scaled by 2^24 and rounded up.
pub const CHANCE_ONE_TENTH: u32 = 1_677_722;

/// Probability 0.05 (as an `f32`) scaled by 2^24 and rounded up.
pub const CHANCE_ONE_TWENTIETH: u32 = 838_861;

/// Probability 0.33 (as an `f32`) scaled by 2^24 and rounded up.
pub const CHANCE_ONE_THIRD: u32 = 5_536_482;

/// Build an entry.
pub fn loot_entry(item_id: u16, min_count: u8, max_count: u8, weight: u32, conditions: Vec<LootCondition>) -> (e: LootEntry)
    ensures
        entry_view(e) == (item_id, min_count, max_count, weight, conditions@),
{
    LootEntry { item_id, min_count, max_count, weight, conditions }
}

/// A pool rolled once with the given entries.
pub fn single_roll_pool(entries: Vec<LootEntry>) -> (p: LootPool)
    ensures
        p.entries@ == entries@,
        p.rolls == 1,
{
    LootPool { entries, rolls: 1 }
}

// ---------------------------------------------------------------------------
// Rolling
// ---------------------------------------------------------------------------

/// Indices of the eligible entries of a pool, in order.
fn eligible_indices(entries: &Vec<LootEntry>, ctx: &LootContext, rng_state: &mut u64) -> (idxs: Vec<usize>)
    ensures
        (idxs@, *final(rng_state)) == eligible_from(entries@, 0, *ctx, *old(rng_state)),
        forall|k: int| 0 <= k < idxs@.len() ==> idxs@[k] < entries@.len(),
{
    let mut idxs: Vec<usize> = Vec::new();
    let mut i: usize = 0;
    while i < entries.len()
        invariant
            i <= entries.len(),
            eligible_from(entries@, 0, *ctx, *old(rng_state))
                == (idxs@ + eligible_from(entries@, i as int, *ctx, *rng_state).0,
                    eligible_from(entries@, i as int, *ctx, *rng_state).1),
            forall|k: int| 0 <= k < idxs@.len() ==> idxs@[k] < i,
        decreases entries.len() - i,
    {
        let ghost s0 = *rng_state;
        let pass = check_conditions(&entries[i].conditions, ctx, rng_state);
        proof {
            let (rest, fin) = eligible_from(entries@, i + 1, *ctx, *rng_state);
            assert(eligible_from(entries@, i as int, *ctx, s0)
                == (if pass { seq![i] + rest } else { rest }, fin));
            if pass {
                assert(idxs@.push(i) + rest =~= idxs@ + (seq![i] + rest));
            }
        }
        if pass {
            idxs.push(i);
        }
        i = i + 1;
    }
    proof {
        assert(idxs@ + Seq::<usize>::empty() =~= idxs@);
    }
    idxs
}

/// Whether an entry carries a `SilkTouch` condition.
fn entry_has_silk(e: &LootEntry) -> (b: bool)
    ensures
        b == has_silk(*e),
{
    let mut j: usize = 0;
    while j < e.conditions.len()
        invariant
            j <= e.conditions.len(),
            forall|k: int| 0 <= k < j ==> e.conditions@[k] != LootCondition::SilkTouch,
        decreases e.conditions.len() - j,
    {
        if e.conditions[j] == LootCondition::SilkTouch {
            return true;
        }
        j = j + 1;
    }
    false
}

/// When silk touch is active, keep only the silk-touch-conditioned entries
/// (if any exist), so that `Always` entries do not compete with
/// silk-touch-specific drops.
fn prefer_silk_touch_entries(entries: &Vec<LootEntry>, eligible: &Vec<usize>, silk_touch: bool) -> (fin: Vec<usize>)
    requires
        forall|k: int| 0 <= k < eligible@.len() ==> eligible@[k] < entries@.len(),
    ensures
        fin@ == preferred(entries@, eligible@, silk_touch),
        forall|k: int| 0 <= k < fin@.len() ==> fin@[k] < entries@.len(),
{
    if !silk_touch {
        return eligible.clone();
    }
    let mut silk: Vec<usize> = Vec::new();
    let mut k: usize = eligible.len();
    while k > 0
        invariant
            k <= eligible.len(),
            silk@ == silk_from(entries@, eligible@, k as int),
            forall|m: int| 0 <= m < silk@.len() ==> silk@[m] < entries@.len(),
            forall|m: int| 0 <= m < eligible@.len() ==> eligible@[m] < entries@.len(),
        decreases k,
    {
        k = k - 1;
        if entry_has_silk(&entries[eligible[k]]) {
            let mut one: Vec<usize> = Vec::new();
            one.push(eligible[k]);
            one.append(&mut silk);
            silk = one;
        }
    }
    if silk.len() == 0 {
        eligible.clone()
    } else {
        silk
    }
}

/// The pick of one weighted roll among `fin`: the first position whose
/// running weight total exceeds `pick`.
fn pick_entry(entries: &Vec<LootEntry>, fin: &Vec<usize>, pick: u128) -> (r: Option<usize>)
    requires
        forall|k: int| 0 <= k < fin@.len() ==> fin@[k] < entries@.len(),
        fin@.len() <= usize::MAX,
    ensures
        match r {
            Some(j) => pick_position(entries@, fin@, pick as nat, 0) == Some(j as int),
            None => pick_position(entries@, fin@, pick as nat, 0) is None,
        },
        r matches Some(j) ==> j < fin@.len(),
{
    let mut cumulative: u128 = 0;
    let mut j: usize = 0;
    while j < fin.len()
        invariant
            j <= fin.len(),
            cumulative == weight_sum(entries@, fin@, j as int),
            cumulative <= j * 0x1_0000_0000,
            forall|k: int| 0 <= k < fin@.len() ==> fin@[k] < entries@.len(),
            pick_position(entries@, fin@, pick as nat, 0) == pick_position(entries@, fin@, pick as nat, j as int),
        decreases fin.len() - j,
    {
        cumulative = cumulative + entries[fin[j]].weight as u128;
        if pick < cumulative {
            return Some(j);
        }
        j = j + 1;
    }
    None
}

/// Sum of the weights of the entries at the indices `fin`.
fn total_weight(entries: &Vec<LootEntry>, fin: &Vec<usize>) -> (t: u128)
    requires
        forall|k: int| 0 <= k < fin@.len() ==> fin@[k] < entries@.len(),
    ensures
        t == weight_sum(entries@, fin@, fin@.len() as int),
{
    let mut total: u128 = 0;
    let mut j: usize = 0;
    while j < fin.len()
        invariant
            j <= fin.len(),
            total == weight_sum(entries@, fin@, j as int),
            total <= j * 0x1_0000_0000,
            forall|k: int| 0 <= k < fin@.len() ==> fin@[k] < entries@.len(),
        decreases fin.len() - j,
    {
        total = total + entries[fin[j]].weight as u128;
        j = j + 1;
    }
    total
}

/// One roll of a pool.
fn roll_pool_once(pool: &LootPool, ctx: &LootContext, rng_state: &mut u64, block: bool) -> (drop: Option<(u16, u8)>)
    ensures
        (drop, *final(rng_state)) == roll_once(*pool, *ctx, *old(rng_state), block),
{
    let entries = &pool.entries;
    let eligible = eligible_indices(entries, ctx, rng_state);
    if eligible.len() == 0 {
        return None;
    }
    let fin = if block {
        prefer_silk_touch_entries(entries, &eligible, ctx.silk_touch)
    } else {
        eligible
    };
    let total = total_weight(entries, &fin);
    if total == 0 {
        return None;
    }
    let ghost s1 = *rng_state;
    let out = splitmix(rng_state);
    let pick = (out as u128) % total;
    assert(pick as nat == (split_out(s1) as nat) % (total as nat));
    let ghost elig_spec = eligible_from(entries@, 0, *ctx, *old(rng_state));
    assert(fin@ == (if block { preferred(entries@, elig_spec.0, ctx.silk_touch) } else { elig_spec.0 }));
    // A vector's length is a `usize`.
    let _len = fin.len();
    match pick_entry(entries, &fin, pick) {
        None => None,
        Some(j) => {
            let e = &entries[fin[j]];
            let bonus = if block { ctx.fortune_level } else { ctx.looting_level };
            let effective_max = e.max_count.saturating_add(bonus);
            let ghost s2 = *rng_state;
            let count = rand_range_u8(rng_state, e.min_count, effective_max);
            assert(s2 == split_state(s1));
            assert(pick_position(entries@, fin@, pick as nat, 0) == Some(j as int));
            assert(*e == entries@[fin@[j as int] as int]);
            assert(effective_max == e.max_count.saturating_add(bonus));
            if count > 0 {
                Some((e.item_id, count))
            } else {
                None
            }
        },
    }
}

impl LootTable {
    /// Rolls every pool of the table in order, `rolls` times each.
    fn roll_with(&self, ctx: &LootContext, block: bool) -> (results: Vec<(u16, u8)>)
        ensures
            results@ == table_drops(*self, *ctx, block),
    {
        let mut results: Vec<(u16, u8)> = Vec::new();
        let mut rng_state = ctx.seed;
        let mut p: usize = 0;
        while p < self.pools.len()
            invariant
                p <= self.pools.len(),
                (results@, rng_state) == table_rolls(self.pools@, *ctx, ctx.seed, p as int, block),
            decreases self.pools.len() - p,
        {
            let pool = &self.pools[p];
            let ghost before = results@;
            let ghost s_pool = rng_state;
            let mut r: u8 = 0;
            while r < pool.rolls
                invariant
                    r <= pool.rolls,
                    pool == self.pools@[p as int],
                    (results@, rng_state) == ({
                        let (more, s) = pool_rolls(*pool, *ctx, s_pool, r as int, block);
                        (before + more, s)
                    }),
                decreases pool.rolls - r,
            {
                let ghost s_r = rng_state;
                let drop = roll_pool_once(pool, ctx, &mut rng_state, block);
                proof {
                    let (more, _) = pool_rolls(*pool, *ctx, s_pool, r as int, block);
                    if let Some(d) = drop {
                        assert(before + more.push(d) =~= (before + more).push(d));
                    }
                }
                match drop {
                    Some(d) => results.push(d),
                    None => {},
                }
                r = r + 1;
            }
            p = p + 1;
        }
        results
    }

    /// Roll the loot table and return a list of `(item_id, count)` drops.
    ///
    /// Looting extends each entry's `max_count` by the looting level.
    pub fn roll(&self, ctx: &LootContext) -> (drops: Vec<(u16, u8)>)
        ensures
            drops@ == table_drops(*self, *ctx, false),
    {
        self.roll_with(ctx, false)
    }

    /// Roll a block loot table with fortune support.
    ///
    /// Fortune extends each entry's `max_count` by the fortune level, and
    /// with silk touch the silk-touch-conditioned eligible entries, if any,
    /// are preferred over the others.
    pub fn roll_block(&self, ctx: &LootContext) -> (drops: Vec<(u16, u8)>)
        ensures
            drops@ == table_drops(*self, *ctx, true),
    {
        self.roll_with(ctx, true)
    }
}

} // verus!
