//! A* search over 6-connected block positions.
//!
//! The search expands the open node with the lowest `g + h`, where `g` is
//! the number of steps from the start and `h` the Manhattan distance to the
//! goal. A found path starts at the start, ends at the goal and moves one
//! block along one axis per step through positions the caller reports as
//! walkable; since the heuristic never overestimates, it is a shortest
//! such path. When the iteration budget runs out the search is cut off and
//! the path to the node closest to the goal is returned instead, with
//! `found == false`; otherwise a goal that can be reached is found.
use vstd::prelude::*;
use crate::block::BlockPos;

verus! {

/// Result of an A* pathfinding search.
#[derive(Debug, Clone)]
pub struct AStarResult {
    pub path: Vec<BlockPos>,
    pub found: bool,
    /// Whether the search stopped because it ran out of iterations.
    pub cut_off: bool,
}

/// Manhattan distance between two positions.
pub open spec fn manhattan(a: BlockPos, b: BlockPos) -> int {
    (if a.x >= b.x { a.x - b.x } else { b.x - a.x })
        + (if a.y >= b.y { a.y - b.y } else { b.y - a.y })
        + (if a.z >= b.z { a.z - b.z } else { b.z - a.z })
}

/// Whether `b` is one of the six neighbours of `a`.
pub open spec fn is_step(a: BlockPos, b: BlockPos) -> bool {
    manhattan(a, b) == 1
}

/// Whether the walkability check can report `p` as walkable.
pub open spec fn reported_walkable<F: Fn(BlockPos) -> bool>(is_walkable: F, p: BlockPos) -> bool {
    call_ensures(is_walkable, (p,), true)
}

/// A walk from `start`: nonempty, beginning at `start`, each step to a
/// neighbour that the walkability check reported as walkable.
pub open spec fn is_walk_from<F: Fn(BlockPos) -> bool>(path: Seq<BlockPos>, start: BlockPos, is_walkable: F) -> bool {
    &&& path.len() > 0
    &&& path[0] == start
    &&& forall|i: int| 1 <= i < path.len() ==> is_step(#[trigger] path[i - 1], path[i])
    &&& forall|i: int| 1 <= i < path.len() ==> reported_walkable(is_walkable, #[trigger] path[i])
}

/// Every answer the walkability check can give for `p` is "walkable".
pub open spec fn surely_walkable<F: Fn(BlockPos) -> bool>(is_walkable: F, p: BlockPos) -> bool {
    forall|b: bool| call_ensures(is_walkable, (p,), b) ==> b
}

/// A walk from `start` through positions that the walkability check
/// always reports walkable.
pub open spec fn sure_walk<F: Fn(BlockPos) -> bool>(is_walkable: F, w: Seq<BlockPos>, start: BlockPos) -> bool {
    &&& w.len() > 0
    &&& w[0] == start
    &&& forall|i: int| 1 <= i < w.len() ==> is_step(w[i - 1], #[trigger] w[i])
    &&& forall|i: int| 1 <= i < w.len() ==> surely_walkable(is_walkable, #[trigger] w[i])
}

/// Some node stands at `p` with a cost of at most `b`.
spec fn has_node(nodes: Seq<SearchNode>, p: BlockPos, b: int) -> bool {
    exists|k: int| 0 <= k < nodes.len() && (#[trigger] nodes[k]).pos == p && nodes[k].g <= b
}

/// Node `k` has an open entry whose cost estimate is its cost plus the
/// heuristic.
spec fn queued(nodes: Seq<SearchNode>, open: Seq<(usize, i64)>, goal: BlockPos, k: int) -> bool {
    exists|j: int|
        0 <= j < open.len() && (#[trigger] open[j]).0 == k && open[j].1 <= nodes[k].g + manhattan(nodes[k].pos, goal)
}

/// Every neighbour of node `k` in a direction below `d` that is surely
/// walkable has a node costing at most one more than `k`.
#[verifier::opaque]
spec fn covered_upto<F: Fn(BlockPos) -> bool>(nodes: Seq<SearchNode>, is_walkable: F, k: int, d: int) -> bool {
    forall|n: BlockPos|
        #[trigger] is_step(nodes[k].pos, n) && surely_walkable(is_walkable, n) && direction_index(nodes[k].pos, n) < d
            ==> has_node(nodes, n, nodes[k].g + 1)
}

/// Node `k` still waits in the open list, or it was expanded (and is not
/// the goal).
#[verifier::opaque]
spec fn settled<F: Fn(BlockPos) -> bool>(
    nodes: Seq<SearchNode>,
    open: Seq<(usize, i64)>,
    is_walkable: F,
    goal: BlockPos,
    k: int,
) -> bool {
    queued(nodes, open, goal, k) || (covered_upto(nodes, is_walkable, k, 6) && nodes[k].pos != goal)
}

/// Positions stay and costs only drop as the search goes on.
spec fn grows(old_nodes: Seq<SearchNode>, nodes: Seq<SearchNode>) -> bool {
    &&& old_nodes.len() <= nodes.len()
    &&& forall|i: int| 0 <= i < old_nodes.len() ==> (#[trigger] nodes[i]).pos == old_nodes[i].pos && nodes[i].g
        <= old_nodes[i].g
}

proof fn lemma_has_node_grows(old_nodes: Seq<SearchNode>, nodes: Seq<SearchNode>, p: BlockPos, b: int)
    requires
        grows(old_nodes, nodes),
        has_node(old_nodes, p, b),
    ensures
        has_node(nodes, p, b),
{
    let k = choose|k: int| 0 <= k < old_nodes.len() && (#[trigger] old_nodes[k]).pos == p && old_nodes[k].g <= b;
    assert(nodes[k].pos == p && nodes[k].g <= b);
}

/// Covering survives growth for a node that did not change.
proof fn lemma_covered_grows<F: Fn(BlockPos) -> bool>(
    old_nodes: Seq<SearchNode>,
    nodes: Seq<SearchNode>,
    f: F,
    k: int,
    d: int,
)
    requires
        grows(old_nodes, nodes),
        0 <= k < old_nodes.len(),
        nodes[k] == old_nodes[k],
        covered_upto(old_nodes, f, k, d),
    ensures
        covered_upto(nodes, f, k, d),
{
    reveal(covered_upto);
    assert forall|n: BlockPos|
        #[trigger] is_step(nodes[k].pos, n) && surely_walkable(f, n) && direction_index(nodes[k].pos, n) < d
            implies has_node(nodes, n, nodes[k].g + 1) by {
        lemma_has_node_grows(old_nodes, nodes, n, nodes[k].g + 1);
    }
}

/// Settledness of an unchanged node survives growth of the nodes and of
/// the open list.
proof fn lemma_settled_grows<F: Fn(BlockPos) -> bool>(
    old_nodes: Seq<SearchNode>,
    nodes: Seq<SearchNode>,
    old_open: Seq<(usize, i64)>,
    open: Seq<(usize, i64)>,
    f: F,
    goal: BlockPos,
    k: int,
)
    requires
        grows(old_nodes, nodes),
        0 <= k < old_nodes.len(),
        nodes[k] == old_nodes[k],
        old_open.len() <= open.len(),
        forall|j: int| 0 <= j < old_open.len() ==> #[trigger] open[j] == old_open[j],
        settled(old_nodes, old_open, f, goal, k),
    ensures
        settled(nodes, open, f, goal, k),
{
    reveal(settled);
    if queued(old_nodes, old_open, goal, k) {
        let j = choose|j: int|
            0 <= j < old_open.len() && (#[trigger] old_open[j]).0 == k && old_open[j].1 <= old_nodes[k].g + manhattan(
                old_nodes[k].pos,
                goal,
            );
        assert(open[j] == old_open[j]);
    } else {
        lemma_covered_grows(old_nodes, nodes, f, k, 6);
    }
}

/// One step changes the Manhattan distance to a point by at most one.
proof fn lemma_manhattan_step(a: BlockPos, b: BlockPos, g: BlockPos)
    requires
        is_step(a, b),
    ensures
        manhattan(a, g) <= manhattan(b, g) + 1,
{
}

/// Along a walk, the Manhattan distance from its `j`-th position to its
/// end is at most the number of steps left.
proof fn lemma_walk_manhattan<F: Fn(BlockPos) -> bool>(f: F, w: Seq<BlockPos>, start: BlockPos, j: int)
    requires
        sure_walk(f, w, start),
        0 <= j < w.len(),
    ensures
        manhattan(w[j], w[w.len() - 1]) <= w.len() - 1 - j,
    decreases w.len() - j,
{
    if j < w.len() - 1 {
        lemma_walk_manhattan(f, w, start, j + 1);
        assert(is_step(w[j], w[j + 1]));
        lemma_manhattan_step(w[j], w[j + 1], w[w.len() - 1]);
    }
}

/// While the search runs, a walk to the goal of `w.len() - 1` steps keeps
/// an open entry whose estimate is at most that many steps: follow the walk
/// from a node reached within `j` steps of cost to the first one that waits
/// in the open list.
proof fn lemma_open_below_walk<F: Fn(BlockPos) -> bool>(
    nodes: Seq<SearchNode>,
    open: Seq<(usize, i64)>,
    f: F,
    start: BlockPos,
    goal: BlockPos,
    w: Seq<BlockPos>,
    j: int,
)
    requires
        sure_walk(f, w, start),
        w[w.len() - 1] == goal,
        0 <= j < w.len(),
        has_node(nodes, w[j], j),
        forall|k: int| 0 <= k < nodes.len() ==> #[trigger] settled(nodes, open, f, goal, k),
    ensures
        exists|i: int| 0 <= i < open.len() && (#[trigger] open[i]).1 <= w.len() - 1,
    decreases w.len() - j,
{
    reveal(settled);
    reveal(covered_upto);
    let k = choose|k: int| 0 <= k < nodes.len() && (#[trigger] nodes[k]).pos == w[j] && nodes[k].g <= j;
    assert(settled(nodes, open, f, goal, k));
    lemma_walk_manhattan(f, w, start, j);
    if queued(nodes, open, goal, k) {
        let i = choose|i: int|
            0 <= i < open.len() && (#[trigger] open[i]).0 == k && open[i].1 <= nodes[k].g + manhattan(nodes[k].pos, goal);
        assert(open[i].1 <= w.len() - 1);
    } else {
        assert(j < w.len() - 1);
        assert(is_step(w[j], w[j + 1]));
        assert(surely_walkable(f, w[j + 1]));
        assert(is_step(nodes[k].pos, w[j + 1]));
        lemma_open_below_walk(nodes, open, f, start, goal, w, j + 1);
    }
}

/// The index, in the search's neighbour order (+x, -x, +z, -z, +y, -y),
/// of the direction from `a` to its neighbour `b`.
spec fn direction_index(a: BlockPos, b: BlockPos) -> int {
    if b.x == a.x + 1 {
        0
    } else if b.x == a.x - 1 {
        1
    } else if b.z == a.z + 1 {
        2
    } else if b.z == a.z - 1 {
        3
    } else if b.y == a.y + 1 {
        4
    } else {
        5
    }
}

/// The x offset of direction `d` in the search's neighbour order.
spec fn dir_dx(d: int) -> int {
    if d == 0 {
        1
    } else if d == 1 {
        -1
    } else {
        0
    }
}

/// The y offset of direction `d` in the search's neighbour order.
spec fn dir_dy(d: int) -> int {
    if d == 4 {
        1
    } else if d == 5 {
        -1
    } else {
        0
    }
}

/// The z offset of direction `d` in the search's neighbour order.
spec fn dir_dz(d: int) -> int {
    if d == 2 {
        1
    } else if d == 3 {
        -1
    } else {
        0
    }
}

/// A neighbour is its origin moved by the offset of its direction.
proof fn lemma_direction_offset(a: BlockPos, n: BlockPos)
    requires
        is_step(a, n),
    ensures
        0 <= direction_index(a, n) < 6,
        n.x == a.x + dir_dx(direction_index(a, n)),
        n.y == a.y + dir_dy(direction_index(a, n)),
        n.z == a.z + dir_dz(direction_index(a, n)),
{
}

/// Covering of node `k` extends past direction `dd` when `cand` is the only
/// neighbour in that direction (or `None` when there is none) and, if it
/// is surely walkable, has a node costing at most one more than `k`.
proof fn lemma_cover_next<F: Fn(BlockPos) -> bool>(
    nodes: Seq<SearchNode>,
    f: F,
    k: int,
    dd: int,
    cand: Option<BlockPos>,
)
    requires
        0 <= k < nodes.len(),
        covered_upto(nodes, f, k, dd),
        forall|n: BlockPos|
            #[trigger] is_step(nodes[k].pos, n) && direction_index(nodes[k].pos, n) == dd ==> cand == Some(n),
        cand is Some && surely_walkable(f, cand.unwrap()) ==> has_node(nodes, cand.unwrap(), nodes[k].g + 1),
    ensures
        covered_upto(nodes, f, k, dd + 1),
{
    reveal(covered_upto);
    assert forall|n: BlockPos|
        #[trigger] is_step(nodes[k].pos, n) && surely_walkable(f, n) && direction_index(nodes[k].pos, n) < dd + 1
            implies has_node(nodes, n, nodes[k].g + 1) by {
        if direction_index(nodes[k].pos, n) == dd {
            assert(cand == Some(n));
        }
    }
}

/// Removing the popped entry leaves every other node settled.
proof fn lemma_settled_after_pop<F: Fn(BlockPos) -> bool>(
    nodes: Seq<SearchNode>,
    old_open: Seq<(usize, i64)>,
    open: Seq<(usize, i64)>,
    f: F,
    goal: BlockPos,
    m: int,
)
    requires
        0 <= m < old_open.len(),
        open == old_open.remove(m),
        forall|k: int| 0 <= k < nodes.len() ==> #[trigger] settled(nodes, old_open, f, goal, k),
    ensures
        forall|k: int|
            0 <= k < nodes.len() && k != old_open[m].0 ==> #[trigger] settled(nodes, open, f, goal, k),
{
    reveal(settled);
    assert forall|k: int| 0 <= k < nodes.len() && k != old_open[m].0 implies #[trigger] settled(
        nodes,
        open,
        f,
        goal,
        k,
    ) by {
        assert(settled(nodes, old_open, f, goal, k));
        if queued(nodes, old_open, goal, k) {
            let j = choose|j: int|
                0 <= j < old_open.len() && (#[trigger] old_open[j]).0 == k && old_open[j].1 <= nodes[k].g
                    + manhattan(nodes[k].pos, goal);
            assert(j != m);
            let j2 = if j < m {
                j
            } else {
                j - 1
            };
            assert(open[j2] == old_open[j]);
        }
    }
}

/// The entry with the lowest estimate never exceeds the length of any
/// walk to the goal through surely walkable positions.
proof fn lemma_min_below_walks<F: Fn(BlockPos) -> bool>(
    nodes: Seq<SearchNode>,
    open: Seq<(usize, i64)>,
    f: F,
    start: BlockPos,
    goal: BlockPos,
    m: int,
)
    requires
        0 <= m < open.len(),
        forall|i: int| 0 <= i < open.len() ==> open[m].1 <= (#[trigger] open[i]).1,
        nodes.len() > 0,
        nodes[0].pos == start,
        nodes[0].g == 0,
        forall|k: int| 0 <= k < nodes.len() ==> #[trigger] settled(nodes, open, f, goal, k),
    ensures
        forall|w: Seq<BlockPos>|
            #[trigger] sure_walk(f, w, start) && w.last() == goal ==> open[m].1 <= w.len() - 1,
{
    assert forall|w: Seq<BlockPos>| #[trigger] sure_walk(f, w, start) && w.last() == goal implies open[m].1
        <= w.len() - 1 by {
        assert(has_node(nodes, w[0], 0)) by {
            assert(nodes[0].pos == w[0]);
        }
        lemma_open_below_walk(nodes, open, f, start, goal, w, 0);
        let i = choose|i: int| 0 <= i < open.len() && (#[trigger] open[i]).1 <= w.len() - 1;
        assert(open[m].1 <= open[i].1);
    }
}

/// With an empty open list and every node settled, no walk to the goal
/// through surely walkable positions exists.
proof fn lemma_no_walk_when_exhausted<F: Fn(BlockPos) -> bool>(
    nodes: Seq<SearchNode>,
    open: Seq<(usize, i64)>,
    f: F,
    start: BlockPos,
    goal: BlockPos,
)
    requires
        open.len() == 0,
        nodes.len() > 0,
        nodes[0].pos == start,
        nodes[0].g == 0,
        forall|k: int| 0 <= k < nodes.len() ==> #[trigger] settled(nodes, open, f, goal, k),
    ensures
        forall|w: Seq<BlockPos>| #[trigger] sure_walk(f, w, start) ==> w.last() != goal,
{
    assert forall|w: Seq<BlockPos>| #[trigger] sure_walk(f, w, start) implies w.last() != goal by {
        if w.last() == goal {
            assert(has_node(nodes, w[0], 0)) by {
                assert(nodes[0].pos == w[0]);
            }
            lemma_open_below_walk(nodes, open, f, start, goal, w, 0);
        }
    }
}

/// Recording a node and pushing its entry keeps every node but the one
/// being expanded settled, and keeps each entry's estimate at least its
/// node's cost plus the heuristic.
proof fn lemma_after_record<F: Fn(BlockPos) -> bool>(
    old_nodes: Seq<SearchNode>,
    nodes: Seq<SearchNode>,
    old_open: Seq<(usize, i64)>,
    open: Seq<(usize, i64)>,
    f: F,
    goal: BlockPos,
    cur: int,
    idx: int,
)
    requires
        old_nodes.len() <= nodes.len() <= old_nodes.len() + 1,
        0 <= idx < nodes.len(),
        nodes.len() == old_nodes.len() + 1 ==> idx == old_nodes.len(),
        idx < old_nodes.len() ==> nodes[idx].g <= old_nodes[idx].g,
        forall|i: int| 0 <= i < old_nodes.len() ==> (#[trigger] nodes[i]).pos == old_nodes[i].pos,
        forall|i: int| 0 <= i < old_nodes.len() && i != idx ==> #[trigger] nodes[i] == old_nodes[i],
        open.len() == old_open.len() + 1,
        forall|j: int| 0 <= j < old_open.len() ==> #[trigger] open[j] == old_open[j],
        open[old_open.len() as int].0 == idx,
        open[old_open.len() as int].1 == nodes[idx].g + manhattan(nodes[idx].pos, goal),
        forall|j: int| 0 <= j < old_open.len() ==> (#[trigger] old_open[j]).0 < old_nodes.len(),
        forall|j: int|
            0 <= j < old_open.len() ==> (#[trigger] old_open[j]).1 >= old_nodes[old_open[j].0 as int].g
                + manhattan(old_nodes[old_open[j].0 as int].pos, goal),
        forall|k: int|
            0 <= k < old_nodes.len() && k != cur ==> #[trigger] settled(old_nodes, old_open, f, goal, k),
    ensures
        grows(old_nodes, nodes),
        forall|k: int| 0 <= k < nodes.len() && k != cur ==> #[trigger] settled(nodes, open, f, goal, k),
        forall|j: int|
            0 <= j < open.len() ==> (#[trigger] open[j]).1 >= nodes[open[j].0 as int].g + manhattan(
                nodes[open[j].0 as int].pos,
                goal,
            ),
{
    reveal(settled);
    assert(grows(old_nodes, nodes)) by {
        assert forall|i: int| 0 <= i < old_nodes.len() implies (#[trigger] nodes[i]).pos == old_nodes[i].pos
            && nodes[i].g <= old_nodes[i].g by {
            if i != idx {
                assert(nodes[i] == old_nodes[i]);
            }
        }
    }
    assert forall|k: int| 0 <= k < nodes.len() && k != cur implies #[trigger] settled(nodes, open, f, goal, k) by {
        if k == idx {
            let j = old_open.len() as int;
            assert(open[j].0 == k);
            assert(queued(nodes, open, goal, k));
        } else {
            assert(nodes[k] == old_nodes[k]);
            lemma_settled_grows(old_nodes, nodes, old_open, open, f, goal, k);
        }
    }
    assert forall|j: int| 0 <= j < open.len() implies (#[trigger] open[j]).1 >= nodes[open[j].0 as int].g
        + manhattan(nodes[open[j].0 as int].pos, goal) by {
        if j < old_open.len() {
            assert(open[j] == old_open[j]);
            let e = old_open[j].0 as int;
            assert(nodes[e].pos == old_nodes[e].pos);
            if e != idx {
                assert(nodes[e] == old_nodes[e]);
            }
        }
    }
}

/// `w` is a duplicate-free walk of `g` steps from `start` through
/// positions the check reported walkable, ending at `p`.
pub open spec fn simple_walk_to<F: Fn(BlockPos) -> bool>(
    f: F,
    start: BlockPos,
    p: BlockPos,
    g: int,
    w: Seq<BlockPos>,
) -> bool {
    &&& is_walk_from(w, start, f)
    &&& w.no_duplicates()
    &&& w.len() == g + 1
    &&& w.last() == p
}

/// Some duplicate-free walk of `g` steps from `start` through positions the
/// check reported walkable ends at `p`.
pub open spec fn walked<F: Fn(BlockPos) -> bool>(f: F, start: BlockPos, p: BlockPos, g: int) -> bool {
    exists|w: Seq<BlockPos>| #[trigger] simple_walk_to(f, start, p, g, w)
}

/// Node `k` was reached along a duplicate-free walk of exactly its cost,
/// each of whose positions has a node costing at most its place on the walk.
spec fn traced<F: Fn(BlockPos) -> bool>(nodes: Seq<SearchNode>, f: F, start: BlockPos, k: int) -> bool {
    exists|w: Seq<BlockPos>|
        #[trigger] simple_walk_to(f, start, nodes[k].pos, nodes[k].g as int, w) && forall|i: int|
            0 <= i < w.len() ==> has_node(nodes, #[trigger] w[i], i)
}

/// An open entry's position and the cost it was queued with.
spec fn entry_key(nodes: Seq<SearchNode>, goal: BlockPos, e: (usize, i64)) -> (BlockPos, int) {
    (nodes[e.0 as int].pos, e.1 - manhattan(nodes[e.0 as int].pos, goal))
}

/// The search's history: node positions are distinct, every node was
/// reached along a duplicate-free walk of its cost, open entries stand for
/// distinct (position, cost) pairs that were walked and not yet expanded,
/// and every expanded pair was walked and has a node costing at most it.
#[verifier::opaque]
spec fn history_ok<F: Fn(BlockPos) -> bool>(
    nodes: Seq<SearchNode>,
    open: Seq<(usize, i64)>,
    popped: Set<(BlockPos, int)>,
    f: F,
    start: BlockPos,
    goal: BlockPos,
) -> bool {
    &&& forall|i: int, j: int|
        0 <= i < nodes.len() && 0 <= j < nodes.len() && i != j ==> (#[trigger] nodes[i]).pos != (#[trigger] nodes[j]).pos
    &&& forall|k: int| 0 <= k < nodes.len() ==> #[trigger] traced(nodes, f, start, k)
    &&& forall|j: int|
        0 <= j < open.len() ==> walked(
            f,
            start,
            entry_key(nodes, goal, #[trigger] open[j]).0,
            entry_key(nodes, goal, open[j]).1,
        )
    &&& forall|i: int, j: int|
        0 <= i < open.len() && 0 <= j < open.len() && i != j ==> entry_key(nodes, goal, #[trigger] open[i])
            != entry_key(nodes, goal, #[trigger] open[j])
    &&& forall|j: int| 0 <= j < open.len() ==> !popped.contains(entry_key(nodes, goal, #[trigger] open[j]))
    &&& forall|e: (BlockPos, int)| #[trigger] popped.contains(e) ==> has_node(nodes, e.0, e.1) && walked(f, start, e.0, e.1)
}

/// The history of a search that has only queued the start.
proof fn lemma_history_start<F: Fn(BlockPos) -> bool>(
    nodes: Seq<SearchNode>,
    open: Seq<(usize, i64)>,
    f: F,
    start: BlockPos,
    goal: BlockPos,
)
    requires
        nodes.len() == 1,
        nodes[0].pos == start,
        nodes[0].g == 0,
        open.len() == 1,
        open[0].0 == 0,
        open[0].1 == manhattan(start, goal),
    ensures
        history_ok(nodes, open, Set::empty(), f, start, goal),
{
    reveal(history_ok);
    let w = seq![start];
    assert(simple_walk_to(f, start, start, 0, w));
    assert(has_node(nodes, w[0], 0));
    assert(traced(nodes, f, start, 0));
    assert(walked(f, start, entry_key(nodes, goal, open[0]).0, entry_key(nodes, goal, open[0]).1));
}

/// Tracing survives growth for a node that did not change.
proof fn lemma_traced_grows<F: Fn(BlockPos) -> bool>(
    old_nodes: Seq<SearchNode>,
    nodes: Seq<SearchNode>,
    f: F,
    start: BlockPos,
    k: int,
)
    requires
        grows(old_nodes, nodes),
        0 <= k < old_nodes.len(),
        nodes[k] == old_nodes[k],
        traced(old_nodes, f, start, k),
    ensures
        traced(nodes, f, start, k),
{
    let w = choose|w: Seq<BlockPos>|
        #[trigger] simple_walk_to(f, start, old_nodes[k].pos, old_nodes[k].g as int, w) && forall|i: int|
            0 <= i < w.len() ==> has_node(old_nodes, #[trigger] w[i], i);
    assert forall|i: int| 0 <= i < w.len() implies has_node(nodes, #[trigger] w[i], i) by {
        lemma_has_node_grows(old_nodes, nodes, w[i], i);
    }
    assert(simple_walk_to(f, start, nodes[k].pos, nodes[k].g as int, w));
}

/// A node reached from `cur` in one more step than `cur` costs, with no
/// earlier node at its position costing as little as `cur`, is traced.
proof fn lemma_traced_extend<F: Fn(BlockPos) -> bool>(
    old_nodes: Seq<SearchNode>,
    nodes: Seq<SearchNode>,
    f: F,
    start: BlockPos,
    cur: int,
    idx: int,
)
    requires
        grows(old_nodes, nodes),
        0 <= cur < old_nodes.len(),
        0 <= idx < nodes.len(),
        traced(old_nodes, f, start, cur),
        nodes[idx].g == old_nodes[cur].g + 1,
        is_step(old_nodes[cur].pos, nodes[idx].pos),
        reported_walkable(f, nodes[idx].pos),
        forall|k: int|
            0 <= k < old_nodes.len() && (#[trigger] old_nodes[k]).pos == nodes[idx].pos ==> old_nodes[k].g
                > old_nodes[cur].g,
    ensures
        traced(nodes, f, start, idx),
{
    let c = nodes[idx].pos;
    let w = choose|w: Seq<BlockPos>|
        #[trigger] simple_walk_to(f, start, old_nodes[cur].pos, old_nodes[cur].g as int, w) && forall|i: int|
            0 <= i < w.len() ==> has_node(old_nodes, #[trigger] w[i], i);
    let w2 = w.push(c);
    assert forall|i: int| 0 <= i < w.len() implies #[trigger] w[i] != c by {
        assert(has_node(old_nodes, w[i], i));
        let k = choose|k: int| 0 <= k < old_nodes.len() && (#[trigger] old_nodes[k]).pos == w[i] && old_nodes[k].g <= i;
        if w[i] == c {
            assert(old_nodes[k].g > old_nodes[cur].g);
        }
    }
    assert(w2.no_duplicates()) by {
        assert forall|i: int, j: int| 0 <= i < w2.len() && 0 <= j < w2.len() && i != j implies w2[i] != w2[j] by {
            if i < w.len() && j < w.len() {
                assert(w2[i] == w[i] && w2[j] == w[j]);
            } else if i < w.len() {
                assert(w2[i] == w[i]);
            } else if j < w.len() {
                assert(w2[j] == w[j]);
            }
        }
    }
    assert forall|i: int| 1 <= i < w2.len() implies is_step(#[trigger] w2[i - 1], w2[i]) by {
        if i < w.len() {
            assert(w2[i - 1] == w[i - 1] && w2[i] == w[i]);
        } else {
            assert(w2[i - 1] == w[w.len() - 1]);
        }
    }
    assert forall|i: int| 1 <= i < w2.len() implies reported_walkable(f, #[trigger] w2[i]) by {
        if i < w.len() {
            assert(w2[i] == w[i]);
        }
    }
    assert forall|i: int| 0 <= i < w2.len() implies has_node(nodes, #[trigger] w2[i], i) by {
        if i < w.len() {
            assert(w2[i] == w[i]);
            assert(has_node(old_nodes, w[i], i));
            lemma_has_node_grows(old_nodes, nodes, w[i], i);
        } else {
            assert(nodes[idx].pos == w2[i]);
        }
    }
    assert(simple_walk_to(f, start, nodes[idx].pos, nodes[idx].g as int, w2));
}

/// Recording a node reached from `cur` and queueing it keeps the history.
#[verifier::rlimit(60)]
#[verifier::spinoff_prover]
proof fn lemma_history_after_record<F: Fn(BlockPos) -> bool>(
    old_nodes: Seq<SearchNode>,
    nodes: Seq<SearchNode>,
    old_open: Seq<(usize, i64)>,
    open: Seq<(usize, i64)>,
    popped: Set<(BlockPos, int)>,
    f: F,
    start: BlockPos,
    goal: BlockPos,
    cur: int,
    idx: int,
)
    requires
        history_ok(old_nodes, old_open, popped, f, start, goal),
        0 <= cur < old_nodes.len(),
        cur != idx,
        old_nodes.len() <= nodes.len() <= old_nodes.len() + 1,
        0 <= idx < nodes.len(),
        nodes.len() == old_nodes.len() + 1 ==> idx == old_nodes.len(),
        idx == old_nodes.len() ==> forall|k: int|
            0 <= k < old_nodes.len() ==> (#[trigger] old_nodes[k]).pos != nodes[idx].pos,
        idx < old_nodes.len() ==> nodes[idx].g < old_nodes[idx].g,
        forall|i: int| 0 <= i < old_nodes.len() ==> (#[trigger] nodes[i]).pos == old_nodes[i].pos,
        forall|i: int| 0 <= i < old_nodes.len() && i != idx ==> #[trigger] nodes[i] == old_nodes[i],
        nodes[idx].g == old_nodes[cur].g + 1,
        is_step(old_nodes[cur].pos, nodes[idx].pos),
        reported_walkable(f, nodes[idx].pos),
        open.len() == old_open.len() + 1,
        forall|j: int| 0 <= j < old_open.len() ==> #[trigger] open[j] == old_open[j],
        open[old_open.len() as int].0 == idx,
        open[old_open.len() as int].1 == nodes[idx].g + manhattan(nodes[idx].pos, goal),
        forall|j: int| 0 <= j < old_open.len() ==> (#[trigger] old_open[j]).0 < old_nodes.len(),
        forall|j: int|
            0 <= j < old_open.len() ==> (#[trigger] old_open[j]).1 >= old_nodes[old_open[j].0 as int].g + manhattan(
                old_nodes[old_open[j].0 as int].pos,
                goal,
            ),
    ensures
        history_ok(nodes, open, popped, f, start, goal),
{
    reveal(history_ok);
    let c = nodes[idx].pos;
    let gn = nodes[idx].g as int;
    assert(grows(old_nodes, nodes)) by {
        assert forall|i: int| 0 <= i < old_nodes.len() implies (#[trigger] nodes[i]).pos == old_nodes[i].pos
            && nodes[i].g <= old_nodes[i].g by {
            if i != idx {
                assert(nodes[i] == old_nodes[i]);
            }
        }
    }
    // Any earlier node at the new node's position is the node itself, which cost more.
    assert forall|k: int| 0 <= k < old_nodes.len() && (#[trigger] old_nodes[k]).pos == c implies k == idx
        && old_nodes[k].g > gn by {
        if idx == old_nodes.len() {
        } else {
            assert(old_nodes[idx].pos == c);
            if k != idx {
                assert(old_nodes[k].pos != old_nodes[idx].pos);
            }
        }
    }
    assert forall|i: int, j: int|
        0 <= i < nodes.len() && 0 <= j < nodes.len() && i != j implies (#[trigger] nodes[i]).pos != (
        #[trigger] nodes[j]).pos by {
        if i < old_nodes.len() && j < old_nodes.len() {
            assert(old_nodes[i].pos != old_nodes[j].pos);
        } else if i < old_nodes.len() {
            assert(old_nodes[i].pos == nodes[i].pos);
        } else {
            assert(old_nodes[j].pos == nodes[j].pos);
        }
    }
    assert forall|k: int| 0 <= k < nodes.len() implies #[trigger] traced(nodes, f, start, k) by {
        if k == idx {
            lemma_traced_extend(old_nodes, nodes, f, start, cur, idx);
        } else {
            assert(traced(old_nodes, f, start, k));
            assert(nodes[k] == old_nodes[k]);
            lemma_traced_grows(old_nodes, nodes, f, start, k);
        }
    }
    let nk = entry_key(nodes, goal, open[old_open.len() as int]);
    assert(nk == (c, gn));
    assert forall|j: int| 0 <= j < old_open.len() implies entry_key(nodes, goal, #[trigger] open[j]) == entry_key(
        old_nodes,
        goal,
        old_open[j],
    ) by {
        assert(open[j] == old_open[j]);
        assert(nodes[old_open[j].0 as int].pos == old_nodes[old_open[j].0 as int].pos);
    }
    assert forall|j: int| 0 <= j < old_open.len() implies entry_key(nodes, goal, #[trigger] open[j]) != nk by {
        let e = old_open[j].0 as int;
        assert(open[j] == old_open[j]);
        if old_nodes[e].pos == c {
            assert(e == idx && old_nodes[e].g > gn);
        }
    }
    assert(traced(nodes, f, start, idx));
    assert(walked(f, start, c, gn));
    assert forall|j: int| 0 <= j < open.len() implies walked(
        f,
        start,
        entry_key(nodes, goal, #[trigger] open[j]).0,
        entry_key(nodes, goal, open[j]).1,
    ) by {
        if j < old_open.len() {
            assert(walked(
                f,
                start,
                entry_key(old_nodes, goal, old_open[j]).0,
                entry_key(old_nodes, goal, old_open[j]).1,
            ));
        }
    }
    assert forall|i: int, j: int|
        0 <= i < open.len() && 0 <= j < open.len() && i != j implies entry_key(nodes, goal, #[trigger] open[i])
        != entry_key(nodes, goal, #[trigger] open[j]) by {
        if i < old_open.len() && j < old_open.len() {
            assert(entry_key(old_nodes, goal, old_open[i]) != entry_key(old_nodes, goal, old_open[j]));
        }
    }
    assert forall|e: (BlockPos, int)| #[trigger] popped.contains(e) implies has_node(nodes, e.0, e.1) && walked(
        f,
        start,
        e.0,
        e.1,
    ) by {
        lemma_has_node_grows(old_nodes, nodes, e.0, e.1);
    }
    assert forall|j: int| 0 <= j < open.len() implies !popped.contains(entry_key(nodes, goal, #[trigger] open[j])) by {
        if j < old_open.len() {
            assert(!popped.contains(entry_key(old_nodes, goal, old_open[j])));
        } else {
            if popped.contains(nk) {
                assert(has_node(old_nodes, c, gn));
                let k = choose|k: int| 0 <= k < old_nodes.len() && (#[trigger] old_nodes[k]).pos == c && old_nodes[k].g <= gn;
                assert(old_nodes[k].g > gn);
            }
        }
    }
}

/// Expanding the popped entry records its (position, cost) pair as
/// expanded and keeps the history.
proof fn lemma_history_after_pop<F: Fn(BlockPos) -> bool>(
    nodes: Seq<SearchNode>,
    old_open: Seq<(usize, i64)>,
    open: Seq<(usize, i64)>,
    popped: Set<(BlockPos, int)>,
    f: F,
    start: BlockPos,
    goal: BlockPos,
    m: int,
)
    requires
        history_ok(nodes, old_open, popped, f, start, goal),
        0 <= m < old_open.len(),
        open == old_open.remove(m),
        old_open[m].0 < nodes.len(),
        old_open[m].1 >= nodes[old_open[m].0 as int].g + manhattan(nodes[old_open[m].0 as int].pos, goal),
    ensures
        !popped.contains(entry_key(nodes, goal, old_open[m])),
        history_ok(nodes, open, popped.insert(entry_key(nodes, goal, old_open[m])), f, start, goal),
{
    reveal(history_ok);
    let key = entry_key(nodes, goal, old_open[m]);
    let np = popped.insert(key);
    assert(!popped.contains(key));
    assert forall|j: int| 0 <= j < open.len() implies #[trigger] open[j] == old_open[if j < m {
        j
    } else {
        j + 1
    }] by {}
    assert forall|j: int| 0 <= j < open.len() implies walked(
        f,
        start,
        entry_key(nodes, goal, #[trigger] open[j]).0,
        entry_key(nodes, goal, open[j]).1,
    ) by {
        let jj = if j < m { j } else { j + 1 };
        assert(open[j] == old_open[jj]);
    }
    assert forall|i: int, j: int|
        0 <= i < open.len() && 0 <= j < open.len() && i != j implies entry_key(nodes, goal, #[trigger] open[i])
        != entry_key(nodes, goal, #[trigger] open[j]) by {
        let ii = if i < m { i } else { i + 1 };
        let jj = if j < m { j } else { j + 1 };
        assert(open[i] == old_open[ii] && open[j] == old_open[jj]);
    }
    assert forall|j: int| 0 <= j < open.len() implies !np.contains(entry_key(nodes, goal, #[trigger] open[j])) by {
        let jj = if j < m { j } else { j + 1 };
        assert(open[j] == old_open[jj]);
        assert(entry_key(nodes, goal, old_open[jj]) != key);
    }
    assert forall|e: (BlockPos, int)| #[trigger] np.contains(e) implies has_node(nodes, e.0, e.1) && walked(
        f,
        start,
        e.0,
        e.1,
    ) by {
        if e == key {
            let k = old_open[m].0 as int;
            assert(nodes[k].pos == e.0);
            assert(walked(f, start, entry_key(nodes, goal, old_open[m]).0, entry_key(nodes, goal, old_open[m]).1));
        } else {
            assert(popped.contains(e));
        }
    }
}

/// Every position of a walk from `start` ends some walk from `start`, so it
/// lies in any set that holds the ends of all such walks.
proof fn lemma_walk_in_region<F: Fn(BlockPos) -> bool>(f: F, start: BlockPos, region: Set<BlockPos>, w: Seq<BlockPos>)
    requires
        is_walk_from(w, start, f),
        forall|v: Seq<BlockPos>| #[trigger] is_walk_from(v, start, f) ==> region.contains(v.last()),
    ensures
        forall|i: int| 0 <= i < w.len() ==> region.contains(#[trigger] w[i]),
{
    assert forall|i: int| 0 <= i < w.len() implies region.contains(#[trigger] w[i]) by {
        let v = w.subrange(0, i + 1);
        assert forall|k: int| 1 <= k < v.len() implies is_step(#[trigger] v[k - 1], v[k]) by {
            assert(v[k - 1] == w[k - 1] && v[k] == w[k]);
        }
        assert forall|k: int| 1 <= k < v.len() implies reported_walkable(f, #[trigger] v[k]) by {
            assert(v[k] == w[k]);
        }
        assert(is_walk_from(v, start, f));
        assert(v.last() == w[i]);
    }
}

/// (Position, cost) pairs with cost below `k` number at most `k` times the
/// size of a set holding all their positions.
proof fn lemma_pairs_below(s: Set<(BlockPos, int)>, region: Set<BlockPos>, k: int)
    requires
        s.finite(),
        region.finite(),
        k >= 0,
        forall|e: (BlockPos, int)| #[trigger] s.contains(e) ==> region.contains(e.0) && 0 <= e.1,
    ensures
        s.filter(|e: (BlockPos, int)| e.1 < k).len() <= k * region.len(),
    decreases k,
{
    let n = region.len() as int;
    if k == 0 {
        assert(s.filter(|e: (BlockPos, int)| e.1 < k) =~= Set::empty());
        broadcast use vstd::set::axiom_set_empty_len;

    } else {
        lemma_pairs_below(s, region, k - 1);
        let below = s.filter(|e: (BlockPos, int)| e.1 < k - 1);
        let layer = s.filter(|e: (BlockPos, int)| e.1 == k - 1);
        s.lemma_len_filter(|e: (BlockPos, int)| e.1 < k - 1);
        s.lemma_len_filter(|e: (BlockPos, int)| e.1 == k - 1);
        assert(s.filter(|e: (BlockPos, int)| e.1 < k) =~= below + layer);
        vstd::set_lib::lemma_set_disjoint_lens(below, layer);
        let proj = |e: (BlockPos, int)| e.0;
        assert(vstd::relations::injective_on(proj, layer));
        vstd::set_lib::lemma_map_size(layer, layer.map(proj), proj);
        assert(layer.map(proj).subset_of(region));
        vstd::set_lib::lemma_len_subset(layer.map(proj), region);
        assert((k - 1) * n + n == k * n) by (nonlinear_arith);
    }
}

/// A finite set of (position, cost) pairs, each ending a duplicate-free
/// walk of that cost from `start` through positions reported walkable, has
/// at most `n * n` elements when the ends of all walks from `start` lie in
/// a set of `n` positions.
pub proof fn lemma_walked_pairs_bound<F: Fn(BlockPos) -> bool>(
    f: F,
    start: BlockPos,
    region: Set<BlockPos>,
    s: Set<(BlockPos, int)>,
)
    requires
        region.finite(),
        s.finite(),
        forall|v: Seq<BlockPos>| #[trigger] is_walk_from(v, start, f) ==> region.contains(v.last()),
        forall|e: (BlockPos, int)| #[trigger] s.contains(e) ==> walked(f, start, e.0, e.1),
    ensures
        s.len() <= region.len() * region.len(),
{
    let n = region.len() as int;
    assert forall|e: (BlockPos, int)| #[trigger] s.contains(e) implies region.contains(e.0) && 0 <= e.1 < n by {
        let w = choose|w: Seq<BlockPos>| #[trigger] simple_walk_to(f, start, e.0, e.1, w);
        lemma_walk_in_region(f, start, region, w);
        assert(w.to_set().subset_of(region)) by {
            assert forall|p: BlockPos| w.to_set().contains(p) implies region.contains(p) by {
                let i = choose|i: int| 0 <= i < w.len() && w[i] == p;
                assert(region.contains(w[i]));
            }
        }
        w.unique_seq_to_set();
        vstd::set_lib::lemma_len_subset(w.to_set(), region);
        assert(region.contains(w[w.len() - 1]));
    }
    lemma_pairs_below(s, region, n);
    assert(s.filter(|e: (BlockPos, int)| e.1 < n) =~= s);
}

/// Manhattan distance heuristic in 3D.
fn heuristic(a: BlockPos, b: BlockPos) -> (h: i64)
    ensures
        h == manhattan(a, b),
        h >= 0,
{
    let dx = if a.x >= b.x { a.x as i64 - b.x as i64 } else { b.x as i64 - a.x as i64 };
    let dy = if a.y >= b.y { a.y as i64 - b.y as i64 } else { b.y as i64 - a.y as i64 };
    let dz = if a.z >= b.z { a.z as i64 - b.z as i64 } else { b.z as i64 - a.z as i64 };
    dx + dy + dz
}

/// A position reached by the search, with its best known cost and the
/// node it was reached from.
struct SearchNode {
    pos: BlockPos,
    g: i64,
    parent: Option<usize>,
}

/// The invariant of the search graph: node 0 is the start with cost 0 and
/// no parent; every other node was reported walkable, is a neighbour of its
/// parent, and costs more than its parent; all costs lie in `[0, bound]`.
spec fn nodes_wf<F: Fn(BlockPos) -> bool>(nodes: Seq<SearchNode>, start: BlockPos, is_walkable: F, bound: int) -> bool {
    &&& nodes.len() >= 1
    &&& nodes[0].pos == start
    &&& nodes[0].g == 0
    &&& nodes[0].parent is None
    &&& forall|k: int| 0 <= k < nodes.len() ==> 0 <= #[trigger] nodes[k].g <= bound
    &&& forall|k: int| 1 <= k < nodes.len() ==> {
        &&& (#[trigger] nodes[k]).parent is Some
        &&& nodes[k].parent.unwrap() < nodes.len()
        &&& nodes[nodes[k].parent.unwrap() as int].g < nodes[k].g
        &&& is_step(nodes[nodes[k].parent.unwrap() as int].pos, nodes[k].pos)
        &&& reported_walkable(is_walkable, nodes[k].pos)
    }
}

/// Index of the node at `pos`, if any.
fn find_node(nodes: &Vec<SearchNode>, pos: BlockPos) -> (r: Option<usize>)
    ensures
        r matches Some(k) ==> k < nodes@.len() && nodes@[k as int].pos == pos,
        r is None ==> forall|k: int| 0 <= k < nodes@.len() ==> (#[trigger] nodes@[k]).pos != pos,
{
    let mut k: usize = 0;
    while k < nodes.len()
        invariant
            k <= nodes.len(),
            forall|i: int| 0 <= i < k ==> (#[trigger] nodes@[i]).pos != pos,
        decreases nodes.len() - k,
    {
        if nodes[k].pos == pos {
            return Some(k);
        }
        k = k + 1;
    }
    None
}

/// Reconstruct the path from the start to node `end` by following parents.
fn reconstruct_path<F: Fn(BlockPos) -> bool>(
    nodes: &Vec<SearchNode>,
    end: usize,
    Ghost(start): Ghost<BlockPos>,
    is_walkable: &F,
    Ghost(bound): Ghost<int>,
) -> (path: Vec<BlockPos>)
    requires
        nodes_wf(nodes@, start, *is_walkable, bound),
        end < nodes@.len(),
    ensures
        is_walk_from(path@, start, *is_walkable),
        path@.last() == nodes@[end as int].pos,
        path@.len() <= nodes@[end as int].g + 1,
        forall|i: int|
            #![trigger path@[i]]
            0 <= i < path@.len() ==> exists|k: int| 0 <= k < nodes@.len() && (#[trigger] nodes@[k]).pos == path@[i],
{
    let mut path: Vec<BlockPos> = Vec::new();
    path.push(nodes[end].pos);
    assert(nodes@[end as int].pos == path@[0]);
    let mut cur = end;
    while nodes[cur].parent.is_some()
        invariant
            nodes_wf(nodes@, start, *is_walkable, bound),
            cur < nodes@.len(),
            path@.len() > 0,
            path@[0] == nodes@[cur as int].pos,
            path@.last() == nodes@[end as int].pos,
            path@.len() + nodes@[cur as int].g <= nodes@[end as int].g + 1,
            forall|i: int|
                #![trigger path@[i]]
                0 <= i < path@.len() ==> exists|k: int| 0 <= k < nodes@.len() && (#[trigger] nodes@[k]).pos == path@[i],
            forall|i: int| 1 <= i < path@.len() ==> is_step(#[trigger] path@[i - 1], path@[i]),
            forall|i: int| 1 <= i < path@.len() ==> reported_walkable(*is_walkable, #[trigger] path@[i]),
        decreases nodes@[cur as int].g,
    {
        let p = match nodes[cur].parent {
            Some(p) => p,
            None => cur,
        };
        assert(cur != 0);
        let ghost old_path = path@;
        path.insert(0, nodes[p].pos);
        assert forall|i: int| 1 <= i < path@.len() implies is_step(#[trigger] path@[i - 1], path@[i]) by {
            if i > 1 {
                assert(path@[i - 1] == old_path[i - 2]);
                assert(path@[i] == old_path[i - 1]);
            }
        }
        assert forall|i: int| 1 <= i < path@.len() implies reported_walkable(*is_walkable, #[trigger] path@[i]) by {
            assert(path@[i] == old_path[i - 1]);
        }
        assert forall|i: int| #![trigger path@[i]] 0 <= i < path@.len() implies exists|k: int|
            0 <= k < nodes@.len() && (#[trigger] nodes@[k]).pos == path@[i] by {
            if i == 0 {
                assert(nodes@[p as int].pos == path@[0]);
            } else {
                assert(path@[i] == old_path[i - 1]);
            }
        }
        cur = p;
    }
    assert(cur == 0);
    path
}

/// Record that `neighbor` is reached from node `cur` at cost `tentative_g`:
/// a new node when it has none, otherwise its node (which cost more) is
/// updated. Returns the node's index; positions of existing nodes stay.
#[verifier::rlimit(60)]
#[verifier::spinoff_prover]
fn record_node<F: Fn(BlockPos) -> bool>(
    nodes: &mut Vec<SearchNode>,
    existing: Option<usize>,
    neighbor: BlockPos,
    tentative_g: i64,
    cur: usize,
    Ghost(start): Ghost<BlockPos>,
    is_walkable: &F,
    Ghost(bound): Ghost<int>,
) -> (idx: usize)
    requires
        nodes_wf(old(nodes)@, start, *is_walkable, bound),
        cur < old(nodes)@.len(),
        old(nodes)@[cur as int].g < tentative_g <= bound,
        is_step(old(nodes)@[cur as int].pos, neighbor),
        reported_walkable(*is_walkable, neighbor),
        existing matches Some(k) ==> k < old(nodes)@.len() && old(nodes)@[k as int].pos == neighbor
            && tentative_g < old(nodes)@[k as int].g,
    ensures
        nodes_wf(final(nodes)@, start, *is_walkable, bound),
        idx < final(nodes)@.len(),
        idx != 0,
        final(nodes)@[idx as int].pos == neighbor,
        final(nodes)@.len() == old(nodes)@.len() + (if existing is None { 1int } else { 0int }),
        forall|i: int| 0 <= i < old(nodes)@.len() ==> (#[trigger] final(nodes)@[i]).pos == old(nodes)@[i].pos,
        cur < final(nodes)@.len(),
        idx != cur,
        final(nodes)@[cur as int] == old(nodes)@[cur as int],
        final(nodes)@[idx as int].g == tentative_g,
        forall|i: int| 0 <= i < old(nodes)@.len() && i != idx ==> #[trigger] final(nodes)@[i] == old(nodes)@[i],
        existing is None ==> idx == old(nodes)@.len(),
        existing matches Some(k) ==> idx == k,
{
    let ghost old_nodes = nodes@;
    let idx = match existing {
        Some(k) => {
            assert(k != 0) by {
                if k == 0 {
                    assert(nodes@[0].g == 0);
                }
            }
            nodes.set(k, SearchNode { pos: neighbor, g: tentative_g, parent: Some(cur) });
            k
        },
        None => {
            nodes.push(SearchNode { pos: neighbor, g: tentative_g, parent: Some(cur) });
            nodes.len() - 1
        },
    };
    assert forall|k: int| 1 <= k < nodes@.len() implies {
        &&& (#[trigger] nodes@[k]).parent is Some
        &&& nodes@[k].parent.unwrap() < nodes@.len()
        &&& nodes@[nodes@[k].parent.unwrap() as int].g < nodes@[k].g
        &&& is_step(nodes@[nodes@[k].parent.unwrap() as int].pos, nodes@[k].pos)
        &&& reported_walkable(*is_walkable, nodes@[k].pos)
    } by {
        if k != idx {
            assert(nodes@[k] == old_nodes[k]);
            let p = old_nodes[k].parent.unwrap() as int;
            if p == idx {
                assert(nodes@[p].g < old_nodes[p].g);
            } else {
                assert(nodes@[p] == old_nodes[p]);
            }
        } else {
            if cur as int == idx {
                assert(false);
            }
            assert(nodes@[cur as int] == old_nodes[cur as int]);
        }
    }
    assert forall|i: int| 0 <= i < old_nodes.len() implies (#[trigger] nodes@[i]).pos == old_nodes[i].pos by {}
    idx
}

/// The position of the open entry with the lowest estimate (the first
/// such entry).
fn lowest_entry(open: &Vec<(usize, i64)>) -> (m: usize)
    requires
        open@.len() > 0,
    ensures
        m < open@.len(),
        forall|i: int| 0 <= i < open@.len() ==> open@[m as int].1 <= (#[trigger] open@[i]).1,
{
    let mut min_j: usize = 0;
    let mut j: usize = 1;
    while j < open.len()
        invariant
            1 <= j <= open@.len(),
            min_j < open@.len(),
            forall|i: int| 0 <= i < j ==> open@[min_j as int].1 <= (#[trigger] open@[i]).1,
        decreases open.len() - j,
    {
        if open[j].1 < open[min_j].1 {
            min_j = j;
        }
        j = j + 1;
    }
    min_j
}

/// Record `neighbor`, reached from node `cur` at cost `tentative_g`, queue
/// it, and track the node closest to the goal: one step of `expand_node`,
/// for the neighbour in direction `dd`.
#[verifier::rlimit(60)]
#[verifier::spinoff_prover]
fn queue_neighbor<F: Fn(BlockPos) -> bool>(
    nodes: &mut Vec<SearchNode>,
    open: &mut Vec<(usize, i64)>,
    best: &mut usize,
    best_h: &mut i64,
    cur: usize,
    existing: Option<usize>,
    neighbor: BlockPos,
    tentative_g: i64,
    Ghost(start): Ghost<BlockPos>,
    goal: BlockPos,
    is_walkable: &F,
    bound: u32,
    Ghost(popped): Ghost<Set<(BlockPos, int)>>,
    Ghost(dd): Ghost<int>,
)
    requires
        nodes_wf(old(nodes)@, start, *is_walkable, bound as int),
        history_ok(old(nodes)@, old(open)@, popped, *is_walkable, start, goal),
        forall|j: int| 0 <= j < old(open)@.len() ==> (#[trigger] old(open)@[j]).0 < old(nodes)@.len(),
        *old(best) < old(nodes)@.len(),
        *old(best_h) == manhattan(old(nodes)@[*old(best) as int].pos, goal),
        *old(best) == 0 || *old(best_h) < manhattan(start, goal),
        forall|k: int| 0 <= k < old(nodes)@.len() ==> *old(best_h) <= manhattan((#[trigger] old(nodes)@[k]).pos, goal),
        cur < old(nodes)@.len(),
        tentative_g == old(nodes)@[cur as int].g + 1,
        tentative_g <= bound,
        is_step(old(nodes)@[cur as int].pos, neighbor),
        reported_walkable(*is_walkable, neighbor),
        existing matches Some(k) ==> k < old(nodes)@.len() && old(nodes)@[k as int].pos == neighbor
            && tentative_g < old(nodes)@[k as int].g,
        existing is None ==> forall|k: int| 0 <= k < old(nodes)@.len() ==> (#[trigger] old(nodes)@[k]).pos != neighbor,
        forall|j: int| 0 <= j < old(open)@.len() ==> (#[trigger] old(open)@[j]).0 != 0,
        forall|j: int|
            0 <= j < old(open)@.len() ==> (#[trigger] old(open)@[j]).1 >= old(nodes)@[old(open)@[j].0 as int].g
                + manhattan(old(nodes)@[old(open)@[j].0 as int].pos, goal),
        forall|k: int|
            0 <= k < old(nodes)@.len() && k != cur ==> #[trigger] settled(
                old(nodes)@,
                old(open)@,
                *is_walkable,
                goal,
                k,
            ),
        covered_upto(old(nodes)@, *is_walkable, cur as int, dd),
        forall|n: BlockPos|
            #[trigger] is_step(old(nodes)@[cur as int].pos, n) && direction_index(old(nodes)@[cur as int].pos, n) == dd
                ==> Some(neighbor) == Some(n),
    ensures
        nodes_wf(final(nodes)@, start, *is_walkable, bound as int),
        history_ok(final(nodes)@, final(open)@, popped, *is_walkable, start, goal),
        forall|j: int| 0 <= j < final(open)@.len() ==> (#[trigger] final(open)@[j]).0 < final(nodes)@.len(),
        *final(best) < final(nodes)@.len(),
        *final(best_h) == manhattan(final(nodes)@[*final(best) as int].pos, goal),
        *final(best) == 0 || *final(best_h) < manhattan(start, goal),
        forall|k: int| 0 <= k < final(nodes)@.len() ==> *final(best_h) <= manhattan((#[trigger] final(nodes)@[k]).pos, goal),
        cur < final(nodes)@.len(),
        final(nodes)@[cur as int] == old(nodes)@[cur as int],
        forall|j: int| 0 <= j < final(open)@.len() ==> (#[trigger] final(open)@[j]).0 != 0,
        forall|j: int|
            0 <= j < final(open)@.len() ==> (#[trigger] final(open)@[j]).1 >= final(nodes)@[final(open)@[j].0 as int].g
                + manhattan(final(nodes)@[final(open)@[j].0 as int].pos, goal),
        forall|k: int|
            0 <= k < final(nodes)@.len() && k != cur ==> #[trigger] settled(
                final(nodes)@,
                final(open)@,
                *is_walkable,
                goal,
                k,
            ),
        covered_upto(final(nodes)@, *is_walkable, cur as int, dd + 1),
{
    let ghost old_nodes = nodes@;
    let idx = record_node(nodes, existing, neighbor, tentative_g, cur, Ghost(start), is_walkable, Ghost(bound as int));
    let h = heuristic(neighbor, goal);
    let ghost before_push = open@;
    open.push((idx, tentative_g + h));
    assert forall|j: int| 0 <= j < before_push.len() implies (#[trigger] open@[j]) == before_push[j] by {}
    proof {
        lemma_after_record(old_nodes, nodes@, before_push, open@, *is_walkable, goal, cur as int, idx as int);
        lemma_history_after_record(
            old_nodes,
            nodes@,
            before_push,
            open@,
            popped,
            *is_walkable,
            start,
            goal,
            cur as int,
            idx as int,
        );
        lemma_covered_grows(old_nodes, nodes@, *is_walkable, cur as int, dd);
        assert(has_node(nodes@, neighbor, tentative_g as int)) by {
            assert(nodes@[idx as int].pos == neighbor);
        }
        lemma_cover_next(nodes@, *is_walkable, cur as int, dd, Some(neighbor));
    }
    if h < *best_h {
        *best_h = h;
        *best = idx;
    }
}

/// Expand node `cur`: record each of its six neighbours that the check
/// reports walkable and that this reaches more cheaply than before, queue
/// it, and track the node closest to the goal. Afterwards every neighbour
/// of `cur` that is surely walkable has a node costing at most one more.
#[verifier::rlimit(100)]
#[verifier::spinoff_prover]
fn expand_node<F: Fn(BlockPos) -> bool>(
    nodes: &mut Vec<SearchNode>,
    open: &mut Vec<(usize, i64)>,
    best: &mut usize,
    best_h: &mut i64,
    cur: usize,
    Ghost(start): Ghost<BlockPos>,
    goal: BlockPos,
    is_walkable: &F,
    bound: u32,
    Ghost(popped): Ghost<Set<(BlockPos, int)>>,
)
    requires
        nodes_wf(old(nodes)@, start, *is_walkable, bound as int),
        history_ok(old(nodes)@, old(open)@, popped, *is_walkable, start, goal),
        forall|p: BlockPos| call_requires(*is_walkable, (p,)),
        forall|j: int| 0 <= j < old(open)@.len() ==> (#[trigger] old(open)@[j]).0 < old(nodes)@.len(),
        *old(best) < old(nodes)@.len(),
        *old(best_h) == manhattan(old(nodes)@[*old(best) as int].pos, goal),
        *old(best) == 0 || *old(best_h) < manhattan(start, goal),
        forall|k: int| 0 <= k < old(nodes)@.len() ==> *old(best_h) <= manhattan((#[trigger] old(nodes)@[k]).pos, goal),
        start != goal,
        cur < old(nodes)@.len(),
        old(nodes)@[cur as int].pos != goal,
        old(nodes)@[cur as int].g < bound,
        forall|j: int| 0 <= j < old(open)@.len() ==> (#[trigger] old(open)@[j]).0 != 0,
        forall|j: int|
            0 <= j < old(open)@.len() ==> (#[trigger] old(open)@[j]).1 >= old(nodes)@[old(open)@[j].0 as int].g
                + manhattan(old(nodes)@[old(open)@[j].0 as int].pos, goal),
        forall|k: int|
            0 <= k < old(nodes)@.len() && k != cur ==> #[trigger] settled(
                old(nodes)@,
                old(open)@,
                *is_walkable,
                goal,
                k,
            ),
    ensures
        nodes_wf(final(nodes)@, start, *is_walkable, bound as int),
        history_ok(final(nodes)@, final(open)@, popped, *is_walkable, start, goal),
        forall|j: int| 0 <= j < final(open)@.len() ==> (#[trigger] final(open)@[j]).0 < final(nodes)@.len(),
        *final(best) < final(nodes)@.len(),
        *final(best_h) == manhattan(final(nodes)@[*final(best) as int].pos, goal),
        *final(best) == 0 || *final(best_h) < manhattan(start, goal),
        forall|k: int| 0 <= k < final(nodes)@.len() ==> *final(best_h) <= manhattan((#[trigger] final(nodes)@[k]).pos, goal),
        forall|j: int| 0 <= j < final(open)@.len() ==> (#[trigger] final(open)@[j]).0 != 0,
        forall|j: int|
            0 <= j < final(open)@.len() ==> (#[trigger] final(open)@[j]).1 >= final(nodes)@[final(open)@[j].0 as int].g
                + manhattan(final(nodes)@[final(open)@[j].0 as int].pos, goal),
        forall|k: int|
            0 <= k < final(nodes)@.len() ==> #[trigger] settled(final(nodes)@, final(open)@, *is_walkable, goal, k),
{
    let cur_pos = nodes[cur].pos;
    assert(covered_upto(nodes@, *is_walkable, cur as int, 0)) by {
        reveal(covered_upto);
    }
    let current_g = nodes[cur].g;
    let mut d: usize = 0;
    while d < 6
        invariant
            nodes_wf(nodes@, start, *is_walkable, bound as int),
            history_ok(nodes@, open@, popped, *is_walkable, start, goal),
            forall|p: BlockPos| call_requires(*is_walkable, (p,)),
            forall|j: int| 0 <= j < open@.len() ==> (#[trigger] open@[j]).0 < nodes@.len(),
            *best < nodes@.len(),
            *best_h == manhattan(nodes@[*best as int].pos, goal),
            *best == 0 || *best_h < manhattan(start, goal),
            forall|k: int| 0 <= k < nodes@.len() ==> *best_h <= manhattan((#[trigger] nodes@[k]).pos, goal),
            start != goal,
            cur < nodes@.len(),
            nodes@[cur as int].pos == cur_pos,
            cur_pos != goal,
            0 <= current_g < bound,
            nodes@[cur as int].g == current_g,
            d <= 6,
            forall|j: int| 0 <= j < open@.len() ==> (#[trigger] open@[j]).0 != 0,
            forall|j: int|
                0 <= j < open@.len() ==> (#[trigger] open@[j]).1 >= nodes@[open@[j].0 as int].g + manhattan(
                    nodes@[open@[j].0 as int].pos,
                    goal,
                ),
            forall|k: int|
                0 <= k < nodes@.len() && k != cur ==> #[trigger] settled(nodes@, open@, *is_walkable, goal, k),
            covered_upto(nodes@, *is_walkable, cur as int, d as int),
        decreases 6 - d,
    {
        let (dx, dy, dz): (i32, i32, i32) = if d == 0 {
            (1, 0, 0)
        } else if d == 1 {
            (-1, 0, 0)
        } else if d == 2 {
            (0, 0, 1)
        } else if d == 3 {
            (0, 0, -1)
        } else if d == 4 {
            (0, 1, 0)
        } else {
            (0, -1, 0)
        };
        let ghost dd = d as int;
        assert(dx == dir_dx(dd) && dy == dir_dy(dd) && dz == dir_dz(dd));
        d = d + 1;
        let nx = cur_pos.x.checked_add(dx);
        let ny = cur_pos.y.checked_add(dy);
        let nz = cur_pos.z.checked_add(dz);
        if nx.is_none() || ny.is_none() || nz.is_none() {
            proof {
                assert forall|n: BlockPos|
                    #[trigger] is_step(nodes@[cur as int].pos, n) && direction_index(nodes@[cur as int].pos, n)
                        == dd implies None::<BlockPos> == Some(n) by {
                    lemma_direction_offset(cur_pos, n);
                }
                lemma_cover_next(nodes@, *is_walkable, cur as int, dd, None);
            }
            continue;
        }
        let neighbor = BlockPos::new(nx.unwrap(), ny.unwrap(), nz.unwrap());
        assert(is_step(cur_pos, neighbor));
        proof {
            assert forall|n: BlockPos|
                #[trigger] is_step(nodes@[cur as int].pos, n) && direction_index(nodes@[cur as int].pos, n)
                    == dd implies Some(neighbor) == Some(n) by {
                lemma_direction_offset(cur_pos, n);
            }
        }
        let walkable = is_walkable(neighbor);
        if !walkable {
            proof {
                lemma_cover_next(nodes@, *is_walkable, cur as int, dd, Some(neighbor));
            }
            continue;
        }
        let tentative_g = current_g + 1;
        let existing = find_node(&*nodes, neighbor);
        let improves = match existing {
            Some(k) => tentative_g < nodes[k].g,
            None => true,
        };
        if improves {
            queue_neighbor(
                nodes,
                open,
                best,
                best_h,
                cur,
                existing,
                neighbor,
                tentative_g,
                Ghost(start),
                goal,
                is_walkable,
                bound,
                Ghost(popped),
                Ghost(dd),
            );
        } else {
            proof {
                let k = existing.unwrap() as int;
                assert(has_node(nodes@, neighbor, current_g + 1)) by {
                    assert(nodes@[k].pos == neighbor);
                }
                lemma_cover_next(nodes@, *is_walkable, cur as int, dd, Some(neighbor));
            }
        }
    }
    proof {
        assert forall|k: int| 0 <= k < nodes@.len() implies #[trigger] settled(
            nodes@,
            open@,
            *is_walkable,
            goal,
            k,
        ) by {
            reveal(settled);
            if k == cur {
                assert(covered_upto(nodes@, *is_walkable, k, 6));
            }
        }
    }
}

/// Find a path from `start` to `goal` using A* search.
///
/// A block is considered walkable if `is_walkable(pos)` returns true.
/// The caller should implement the walkability check: typically the block
/// itself is air AND the block below is solid (the entity can stand on it).
///
/// The search expands positions by lowest `steps so far + Manhattan
/// distance to the goal`, so a found path is a shortest one: no walk to the
/// goal through positions the check always reports walkable is shorter.
/// Unless it is cut off, the search finds the goal whenever such a walk
/// exists.
///
/// `max_iterations` caps the search to prevent lag. Each iteration expands
/// one queued (position, cost) pair, where the cost is the length of a
/// duplicate-free walk to the position through positions the check
/// reported walkable; a position can be queued again at a lower cost and is
/// then expanded once per cost. So the search is cut off only after
/// `max_iterations` distinct such pairs were expanded, and never when the
/// positions reachable from the start number `n` with `n * n` below the
/// budget. If the limit is reached the search is cut off: the path to the node closest to the goal found so
/// far is returned with `found: false` (empty when no node came closer than
/// the start). Neighbours whose coordinates would leave the `i32` range are
/// skipped. A goal next to the start that the check always reports
/// walkable is found within two iterations.
#[verifier::rlimit(100)]
#[verifier::spinoff_prover]
pub fn find_path<F: Fn(BlockPos) -> bool>(
    start: BlockPos,
    goal: BlockPos,
    max_iterations: u32,
    is_walkable: &F,
) -> (result: AStarResult)
    requires
        forall|p: BlockPos| call_requires(*is_walkable, (p,)),
    ensures
        start == goal ==> result.found && result.path@ == seq![start],
        result.found ==> is_walk_from(result.path@, start, *is_walkable) && result.path@.last() == goal,
        result.found ==> forall|w: Seq<BlockPos>|
            #[trigger] sure_walk(*is_walkable, w, start) && w.last() == goal ==> result.path@.len() <= w.len(),
        result.cut_off ==> !result.found,
        !result.found && !result.cut_off ==> result.path@.len() == 0 && forall|w: Seq<BlockPos>|
            #[trigger] sure_walk(*is_walkable, w, start) ==> w.last() != goal,
        !result.found ==> result.path@.len() == 0 || is_walk_from(result.path@, start, *is_walkable),
        !result.found && result.path@.len() > 0 ==> manhattan(result.path@.last(), goal) < manhattan(start, goal),
        !result.found && result.path@.len() > 0 ==> forall|i: int|
            0 <= i < result.path@.len() ==> manhattan(result.path@.last(), goal) <= manhattan(
                #[trigger] result.path@[i],
                goal,
            ),
        max_iterations >= 2 && is_step(start, goal) && surely_walkable(*is_walkable, goal) ==> result.found,
        result.cut_off ==> exists|s: Set<(BlockPos, int)>|
            s.finite() && s.len() >= max_iterations && forall|e: (BlockPos, int)| #[trigger]
                s.contains(e) ==> walked(*is_walkable, start, e.0, e.1),
        forall|region: Set<BlockPos>|
            #![trigger region.len()]
            region.finite() && region.len() * region.len() < max_iterations && (forall|v: Seq<BlockPos>|
                #[trigger] is_walk_from(v, start, *is_walkable) ==> region.contains(v.last())) ==> !result.cut_off,
{
    if start == goal {
        let mut path = Vec::new();
        path.push(start);
        return AStarResult { path, found: true, cut_off: false };
    }
    let mut nodes: Vec<SearchNode> = Vec::new();
    nodes.push(SearchNode { pos: start, g: 0, parent: None });
    let mut open: Vec<(usize, i64)> = Vec::new();
    open.push((0, heuristic(start, goal)));

    let mut iterations: u32 = 0;
    let mut best: usize = 0;
    let mut best_h = heuristic(start, goal);
    let ghost adj = max_iterations >= 2 && is_step(start, goal) && surely_walkable(*is_walkable, goal);
    assert(queued(nodes@, open@, goal, 0)) by {
        assert(open@[0].0 == 0);
    }
    assert(settled(nodes@, open@, *is_walkable, goal, 0)) by {
        reveal(settled);
    }
    let ghost mut popped: Set<(BlockPos, int)> = Set::empty();
    proof {
        lemma_history_start(nodes@, open@, *is_walkable, start, goal);
    }

    while open.len() > 0
        invariant
            nodes_wf(nodes@, start, *is_walkable, iterations as int),
            forall|p: BlockPos| call_requires(*is_walkable, (p,)),
            forall|j: int| 0 <= j < open@.len() ==> (#[trigger] open@[j]).0 < nodes@.len(),
            best < nodes@.len(),
            best_h == manhattan(nodes@[best as int].pos, goal),
            best == 0 || best_h < manhattan(start, goal),
            forall|k: int| 0 <= k < nodes@.len() ==> best_h <= manhattan((#[trigger] nodes@[k]).pos, goal),
            iterations <= max_iterations,
            iterations == 0 || iterations < max_iterations,
            start != goal,
            adj == (max_iterations >= 2 && is_step(start, goal) && surely_walkable(*is_walkable, goal)),
            iterations == 0 ==> open@.len() == 1,
            forall|j: int|
                0 <= j < open@.len() ==> (#[trigger] open@[j]).1 >= nodes@[open@[j].0 as int].g + manhattan(
                    nodes@[open@[j].0 as int].pos,
                    goal,
                ),
            forall|k: int| 0 <= k < nodes@.len() ==> #[trigger] settled(nodes@, open@, *is_walkable, goal, k),
            history_ok(nodes@, open@, popped, *is_walkable, start, goal),
            popped.finite(),
            popped.len() == iterations,
            iterations >= 1 ==> forall|j: int| 0 <= j < open@.len() ==> (#[trigger] open@[j]).0 != 0,
            adj ==> iterations <= 1,
        decreases max_iterations - iterations + 1,
    {
        // Take the open entry with the lowest f cost.
        let min_j = lowest_entry(&open);
        let ghost old_open = open@;
        proof {
            lemma_min_below_walks(nodes@, old_open, *is_walkable, start, goal, min_j as int);
            if adj && iterations == 1 {
                let w = seq![start, goal];
                assert(w[1] == goal);
                assert(sure_walk(*is_walkable, w, start));
                assert(old_open[min_j as int].1 <= 1);
                let e = old_open[min_j as int].0 as int;
                assert(nodes@[e].g >= 1);
                assert(manhattan(nodes@[e].pos, goal) == 0);
            }
        }
        let (cur, _f) = open.remove(min_j);
        let cur_pos = nodes[cur].pos;
        let ghost key = entry_key(nodes@, goal, old_open[min_j as int]);
        proof {
            lemma_settled_after_pop(nodes@, old_open, open@, *is_walkable, goal, min_j as int);
            lemma_history_after_pop(nodes@, old_open, open@, popped, *is_walkable, start, goal, min_j as int);
            assert forall|j: int| 0 <= j < open@.len() implies (#[trigger] open@[j]) == old_open[if j < min_j {
                j
            } else {
                j + 1
            }] by {}
        }
        if cur_pos == goal {
            let path = reconstruct_path(&nodes, cur, Ghost(start), is_walkable, Ghost(iterations as int));
            proof {
                assert(nodes@[cur as int].g <= old_open[min_j as int].1);
            }
            return AStarResult { path, found: true, cut_off: false };
        }

        iterations = iterations + 1;
        proof {
            vstd::set::axiom_set_insert_len(popped, key);
            vstd::set::axiom_set_insert_finite(popped, key);
            popped = popped.insert(key);
        }
        if iterations >= max_iterations {
            proof {
                assert forall|e: (BlockPos, int)| #[trigger] popped.contains(e) implies walked(
                    *is_walkable,
                    start,
                    e.0,
                    e.1,
                ) by {
                    reveal(history_ok);
                }
                assert(popped.finite() && popped.len() >= max_iterations);
                assert forall|region: Set<BlockPos>|
                    #![trigger region.len()]
                    region.finite() && region.len() * region.len() < max_iterations && (forall|v: Seq<BlockPos>|
                        #[trigger] is_walk_from(v, start, *is_walkable) ==> region.contains(v.last())) implies false by {
                    lemma_walked_pairs_bound(*is_walkable, start, region, popped);
                }
            }
            if nodes[best].pos == start {
                return AStarResult { path: Vec::new(), found: false, cut_off: true };
            }
            let path = reconstruct_path(&nodes, best, Ghost(start), is_walkable, Ghost(iterations as int));
            proof {
                assert forall|i: int| 0 <= i < path@.len() implies manhattan(path@.last(), goal) <= manhattan(
                    #[trigger] path@[i],
                    goal,
                ) by {
                    let k = choose|k: int| 0 <= k < nodes@.len() && (#[trigger] nodes@[k]).pos == path@[i];
                    assert(best_h <= manhattan(nodes@[k].pos, goal));
                }
            }
            return AStarResult { path, found: false, cut_off: true };
        }

        expand_node(
            &mut nodes,
            &mut open,
            &mut best,
            &mut best_h,
            cur,
            Ghost(start),
            goal,
            is_walkable,
            iterations,
            Ghost(popped),
        );
    }
    proof {
        lemma_no_walk_when_exhausted(nodes@, open@, *is_walkable, start, goal);
        if adj {
            let w = seq![start, goal];
            assert(w[1] == goal);
            assert(sure_walk(*is_walkable, w, start));
        }
    }
    AStarResult { path: Vec::new(), found: false, cut_off: false }
}

} // verus!
