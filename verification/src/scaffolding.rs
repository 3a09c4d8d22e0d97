//! Scaffolding climbing rules, placement rules and collapse chains.
use vstd::prelude::*;
use vstd::relations::injective_on;
use vstd::set_lib::{lemma_int_range, lemma_len_subset, lemma_map_size, set_int_range};

verus! {

/// Maximum horizontal flood-fill distance for scaffolding collapse chains.
pub const MAX_HORIZONTAL_DISTANCE: u8 = 6;

/// Whether a player may climb the scaffolding they are currently in:
/// inside a scaffolding block and not sneaking.
pub fn can_climb_scaffolding(at_pos: bool, sneaking: bool) -> (r: bool)
    ensures
        r == (at_pos && !sneaking),
{
    at_pos && !sneaking
}

/// Whether scaffolding may be placed at a candidate position: an adjacent
/// scaffolding block supports it laterally, or a solid block lies below.
pub fn scaffolding_can_be_placed_on(neighbor_is_scaffolding: bool, has_solid_below: bool) -> (r: bool)
    ensures
        r == (neighbor_is_scaffolding || has_solid_below),
{
    neighbor_is_scaffolding || has_solid_below
}

/// Horizontal Manhattan distance between two positions.
pub open spec fn horizontal_distance(a: (i32, i32, i32), b: (i32, i32, i32)) -> int {
    (if a.0 >= b.0 { a.0 - b.0 } else { b.0 - a.0 }) + (if a.2 >= b.2 { a.2 - b.2 } else { b.2 - a.2 })
}

/// Whether the callback can report `p` as a scaffolding block.
pub open spec fn reported_scaffolding<F: Fn(i32, i32, i32) -> bool>(f: F, p: (i32, i32, i32)) -> bool {
    call_ensures(f, (p.0, p.1, p.2), true)
}

/// Every answer the callback can give for `p` is "scaffolding".
pub open spec fn surely_scaffolding<F: Fn(i32, i32, i32) -> bool>(f: F, p: (i32, i32, i32)) -> bool {
    forall|b: bool| call_ensures(f, (p.0, p.1, p.2), b) ==> b
}

/// `n` is one of the four horizontal neighbours of `s`.
pub open spec fn is_horizontal_neighbour(n: (i32, i32, i32), s: (i32, i32, i32)) -> bool {
    n.1 == s.1 && horizontal_distance(n, s) == 1
}

/// A horizontal walk through positions the callback always reports as
/// scaffolding: each step moves to one of the four horizontal neighbours.
pub open spec fn scaffold_walk<F: Fn(i32, i32, i32) -> bool>(f: F, w: Seq<(i32, i32, i32)>) -> bool {
    &&& w.len() >= 1
    &&& forall|i: int| 0 <= i < w.len() ==> surely_scaffolding(f, #[trigger] w[i])
    &&& forall|i: int| 1 <= i < w.len() ==> is_horizontal_neighbour(#[trigger] w[i], w[i - 1])
}

/// A horizontal walk through positions the callback reported as
/// scaffolding: each step moves to one of the four horizontal neighbours.
pub open spec fn reported_scaffold_walk<F: Fn(i32, i32, i32) -> bool>(f: F, w: Seq<(i32, i32, i32)>) -> bool {
    &&& w.len() >= 1
    &&& forall|i: int| 0 <= i < w.len() ==> reported_scaffolding(f, #[trigger] w[i])
    &&& forall|i: int| 1 <= i < w.len() ==> is_horizontal_neighbour(#[trigger] w[i], w[i - 1])
}

/// Some reported walk of `n` positions leads from `s` to `p`.
spec fn reaches<F: Fn(i32, i32, i32) -> bool>(f: F, s: (i32, i32, i32), p: (i32, i32, i32), n: int) -> bool {
    exists|w: Seq<(i32, i32, i32)>| #[trigger] reported_scaffold_walk(f, w) && w[0] == s && w.last() == p && w.len() == n
}

/// Extending a reported walk to a reported neighbour of its end.
proof fn lemma_reaches_step<F: Fn(i32, i32, i32) -> bool>(
    f: F,
    s: (i32, i32, i32),
    p: (i32, i32, i32),
    q: (i32, i32, i32),
    n: int,
)
    requires
        reaches(f, s, p, n),
        is_horizontal_neighbour(q, p),
        reported_scaffolding(f, q),
    ensures
        reaches(f, s, q, n + 1),
{
    let w = choose|w: Seq<(i32, i32, i32)>| #[trigger] reported_scaffold_walk(f, w) && w[0] == s && w.last() == p && w.len() == n;
    let w2 = w.push(q);
    assert(w2[w2.len() - 1] == q);
    assert forall|i: int| 1 <= i < w2.len() implies is_horizontal_neighbour(#[trigger] w2[i], w2[i - 1]) by {
        if i < w2.len() - 1 {
            assert(w2[i] == w[i] && w2[i - 1] == w[i - 1]);
        }
    }
    assert forall|i: int| 0 <= i < w2.len() implies reported_scaffolding(f, #[trigger] w2[i]) by {
        if i < w2.len() - 1 {
            assert(w2[i] == w[i]);
        }
    }
    assert(reported_scaffold_walk(f, w2));
}

/// Cell code of a position in the `(2m + 1) x (2m + 1)` square around `s`.
spec fn cell_code(p: (i32, i32, i32), s: (i32, i32, i32), m: int) -> int {
    (p.0 - s.0 + m) * (2 * m + 1) + (p.2 - s.2 + m)
}

proof fn lemma_cell_code_injective(a0: int, a2: int, b0: int, b2: int, k: int)
    by (nonlinear_arith)
    requires
        0 <= a0 < k,
        0 <= a2 < k,
        0 <= b0 < k,
        0 <= b2 < k,
        a0 * k + a2 == b0 * k + b2,
    ensures
        a0 == b0 && a2 == b2,
{
}

proof fn lemma_cell_code_range(a0: int, a2: int, k: int)
    by (nonlinear_arith)
    requires
        0 <= a0 < k,
        0 <= a2 < k,
    ensures
        0 <= a0 * k + a2 < k * k,
{
}

/// A duplicate-free list of positions at height `s.1` within horizontal
/// distance `m` of `s` has at most `(2m + 1)^2` elements.
proof fn lemma_square_bound(v: Seq<(i32, i32, i32)>, s: (i32, i32, i32), m: int)
    requires
        m >= 0,
        v.no_duplicates(),
        forall|i: int| 0 <= i < v.len() ==> (#[trigger] v[i]).1 == s.1 && horizontal_distance(v[i], s) <= m,
    ensures
        v.len() <= (2 * m + 1) * (2 * m + 1),
{
    let k = 2 * m + 1;
    let f = |p: (i32, i32, i32)| cell_code(p, s, m);
    let set = v.to_set();
    v.unique_seq_to_set();
    assert forall|a: (i32, i32, i32), b: (i32, i32, i32)|
        set.contains(a) && set.contains(b) && #[trigger] f(a) == #[trigger] f(b) implies a == b by {
        let ia = choose|i: int| 0 <= i < v.len() && v[i] == a;
        let ib = choose|i: int| 0 <= i < v.len() && v[i] == b;
        assert(v[ia] == a && v[ib] == b);
        lemma_cell_code_injective(a.0 - s.0 + m, a.2 - s.2 + m, b.0 - s.0 + m, b.2 - s.2 + m, k);
    }
    assert(injective_on(f, set));
    let codes = set.map(f);
    lemma_map_size(set, codes, f);
    lemma_int_range(0, k * k);
    assert forall|c: int| codes.contains(c) implies set_int_range(0, k * k).contains(c) by {
        let p = choose|p: (i32, i32, i32)| set.contains(p) && f(p) == c;
        let i = choose|i: int| 0 <= i < v.len() && v[i] == p;
        assert(v[i] == p);
        lemma_cell_code_range(p.0 - s.0 + m, p.2 - s.2 + m, k);
    }
    lemma_len_subset(codes, set_int_range(0, k * k));
}

/// Whether a list of positions contains `p`.
fn contains_pos(v: &Vec<(i32, i32, i32)>, p: (i32, i32, i32)) -> (r: bool)
    ensures
        r == v@.contains(p),
{
    let mut i: usize = 0;
    while i < v.len()
        invariant
            i <= v.len(),
            forall|j: int| 0 <= j < i ==> v@[j] != p,
        decreases v.len() - i,
    {
        if v[i].0 == p.0 && v[i].1 == p.1 && v[i].2 == p.2 {
            assert(v@[i as int] == p);
            return true;
        }
        i = i + 1;
    }
    false
}

/// Flood-fill the horizontally connected scaffolding starting at `start`.
///
/// Explores the ±X and ±Z neighbours (horizontal only) breadth first and
/// collects every scaffolding block reachable from the start in at most
/// `max_distance` horizontal steps through scaffolding, and only blocks
/// connected to the start within that many steps. When the base
/// scaffolding is broken, every returned position collapses. The start
/// block comes first if it is scaffolding; otherwise nothing is returned.
pub fn scaffolding_collapse_chain<F: Fn(i32, i32, i32) -> bool>(
    start: (i32, i32, i32),
    is_scaffolding: &F,
    max_distance: u8,
) -> (visited: Vec<(i32, i32, i32)>)
    requires
        forall|x: i32, y: i32, z: i32| call_requires(*is_scaffolding, (x, y, z)),
    ensures
        visited@.len() == 0 || visited@[0] == start,
        visited@.no_duplicates(),
        forall|i: int| 0 <= i < visited@.len() ==> {
            &&& (#[trigger] visited@[i]).1 == start.1
            &&& horizontal_distance(visited@[i], start) <= max_distance
            &&& reported_scaffolding(*is_scaffolding, visited@[i])
        },
        visited@.len() == 0 ==> call_ensures(*is_scaffolding, (start.0, start.1, start.2), false),
        forall|i: int|
            #![trigger visited@[i]]
            0 <= i < visited@.len() ==> exists|w: Seq<(i32, i32, i32)>|
                #[trigger] reported_scaffold_walk(*is_scaffolding, w) && w[0] == start && w.last() == visited@[i]
                    && w.len() <= max_distance + 1,
        forall|w: Seq<(i32, i32, i32)>|
            scaffold_walk(*is_scaffolding, w) && w[0] == start && w.len() <= max_distance + 1
                ==> visited@.contains(#[trigger] w.last()),
{
    if !is_scaffolding(start.0, start.1, start.2) {
        return Vec::new();
    }
    let max = max_distance as i32;
    let ghost m = max as int;
    let mut visited: Vec<(i32, i32, i32)> = Vec::new();
    let mut dist: Vec<i32> = Vec::new();
    visited.push(start);
    dist.push(0);
    let mut head: usize = 0;
    proof {
        lemma_square_bound(visited@, start, m);
        let w0 = seq![start];
        assert(w0[0] == start);
        assert(reported_scaffold_walk(*is_scaffolding, w0));
        assert(reaches(*is_scaffolding, start, visited@[0], dist@[0] + 1));
    }
    while head < visited.len()
        invariant
            0 <= m == max <= 255,
            forall|x: i32, y: i32, z: i32| call_requires(*is_scaffolding, (x, y, z)),
            visited@.len() >= 1,
            visited@[0] == start,
            dist@.len() == visited@.len(),
            dist@[0] == 0,
            head <= visited@.len(),
            visited@.no_duplicates(),
            forall|i: int| 0 <= i < visited@.len() ==> {
                &&& (#[trigger] visited@[i]).1 == start.1
                &&& 0 <= dist@[i] <= m
                &&& horizontal_distance(visited@[i], start) <= dist@[i]
                &&& reported_scaffolding(*is_scaffolding, visited@[i])
            },
            forall|i: int, j: int| 0 <= i < j < visited@.len() ==> dist@[i] <= dist@[j],
            forall|i: int| 0 <= i < visited@.len() ==> reaches(*is_scaffolding, start, #[trigger] visited@[i], dist@[i] + 1),
            head < visited@.len() ==> forall|j: int| 0 <= j < visited@.len() ==> dist@[j] <= dist@[head as int] + 1,
            forall|i: int| 0 <= i < head && dist@[i] < m ==> forall|n: (i32, i32, i32)|
                #![trigger is_horizontal_neighbour(n, visited@[i])]
                is_horizontal_neighbour(n, visited@[i]) && surely_scaffolding(*is_scaffolding, n) ==> exists|k: int|
                    0 <= k < visited@.len() && visited@[k] == n && dist@[k] <= dist@[i] + 1,
            visited@.len() <= (2 * m + 1) * (2 * m + 1),
        decreases (2 * m + 1) * (2 * m + 1) - head,
    {
        let h0 = head;
        let (x, y, z) = visited[h0];
        let d = dist[h0];
        head = head + 1;
        if d >= max {
            continue;
        }
        let ghost p = visited@[h0 as int];
        let mut dir: usize = 0;
        while dir < 4
            invariant
                0 <= m == max <= 255,
                forall|x: i32, y: i32, z: i32| call_requires(*is_scaffolding, (x, y, z)),
                h0 < head,
                head == h0 + 1,
                head <= visited@.len(),
                visited@.len() >= 1,
                visited@[0] == start,
                dist@.len() == visited@.len(),
                dist@[0] == 0,
                p == visited@[h0 as int],
                p == (x, y, z),
                d == dist@[h0 as int],
                0 <= d < m,
                y == start.1,
                horizontal_distance((x, y, z), start) <= d,
                visited@.no_duplicates(),
                forall|i: int| 0 <= i < visited@.len() ==> {
                    &&& (#[trigger] visited@[i]).1 == start.1
                    &&& 0 <= dist@[i] <= m
                    &&& horizontal_distance(visited@[i], start) <= dist@[i]
                    &&& reported_scaffolding(*is_scaffolding, visited@[i])
                },
                forall|i: int, j: int| 0 <= i < j < visited@.len() ==> dist@[i] <= dist@[j],
                forall|i: int| 0 <= i < visited@.len() ==> reaches(*is_scaffolding, start, #[trigger] visited@[i], dist@[i] + 1),
                forall|j: int| 0 <= j < visited@.len() ==> dist@[j] <= d + 1,
                forall|i: int| 0 <= i < h0 && dist@[i] < m ==> forall|n: (i32, i32, i32)|
                    #![trigger is_horizontal_neighbour(n, visited@[i])]
                    is_horizontal_neighbour(n, visited@[i]) && surely_scaffolding(*is_scaffolding, n) ==> exists|k: int|
                        0 <= k < visited@.len() && visited@[k] == n && dist@[k] <= dist@[i] + 1,
                forall|n: (i32, i32, i32)|
                    #![trigger is_horizontal_neighbour(n, p)]
                    is_horizontal_neighbour(n, p) && surely_scaffolding(*is_scaffolding, n) && neighbour_index(p, n)
                        < dir ==> exists|k: int| 0 <= k < visited@.len() && visited@[k] == n && dist@[k] <= d + 1,
                visited@.len() <= (2 * m + 1) * (2 * m + 1),
                dir <= 4,
            decreases 4 - dir,
        {
            let (dx, dz): (i32, i32) = if dir == 0 {
                (1, 0)
            } else if dir == 1 {
                (-1, 0)
            } else if dir == 2 {
                (0, 1)
            } else {
                (0, -1)
            };
            let ghost this_dir = dir as int;
            dir = dir + 1;
            let nx = x.checked_add(dx);
            let nz = z.checked_add(dz);
            proof {
                assert forall|n: (i32, i32, i32)|
                    is_horizontal_neighbour(n, p) && neighbour_index(p, n) == this_dir implies nx == Some(n.0)
                        && nz == Some(n.2) && n.1 == y by {}
            }
            if nx.is_none() || nz.is_none() {
                continue;
            }
            let nx = nx.unwrap();
            let nz = nz.unwrap();
            let ghost q = (nx, y, nz);
            if contains_pos(&visited, (nx, y, nz)) {
                proof {
                    let k = choose|k: int| 0 <= k < visited@.len() && visited@[k] == q;
                    assert(visited@[k] == q && dist@[k] <= d + 1);
                }
                continue;
            }
            let scaffolding = is_scaffolding(nx, y, nz);
            if scaffolding {
                let ghost old_visited = visited@;
                let ghost old_dist = dist@;
                visited.push((nx, y, nz));
                dist.push(d + 1);
                proof {
                    assert forall|i: int, j: int| 0 <= i < j < visited@.len() implies visited@[i] != visited@[j] by {
                        if j == visited@.len() - 1 {
                            assert(visited@[i] == old_visited[i]);
                            assert(old_visited.contains(old_visited[i]));
                        }
                    }
                    assert(horizontal_distance(q, start) <= d + 1);
                    assert(reaches(*is_scaffolding, start, p, d + 1));
                    lemma_reaches_step(*is_scaffolding, start, p, q, d + 1);
                    assert forall|i: int| 0 <= i < visited@.len() implies reaches(
                        *is_scaffolding,
                        start,
                        #[trigger] visited@[i],
                        dist@[i] + 1,
                    ) by {
                        if i < old_visited.len() {
                            assert(visited@[i] == old_visited[i] && dist@[i] == old_dist[i]);
                        }
                    }
                    lemma_square_bound(visited@, start, m);
                    assert forall|i: int| 0 <= i < h0 && dist@[i] < m implies forall|n: (i32, i32, i32)|
                        #![trigger is_horizontal_neighbour(n, visited@[i])]
                        is_horizontal_neighbour(n, visited@[i]) && surely_scaffolding(*is_scaffolding, n) ==> exists|k: int|
                            0 <= k < visited@.len() && visited@[k] == n && dist@[k] <= dist@[i] + 1 by {
                        assert(visited@[i] == old_visited[i]);
                        assert(dist@[i] == old_dist[i]);
                        assert forall|n: (i32, i32, i32)|
                            is_horizontal_neighbour(n, visited@[i]) && surely_scaffolding(*is_scaffolding, n) implies exists|k: int|
                                0 <= k < visited@.len() && visited@[k] == n && dist@[k] <= dist@[i] + 1 by {
                            let k = choose|k: int| 0 <= k < old_visited.len() && old_visited[k] == n && old_dist[k] <= old_dist[i] + 1;
                            assert(visited@[k] == old_visited[k] && dist@[k] == old_dist[k]);
                        }
                    }
                    assert forall|n: (i32, i32, i32)|
                        is_horizontal_neighbour(n, p) && surely_scaffolding(*is_scaffolding, n) && neighbour_index(p, n)
                            < dir implies exists|k: int| 0 <= k < visited@.len() && visited@[k] == n && dist@[k] <= d + 1 by {
                        if neighbour_index(p, n) == this_dir {
                            let k = visited@.len() - 1;
                            assert(visited@[k] == n && dist@[k] == d + 1);
                        } else {
                            let k = choose|k: int| 0 <= k < old_visited.len() && old_visited[k] == n && old_dist[k] <= d + 1;
                            assert(visited@[k] == old_visited[k] && dist@[k] == old_dist[k]);
                        }
                    }
                }
            } else {
                proof {
                    assert forall|n: (i32, i32, i32)|
                        is_horizontal_neighbour(n, p) && surely_scaffolding(*is_scaffolding, n) && neighbour_index(p, n)
                            == this_dir implies false by {
                        assert(n == q);
                    }
                }
            }
        }
    }
    proof {
        assert forall|i: int|
            #![trigger visited@[i]]
            0 <= i < visited@.len() implies exists|w: Seq<(i32, i32, i32)>|
                #[trigger] reported_scaffold_walk(*is_scaffolding, w) && w[0] == start && w.last() == visited@[i]
                    && w.len() <= max_distance + 1 by {
            assert(reaches(*is_scaffolding, start, visited@[i], dist@[i] + 1));
        }
        assert forall|w: Seq<(i32, i32, i32)>|
            scaffold_walk(*is_scaffolding, w) && w[0] == start && w.len() <= max_distance + 1
                implies visited@.contains(#[trigger] w.last()) by {
            lemma_walk_reached(visited@, dist@, *is_scaffolding, w, m, (w.len() - 1) as int);
            let k = choose|k: int| 0 <= k < visited@.len() && visited@[k] == w[w.len() - 1] && dist@[k] <= w.len() - 1;
            assert(visited@[k] == w.last());
        }
    }
    visited
}

/// The index, in the search's neighbour order (+x, -x, +z, -z), of the
/// direction from `s` to its horizontal neighbour `n`.
spec fn neighbour_index(s: (i32, i32, i32), n: (i32, i32, i32)) -> int {
    if n.0 == s.0 + 1 {
        0
    } else if n.0 == s.0 - 1 {
        1
    } else if n.2 == s.2 + 1 {
        2
    } else {
        3
    }
}

/// In a finished breadth-first search, the `j`-th position of a walk from
/// the start is reached at depth at most `j`, for `j` up to the depth bound.
proof fn lemma_walk_reached<F: Fn(i32, i32, i32) -> bool>(
    visited: Seq<(i32, i32, i32)>,
    dist: Seq<i32>,
    f: F,
    w: Seq<(i32, i32, i32)>,
    m: int,
    j: int,
)
    requires
        visited.len() >= 1,
        dist.len() == visited.len(),
        dist[0] == 0,
        scaffold_walk(f, w),
        w[0] == visited[0],
        0 <= j < w.len(),
        j <= m,
        forall|i: int| 0 <= i < visited.len() && dist[i] < m ==> forall|n: (i32, i32, i32)|
            #![trigger is_horizontal_neighbour(n, visited[i])]
            is_horizontal_neighbour(n, visited[i]) && surely_scaffolding(f, n) ==> exists|k: int|
                0 <= k < visited.len() && visited[k] == n && dist[k] <= dist[i] + 1,
    ensures
        exists|k: int| 0 <= k < visited.len() && visited[k] == w[j] && dist[k] <= j,
    decreases j,
{
    if j == 0 {
        assert(visited[0] == w[0] && dist[0] <= 0);
    } else {
        lemma_walk_reached(visited, dist, f, w, m, j - 1);
        let i = choose|i: int| 0 <= i < visited.len() && visited[i] == w[j - 1] && dist[i] <= j - 1;
        assert(is_horizontal_neighbour(w[j], w[j - 1]));
        assert(surely_scaffolding(f, w[j]));
        assert(is_horizontal_neighbour(w[j], visited[i]));
    }
}

} // verus!
