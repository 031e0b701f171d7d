//! Block ordering: successors, depth-first order and reverse postorder.

use vstd::prelude::*;
use std::collections::HashMap;
use crate::ir::{BlockId, KirFunction, Terminator};

verus! {

broadcast use vstd::std_specs::hash::group_hash_axioms;

/// The successors of a terminator, in order: the jump target; the then and else
/// targets; the case targets followed by the default target.
pub open spec fn spec_term_succs(t: Terminator) -> Seq<BlockId> {
    match t {
        Terminator::Return(_) => Seq::empty(),
        Terminator::Unreachable => Seq::empty(),
        Terminator::Jump(target) => seq![target.block],
        Terminator::Branch { then_target, else_target, .. } => seq![then_target.block, else_target.block],
        Terminator::Switch { cases, default, .. } => {
            let cs = cases@.map_values(|c: crate::ir::SwitchCase| c.target.block);
            match default {
                Some(d) => cs.push(d.block),
                None => cs,
            }
        },
    }
}

/// The successors of block `b` (none when it has no terminator).
pub open spec fn spec_succs(f: &KirFunction, b: BlockId) -> Seq<BlockId> {
    match f.blocks@[b as int].terminator {
        Some(t) => spec_term_succs(t),
        None => Seq::empty(),
    }
}

/// Whether the block graph of `f` is well formed: the entry and every successor
/// name an existing block, and block ids fit in 32 bits.
pub open spec fn blocks_wf(f: &KirFunction) -> bool {
    &&& f.blocks@.len() <= u32::MAX
    &&& f.entry_block < f.blocks@.len()
    &&& forall|b: BlockId, k: int|
        b < f.blocks@.len() && 0 <= k < spec_succs(f, b).len() ==> #[trigger] spec_succs(f, b)[k]
            < f.blocks@.len()
}

/// The successor blocks of `block_id`, in order.
pub fn successor_blocks(f: &KirFunction, block_id: BlockId) -> (r: Vec<BlockId>)
    requires
        block_id < f.blocks@.len(),
    ensures
        r@ == spec_succs(f, block_id),
{
    let term = match &f.blocks[block_id as usize].terminator {
        Some(t) => t,
        None => {
            return Vec::new();
        },
    };
    match term {
        Terminator::Return(_) | Terminator::Unreachable => Vec::new(),
        Terminator::Jump(target) => {
            let mut v = Vec::new();
            v.push(target.block);
            v
        },
        Terminator::Branch { then_target, else_target, .. } => {
            let mut v = Vec::new();
            v.push(then_target.block);
            v.push(else_target.block);
            v
        },
        Terminator::Switch { cases, default, .. } => {
            let mut succs: Vec<BlockId> = Vec::new();
            let mut i: usize = 0;
            while i < cases.len()
                invariant
                    0 <= i <= cases@.len(),
                    succs@ == cases@.take(i as int).map_values(|c: crate::ir::SwitchCase| c.target.block),
                decreases cases@.len() - i,
            {
                succs.push(cases[i].target.block);
                i = i + 1;
                assert(succs@ =~= cases@.take(i as int).map_values(|c: crate::ir::SwitchCase| c.target.block));
            }
            assert(cases@.take(i as int) =~= cases@);
            if let Some(d) = default {
                succs.push(d.block);
            }
            succs
        },
    }
}

/// Number of unvisited entries.
pub open spec fn unvisited(vis: Seq<bool>) -> nat
    decreases vis.len(),
{
    if vis.len() == 0 {
        0
    } else {
        unvisited(vis.drop_last()) + if vis.last() { 0nat } else { 1nat }
    }
}

pub proof fn lemma_unvisited_mark(vis: Seq<bool>, i: int)
    requires
        0 <= i < vis.len(),
        !vis[i],
    ensures
        unvisited(vis.update(i, true)) + 1 == unvisited(vis),
    decreases vis.len(),
{
    if i == vis.len() - 1 {
        assert(vis.update(i, true).drop_last() =~= vis.drop_last());
    } else {
        assert(vis.update(i, true).drop_last() =~= vis.drop_last().update(i, true));
        lemma_unvisited_mark(vis.drop_last(), i);
    }
}

proof fn lemma_unvisited_zero(vis: Seq<bool>, i: int)
    requires
        0 <= i < vis.len(),
        unvisited(vis) == 0,
    ensures
        vis[i],
    decreases vis.len(),
{
    if i < vis.len() - 1 {
        assert(vis.drop_last()[i] == vis[i]);
        lemma_unvisited_zero(vis.drop_last(), i);
    }
}

/// Depth-first search from `b` over the successor order: marks `b` visited, searches
/// its successors in order, then appends `b` to the postorder. A visited block is
/// left as it is. `fuel` bounds the depth.
pub open spec fn spec_dfs(f: &KirFunction, b: BlockId, vis: Seq<bool>, post: Seq<BlockId>, fuel: nat) -> (Seq<bool>, Seq<BlockId>)
    decreases fuel, 0nat,
{
    if fuel == 0 || b >= vis.len() || vis[b as int] {
        (vis, post)
    } else {
        let r = spec_dfs_succs(f, spec_succs(f, b), 0, vis.update(b as int, true), post, (fuel - 1) as nat);
        (r.0, r.1.push(b))
    }
}

/// Depth-first search from each of `succs[i..]` in turn.
pub open spec fn spec_dfs_succs(f: &KirFunction, succs: Seq<BlockId>, i: int, vis: Seq<bool>, post: Seq<BlockId>, fuel: nat) -> (Seq<bool>, Seq<BlockId>)
    decreases fuel, succs.len() - i + 1,
{
    if i < 0 || i >= succs.len() {
        (vis, post)
    } else {
        let r = spec_dfs(f, succs[i], vis, post, fuel);
        spec_dfs_succs(f, succs, i + 1, r.0, r.1, fuel)
    }
}

/// The depth-first postorder of the blocks reachable from the entry block.
pub open spec fn spec_postorder(f: &KirFunction) -> Seq<BlockId> {
    spec_dfs(f, f.entry_block, Seq::new(f.blocks@.len(), |i: int| false), Seq::empty(), f.blocks@.len()).1
}

fn dfs(f: &KirFunction, b: BlockId, visited: &mut Vec<bool>, postorder: &mut Vec<BlockId>, Ghost(fuel): Ghost<nat>)
    requires
        blocks_wf(f),
        b < f.blocks@.len(),
        old(visited)@.len() == f.blocks@.len(),
        fuel >= unvisited(old(visited)@),
        old(postorder)@.len() + unvisited(old(visited)@) <= f.blocks@.len(),
    ensures
        (final(visited)@, final(postorder)@) == spec_dfs(f, b, old(visited)@, old(postorder)@, fuel),
        final(visited)@.len() == old(visited)@.len(),
        unvisited(final(visited)@) <= unvisited(old(visited)@),
        final(postorder)@.len() + unvisited(final(visited)@) == old(postorder)@.len() + unvisited(
            old(visited)@,
        ),
    decreases fuel,
{
    if visited[b as usize] {
        return;
    }
    proof {
        lemma_unvisited_mark(visited@, b as int);
    }
    visited.set(b as usize, true);
    let succs = successor_blocks(f, b);
    let ghost vis1 = visited@;
    let ghost post0 = postorder@;
    let mut i: usize = 0;
    while i < succs.len()
        invariant
            blocks_wf(f),
            b < f.blocks@.len(),
            succs@ == spec_succs(f, b),
            0 <= i <= succs@.len(),
            fuel >= 1,
            visited@.len() == f.blocks@.len(),
            (fuel - 1) as nat >= unvisited(visited@),
            unvisited(visited@) <= unvisited(vis1),
            postorder@.len() + unvisited(visited@) == post0.len() + unvisited(vis1),
            post0.len() + unvisited(vis1) < f.blocks@.len(),
            spec_dfs_succs(f, succs@, 0, vis1, post0, (fuel - 1) as nat)
                == spec_dfs_succs(f, succs@, i as int, visited@, postorder@, (fuel - 1) as nat),
        decreases succs@.len() - i,
    {
        assert(succs@[i as int] < f.blocks@.len());
        dfs(f, succs[i], visited, postorder, Ghost((fuel - 1) as nat));
        i = i + 1;
    }
    postorder.push(b);
}

/// Compute the reverse postorder of the blocks reachable from the entry block.
pub fn reverse_postorder(f: &KirFunction) -> (rpo: Vec<BlockId>)
    requires
        blocks_wf(f),
    ensures
        rpo@ == spec_postorder(f).reverse(),
{
    let n = f.blocks.len();
    let mut visited: Vec<bool> = Vec::new();
    let mut k: usize = 0;
    while k < n
        invariant
            0 <= k <= n,
            n == f.blocks@.len(),
            visited@ == Seq::new(k as nat, |i: int| false),
        decreases n - k,
    {
        visited.push(false);
        k = k + 1;
        assert(visited@ =~= Seq::new(k as nat, |i: int| false));
    }
    proof {
        lemma_unvisited_all_false(n as nat);
    }
    let mut postorder: Vec<BlockId> = Vec::new();
    dfs(f, f.entry_block, &mut visited, &mut postorder, Ghost(n as nat));
    let mut rpo: Vec<BlockId> = Vec::new();
    let mut j: usize = postorder.len();
    while j > 0
        invariant
            0 <= j <= postorder@.len(),
            rpo@ == postorder@.subrange(j as int, postorder@.len() as int).reverse(),
        decreases j,
    {
        j = j - 1;
        rpo.push(postorder[j]);
        assert(rpo@ =~= postorder@.subrange(j as int, postorder@.len() as int).reverse());
    }
    assert(postorder@.subrange(0, postorder@.len() as int) =~= postorder@);
    rpo
}

pub proof fn lemma_unvisited_all_false(n: nat)
    ensures
        unvisited(Seq::new(n, |i: int| false)) == n,
    decreases n,
{
    if n > 0 {
        assert(Seq::new(n, |i: int| false).drop_last() =~= Seq::new((n - 1) as nat, |i: int| false));
        lemma_unvisited_all_false((n - 1) as nat);
    }
}

/// Position of each block in a reverse postorder (the last occurrence wins).
pub open spec fn spec_index_map(rpo: Seq<BlockId>) -> Map<BlockId, usize>
    decreases rpo.len(),
{
    if rpo.len() == 0 {
        Map::empty()
    } else {
        spec_index_map(rpo.drop_last()).insert(rpo.last(), (rpo.len() - 1) as usize)
    }
}

/// Build a map from each block to its index in the RPO ordering.
pub fn rpo_index_map(rpo: &[BlockId]) -> (m: HashMap<BlockId, usize>)
    ensures
        m@ == spec_index_map(rpo@),
{
    let mut m: HashMap<BlockId, usize> = HashMap::new();
    let mut i: usize = 0;
    while i < rpo.len()
        invariant
            0 <= i <= rpo@.len(),
            m@ == spec_index_map(rpo@.take(i as int)),
        decreases rpo@.len() - i,
    {
        assert(rpo@.take(i + 1).drop_last() =~= rpo@.take(i as int));
        m.insert(rpo[i], i);
        i = i + 1;
    }
    assert(rpo@.take(i as int) =~= rpo@);
    m
}

/// Whether block `y` is a successor of block `x`.
pub open spec fn edge(f: &KirFunction, x: BlockId, y: BlockId) -> bool {
    x < f.blocks@.len() && spec_succs(f, x).contains(y)
}

/// Whether consecutive blocks of `p` are joined by successor edges.
pub open spec fn is_walk(f: &KirFunction, p: Seq<BlockId>) -> bool {
    forall|i: int| 0 <= i < p.len() - 1 ==> #[trigger] edge(f, p[i], p[i + 1])
}

/// Whether a walk of `n` successor edges leads from block `a` to block `b`.
pub open spec fn walk(f: &KirFunction, a: BlockId, b: BlockId, n: nat) -> bool {
    exists|p: Seq<BlockId>| p.len() == n + 1 && p[0] == a && p[n as int] == b && #[trigger] is_walk(f, p)
}

/// A walk extended by one edge.
proof fn lemma_walk_extend(f: &KirFunction, a: BlockId, m: BlockId, b: BlockId, n: nat)
    requires
        walk(f, a, m, n),
        m < f.blocks@.len(),
        spec_succs(f, m).contains(b),
    ensures
        walk(f, a, b, n + 1),
{
    let p = choose|p: Seq<BlockId>| p.len() == n + 1 && p[0] == a && p[n as int] == m && #[trigger] is_walk(f, p);
    let q = p.push(b);
    assert forall|i: int| 0 <= i < q.len() - 1 implies #[trigger] edge(f, q[i], q[i + 1]) by {
        if i < n {
            assert(q[i] == p[i] && q[i + 1] == p[i + 1]);
            assert(edge(f, p[i], p[i + 1]));
        } else {
            assert(q[i] == m && q[i + 1] == b);
        }
    }
    assert(is_walk(f, q));
}

/// A nonempty walk ends with an edge from the end of a shorter walk.
proof fn lemma_walk_last(f: &KirFunction, a: BlockId, b: BlockId, n: nat) -> (m: BlockId)
    requires
        walk(f, a, b, n),
        n > 0,
    ensures
        walk(f, a, m, (n - 1) as nat),
        m < f.blocks@.len(),
        spec_succs(f, m).contains(b),
{
    let p = choose|p: Seq<BlockId>| p.len() == n + 1 && p[0] == a && p[n as int] == b && #[trigger] is_walk(f, p);
    let q = p.take(n as int);
    assert forall|i: int| 0 <= i < q.len() - 1 implies #[trigger] edge(f, q[i], q[i + 1]) by {
        assert(q[i] == p[i] && q[i + 1] == p[i + 1]);
        assert(edge(f, p[i], p[i + 1]));
    }
    assert(is_walk(f, q));
    assert(edge(f, p[n - 1], p[n - 1 + 1]));
    p[n - 1]
}

/// The empty walk.
proof fn lemma_walk_zero(f: &KirFunction, a: BlockId)
    ensures
        walk(f, a, a, 0),
{
    let p = seq![a];
    assert(is_walk(f, p));
}

/// Whether block `b` can be reached from block `a` by following successor edges.
pub open spec fn reaches(f: &KirFunction, a: BlockId, b: BlockId) -> bool {
    exists|n: nat| #[trigger] walk(f, a, b, n)
}

/// Number of unset entries.
pub open spec fn count_none(d: Seq<Option<usize>>) -> nat
    decreases d.len(),
{
    if d.len() == 0 {
        0
    } else {
        count_none(d.drop_last()) + if d.last() is None { 1nat } else { 0nat }
    }
}

proof fn lemma_count_none_set(d: Seq<Option<usize>>, i: int, v: usize)
    requires
        0 <= i < d.len(),
    ensures
        d[i] is None ==> count_none(d.update(i, Some(v))) + 1 == count_none(d),
        d[i] is Some ==> count_none(d.update(i, Some(v))) == count_none(d),
    decreases d.len(),
{
    if i == d.len() - 1 {
        assert(d.update(i, Some(v)).drop_last() =~= d.drop_last());
    } else {
        assert(d.update(i, Some(v)).drop_last() =~= d.drop_last().update(i, Some(v)));
        lemma_count_none_set(d.drop_last(), i, v);
    }
}

proof fn lemma_count_none_all(d: Seq<Option<usize>>)
    requires
        forall|k: int| 0 <= k < d.len() ==> d[k] is None,
    ensures
        count_none(d) == d.len(),
    decreases d.len(),
{
    if d.len() > 0 {
        lemma_count_none_all(d.drop_last());
    }
}

proof fn lemma_count_none_bound(d: Seq<Option<usize>>)
    ensures
        count_none(d) <= d.len(),
    decreases d.len(),
{
    if d.len() > 0 {
        lemma_count_none_bound(d.drop_last());
    }
}

/// Every block that a walk from `start` reaches is set in `dist`, where `start` is
/// set and every set block's successors are set.
proof fn lemma_closed_reaches(f: &KirFunction, start: BlockId, dist: Seq<Option<usize>>, b: BlockId, n: nat)
    requires
        blocks_wf(f),
        dist.len() == f.blocks@.len(),
        start < dist.len(),
        dist[start as int] is Some,
        forall|x: BlockId, k: int|
            x < dist.len() && dist[x as int] is Some && 0 <= k < spec_succs(f, x).len()
                ==> #[trigger] dist[spec_succs(f, x)[k] as int] is Some,
        walk(f, start, b, n),
    ensures
        b < dist.len() && dist[b as int] is Some,
    decreases n,
{
    if n > 0 {
        let m = lemma_walk_last(f, start, b, n);
        lemma_closed_reaches(f, start, dist, m, (n - 1) as nat);
        let k = choose|k: int| 0 <= k < spec_succs(f, m).len() && spec_succs(f, m)[k] == b;
        assert(dist[spec_succs(f, m)[k] as int] is Some);
    }
}

/// For each block, a walk length from `start` to it, for exactly the blocks that
/// `start` reaches, found breadth-first: a block gets one more than the length of
/// the last processed block that leads to it.
pub fn reachable_block_distances(f: &KirFunction, start: BlockId) -> (r: Vec<Option<usize>>)
    requires
        blocks_wf(f),
        start < f.blocks@.len(),
    ensures
        r@.len() == f.blocks@.len(),
        forall|b: BlockId| b < f.blocks@.len() ==> (r@[b as int] is Some <==> reaches(f, start, b)),
        forall|b: BlockId| b < f.blocks@.len() ==> (#[trigger] r@[b as int] matches Some(d) ==> walk(f, start, b, d as nat) && d <= f.blocks@.len()),
{
    let n = f.blocks.len();
    let mut dist: Vec<Option<usize>> = Vec::new();
    let mut i: usize = 0;
    while i < n
        invariant
            0 <= i <= n,
            dist@.len() == i,
            forall|k: int| 0 <= k < i ==> dist@[k] is None,
        decreases n - i,
    {
        dist.push(None);
        i = i + 1;
    }
    proof {
        lemma_walk_zero(f, start);
        lemma_count_none_all(dist@);
        lemma_count_none_set(dist@, start as int, 0);
    }
    dist.set(start as usize, Some(0));
    let mut queue: Vec<BlockId> = Vec::new();
    queue.push(start);
    let mut head: usize = 0;
    proof {
        lemma_count_none_bound(dist@);
        assert forall|b: BlockId| b < n && dist@[b as int] is Some implies exists|k: int| 0 <= k < queue@.len() && #[trigger] queue@[k] == b by {
            assert(b == start);
            assert(queue@[0] == b);
        }
    }
    while head < queue.len()
        invariant
            n == f.blocks@.len(),
            blocks_wf(f),
            start < n,
            dist@.len() == n,
            0 <= head <= queue@.len(),
            dist@[start as int] is Some,
            forall|k: int| 0 <= k < queue@.len() ==> #[trigger] queue@[k] < n,
            forall|k: int| 0 <= k < queue@.len() ==> dist@[#[trigger] queue@[k] as int] is Some,
            forall|b: BlockId| b < n && dist@[b as int] is Some ==> exists|k: int| 0 <= k < queue@.len() && #[trigger] queue@[k] == b,
            forall|k: int, j: int|
                0 <= k < head && 0 <= j < spec_succs(f, queue@[k]).len()
                    ==> dist@[#[trigger] spec_succs(f, #[trigger] queue@[k])[j] as int] is Some,
            forall|b: BlockId| b < n ==> (#[trigger] dist@[b as int] matches Some(d) ==> walk(f, start, b, d as nat) && d <= head),
            queue@.len() - head + n <= 2 * n + 1,
            queue@.len() + count_none(dist@) == n,
        decreases 2 * count_none(dist@) + queue@.len() - head,
    {
        let block_id = queue[head];
        let distance: usize = match dist[block_id as usize] {
            Some(d) => d,
            None => 0,
        };
        let succs = successor_blocks(f, block_id);
        let ghost dist_before = dist@;
        assert(walk(f, start, block_id, distance as nat));
        let ghost queue_before = queue@;
        let mut j: usize = 0;
        while j < succs.len()
            invariant
                n == f.blocks@.len(),
                blocks_wf(f),
                start < n,
                dist@.len() == n,
                0 <= head < queue@.len(),
                block_id == queue@[head as int],
                block_id < n,
                dist_before[block_id as int] == Some(distance),
                walk(f, start, block_id, distance as nat),
                distance <= head,
                succs@ == spec_succs(f, block_id),
                0 <= j <= succs@.len(),
                queue_before.len() <= queue@.len(),
                forall|k: int| 0 <= k < queue_before.len() ==> #[trigger] queue@[k] == queue_before[k],
                dist@[start as int] is Some,
                forall|k: int| 0 <= k < queue@.len() ==> #[trigger] queue@[k] < n,
                forall|k: int| 0 <= k < queue@.len() ==> dist@[#[trigger] queue@[k] as int] is Some,
                forall|b: BlockId| b < n && dist@[b as int] is Some ==> exists|k: int| 0 <= k < queue@.len() && #[trigger] queue@[k] == b,
                forall|b: BlockId| b < n && dist_before[b as int] is Some ==> dist@[b as int] is Some,
                forall|k: int, i: int|
                    0 <= k < head && 0 <= i < spec_succs(f, queue@[k]).len()
                        ==> dist@[#[trigger] spec_succs(f, #[trigger] queue@[k])[i] as int] is Some,
                forall|i: int| 0 <= i < j ==> dist@[#[trigger] succs@[i] as int] is Some,
                forall|b: BlockId| b < n ==> (#[trigger] dist@[b as int] matches Some(d) ==> walk(f, start, b, d as nat) && d <= head + 1),
                queue@.len() + count_none(dist@) == n,
            decreases succs@.len() - j,
        {
            let succ = succs[j];
            assert(succ < n) by {
                assert(spec_succs(f, block_id)[j as int] == succ);
            }
            assert(walk(f, start, succ, (distance + 1) as nat)) by {
                assert(spec_succs(f, block_id).contains(succ)) by {
                    assert(spec_succs(f, block_id)[j as int] == succ);
                }
                lemma_walk_extend(f, start, block_id, succ, distance as nat);
            }
            let was_none = dist[succ as usize].is_none();
            let ghost q_old = queue@;
            let ghost d_old = dist@;
            proof {
                lemma_count_none_set(dist@, succ as int, (distance + 1) as usize);
            }
            dist.set(succ as usize, Some(distance + 1));
            if was_none {
                queue.push(succ);
            }
            j = j + 1;
            proof {
                assert forall|b: BlockId| b < n && dist@[b as int] is Some implies exists|k: int| 0 <= k < queue@.len() && #[trigger] queue@[k] == b by {
                    if b == succ && was_none {
                        assert(queue@[queue@.len() - 1] == b);
                    } else {
                        assert(d_old[b as int] is Some);
                        let k = choose|k: int| 0 <= k < q_old.len() && #[trigger] q_old[k] == b;
                        assert(queue@[k] == b);
                    }
                }
            }
        }
        head = head + 1;
        proof {
            assert forall|k: int, i: int|
                0 <= k < head && 0 <= i < spec_succs(f, queue@[k]).len()
                    implies dist@[#[trigger] spec_succs(f, #[trigger] queue@[k])[i] as int] is Some by {
                if k == head - 1 {
                    assert(succs@[i] == spec_succs(f, queue@[k])[i]);
                }
            }
            lemma_count_none_bound(dist@);
        }
    }
    proof {
        assert forall|x: BlockId, k: int|
            x < dist@.len() && dist@[x as int] is Some && 0 <= k < spec_succs(f, x).len()
                implies #[trigger] dist@[spec_succs(f, x)[k] as int] is Some by {
            let q = choose|q: int| 0 <= q < queue@.len() && #[trigger] queue@[q] == x;
            assert(spec_succs(f, queue@[q])[k] == spec_succs(f, x)[k]);
        }
        assert forall|b: BlockId| b < f.blocks@.len() implies (dist@[b as int] is Some <==> reaches(f, start, b)) by {
            if dist@[b as int] is Some {
                let d = dist@[b as int]->Some_0;
                assert(walk(f, start, b, d as nat));
            }
            if reaches(f, start, b) {
                let m = choose|m: nat| #[trigger] walk(f, start, b, m);
                lemma_closed_reaches(f, start, dist@, b, m);
            }
        }
    }
    dist
}


/// A walk preceded by one edge.
proof fn lemma_walk_prepend(f: &KirFunction, a: BlockId, m: BlockId, b: BlockId, n: nat)
    requires
        edge(f, a, m),
        walk(f, m, b, n),
    ensures
        walk(f, a, b, n + 1),
{
    let p = choose|p: Seq<BlockId>| p.len() == n + 1 && p[0] == m && p[n as int] == b && #[trigger] is_walk(f, p);
    let q = seq![a] + p;
    assert forall|i: int| 0 <= i < q.len() - 1 implies #[trigger] edge(f, q[i], q[i + 1]) by {
        if i == 0 {
            assert(q[0] == a && q[1] == p[0]);
        } else {
            assert(q[i] == p[i - 1] && q[i + 1] == p[i]);
            assert(edge(f, p[i - 1], p[i - 1 + 1]));
        }
    }
    assert(is_walk(f, q));
    assert(q[(n + 1) as int] == b);
}

/// Visiting more blocks leaves no more unvisited.
proof fn lemma_unvisited_monotone(v0: Seq<bool>, v1: Seq<bool>)
    requires
        v0.len() == v1.len(),
        forall|x: int| 0 <= x < v0.len() && #[trigger] v0[x] ==> v1[x],
    ensures
        unvisited(v1) <= unvisited(v0),
    decreases v0.len(),
{
    if v0.len() > 0 {
        assert forall|x: int| 0 <= x < v0.drop_last().len() && #[trigger] v0.drop_last()[x] implies v1.drop_last()[x] by {
            assert(v0.drop_last()[x] == v0[x]);
            assert(v1.drop_last()[x] == v1[x]);
        }
        lemma_unvisited_monotone(v0.drop_last(), v1.drop_last());
        assert(v0.last() == v0[v0.len() - 1]);
    }
}

/// `vis1` and `post1` extend `vis0` and `post0` as a depth-first search does: what
/// was visited stays visited, the postorder grows by exactly the newly visited
/// blocks, each once, and every successor of a newly finished block is visited.
pub open spec fn dfs_extends(
    f: &KirFunction,
    vis0: Seq<bool>,
    post0: Seq<BlockId>,
    vis1: Seq<bool>,
    post1: Seq<BlockId>,
) -> bool {
    &&& vis1.len() == vis0.len()
    &&& forall|x: int| 0 <= x < vis0.len() && #[trigger] vis0[x] ==> vis1[x]
    &&& post0.len() <= post1.len()
    &&& post1.take(post0.len() as int) == post0
    &&& forall|k: int|
        post0.len() <= k < post1.len() ==> (#[trigger] post1[k]) < vis0.len() && !vis0[post1[k] as int]
            && vis1[post1[k] as int]
    &&& forall|k: int, l: int| post0.len() <= k < l < post1.len() ==> #[trigger] post1[k] != #[trigger] post1[l]
    &&& forall|x: int|
        0 <= x < vis0.len() && #[trigger] vis1[x] && !vis0[x] ==> exists|k: int|
            post0.len() <= k < post1.len() && #[trigger] post1[k] == x
    &&& forall|k: int, j: int|
        post0.len() <= k < post1.len() && 0 <= j < spec_succs(f, post1[k]).len()
            ==> vis1[#[trigger] spec_succs(f, #[trigger] post1[k])[j] as int]
}

proof fn lemma_dfs_extends_refl(f: &KirFunction, vis: Seq<bool>, post: Seq<BlockId>)
    ensures
        dfs_extends(f, vis, post, vis, post),
{
    assert(post.take(post.len() as int) =~= post);
}

proof fn lemma_dfs_extends_trans(
    f: &KirFunction,
    v0: Seq<bool>,
    p0: Seq<BlockId>,
    v1: Seq<bool>,
    p1: Seq<BlockId>,
    v2: Seq<bool>,
    p2: Seq<BlockId>,
)
    requires
        blocks_wf(f),
        v0.len() == f.blocks@.len(),
        dfs_extends(f, v0, p0, v1, p1),
        dfs_extends(f, v1, p1, v2, p2),
    ensures
        dfs_extends(f, v0, p0, v2, p2),
{
    assert forall|k: int| 0 <= k < p1.len() implies p2[k] == p1[k] by {
        assert(p2.take(p1.len() as int)[k] == p2[k]);
    }
    assert(p2.take(p0.len() as int) =~= p0) by {
        assert forall|k: int| 0 <= k < p0.len() implies p2.take(p0.len() as int)[k] == p0[k] by {
            assert(p2[k] == p1[k]);
            assert(p1.take(p0.len() as int)[k] == p1[k]);
        }
    }
    assert forall|k: int|
        p0.len() <= k < p2.len() implies (#[trigger] p2[k]) < v0.len() && !v0[p2[k] as int] && v2[p2[k] as int] by {
        if k < p1.len() {
            assert(p2[k] == p1[k]);
            assert(v1[p1[k] as int]);
        } else {
            assert(!v1[p2[k] as int]);
        }
    }
    assert forall|k: int, l: int| p0.len() <= k < l < p2.len() implies #[trigger] p2[k] != #[trigger] p2[l] by {
        if l < p1.len() {
            assert(p2[k] == p1[k] && p2[l] == p1[l]);
        } else if k < p1.len() {
            assert(p2[k] == p1[k]);
            assert(v1[p1[k] as int]);
            assert(!v1[p2[l] as int]);
        }
    }
    assert forall|x: int| 0 <= x < v0.len() && #[trigger] v2[x] && !v0[x] implies exists|k: int|
        p0.len() <= k < p2.len() && #[trigger] p2[k] == x by {
        if v1[x] {
            let k = choose|k: int| p0.len() <= k < p1.len() && #[trigger] p1[k] == x;
            assert(p2[k] == p1[k]);
        } else {
            let k = choose|k: int| p1.len() <= k < p2.len() && #[trigger] p2[k] == x;
            assert(p0.len() <= k);
        }
    }
    assert forall|k: int, j: int|
        p0.len() <= k < p2.len() && 0 <= j < spec_succs(f, p2[k]).len() implies v2[#[trigger] spec_succs(
        f,
        #[trigger] p2[k],
    )[j] as int] by {
        if k < p1.len() {
            assert(p2[k] == p1[k]);
            let y = spec_succs(f, p1[k])[j];
            assert(p1[k] < v0.len());
            assert(y < f.blocks@.len());
            assert(v1[y as int]);
        }
    }
}

/// What a depth-first search from `b` does: it extends the search state, visits
/// `b`, finishes only blocks that `b` reaches, and finishes `b` last where `b` was
/// not visited before.
proof fn lemma_dfs(f: &KirFunction, b: BlockId, vis: Seq<bool>, post: Seq<BlockId>, fuel: nat)
    requires
        blocks_wf(f),
        vis.len() == f.blocks@.len(),
        b < vis.len(),
        fuel >= unvisited(vis),
    ensures
        dfs_extends(f, vis, post, spec_dfs(f, b, vis, post, fuel).0, spec_dfs(f, b, vis, post, fuel).1),
        spec_dfs(f, b, vis, post, fuel).0[b as int],
        forall|k: int|
            post.len() <= k < spec_dfs(f, b, vis, post, fuel).1.len() ==> reaches(
                f,
                b,
                #[trigger] spec_dfs(f, b, vis, post, fuel).1[k],
            ),
        !vis[b as int] ==> spec_dfs(f, b, vis, post, fuel).1.len() > post.len()
            && spec_dfs(f, b, vis, post, fuel).1.last() == b,
    decreases fuel, 0nat,
{
    if fuel == 0 || vis[b as int] {
        if fuel == 0 {
            lemma_unvisited_zero(vis, b as int);
        }
        lemma_dfs_extends_refl(f, vis, post);
    } else {
        let vis1 = vis.update(b as int, true);
        lemma_unvisited_mark(vis, b as int);
        let succs = spec_succs(f, b);
        assert forall|j: int| 0 <= j < succs.len() implies succs[j] < f.blocks@.len() by {
            assert(spec_succs(f, b)[j] < f.blocks@.len());
        }
        lemma_dfs_succs(f, succs, 0, vis1, post, (fuel - 1) as nat);
        let r = spec_dfs_succs(f, succs, 0, vis1, post, (fuel - 1) as nat);
        let res = spec_dfs(f, b, vis, post, fuel);
        assert(res == (r.0, r.1.push(b)));
        let p1 = r.1.push(b);
        assert forall|k: int| 0 <= k < r.1.len() implies p1[k] == r.1[k] by {}
        assert(p1.take(post.len() as int) =~= post) by {
            assert forall|k: int| 0 <= k < post.len() implies p1.take(post.len() as int)[k] == post[k] by {
                assert(r.1.take(post.len() as int)[k] == r.1[k]);
            }
        }
        assert forall|x: int| 0 <= x < vis.len() && #[trigger] vis[x] implies r.0[x] by {
            assert(vis1[x]);
        }
        assert forall|k: int|
            post.len() <= k < p1.len() implies (#[trigger] p1[k]) < vis.len() && !vis[p1[k] as int]
                && r.0[p1[k] as int] by {
            if k < r.1.len() {
                assert(p1[k] == r.1[k]);
                assert(!vis1[r.1[k] as int]);
            } else {
                assert(vis1[b as int]);
            }
        }
        assert forall|k: int, l: int| post.len() <= k < l < p1.len() implies #[trigger] p1[k] != #[trigger] p1[l] by {
            if l < r.1.len() {
                assert(p1[k] == r.1[k] && p1[l] == r.1[l]);
            } else {
                assert(p1[k] == r.1[k]);
                assert(!vis1[r.1[k] as int]);
            }
        }
        assert forall|x: int| 0 <= x < vis.len() && #[trigger] r.0[x] && !vis[x] implies exists|k: int|
            post.len() <= k < p1.len() && #[trigger] p1[k] == x by {
            if x == b {
                assert(p1[r.1.len() as int] == x);
            } else {
                assert(!vis1[x]);
                let k = choose|k: int| post.len() <= k < r.1.len() && #[trigger] r.1[k] == x;
                assert(p1[k] == r.1[k]);
            }
        }
        assert forall|k: int, j: int|
            post.len() <= k < p1.len() && 0 <= j < spec_succs(f, p1[k]).len() implies r.0[#[trigger] spec_succs(
            f,
            #[trigger] p1[k],
        )[j] as int] by {
            if k < r.1.len() {
                assert(p1[k] == r.1[k]);
            } else {
                assert(p1[k] == b);
                assert(r.0[succs[j] as int]);
            }
        }
        assert(dfs_extends(f, vis, post, r.0, p1));
        assert forall|k: int| post.len() <= k < p1.len() implies reaches(f, b, #[trigger] p1[k]) by {
            if k < r.1.len() {
                assert(p1[k] == r.1[k]);
                let j = choose|j: int| 0 <= j < succs.len() && reaches(f, succs[j], r.1[k]);
                let n = choose|n: nat| #[trigger] walk(f, succs[j], r.1[k], n);
                assert(succs.contains(succs[j]));
                lemma_walk_prepend(f, b, succs[j], r.1[k], n);
            } else {
                lemma_walk_zero(f, b);
            }
        }
        assert(vis1[b as int]);
    }
}

/// What depth-first searches from `succs[i..]` in turn do: they extend the search
/// state, visit each of those blocks, and finish only blocks that one of them reaches.
proof fn lemma_dfs_succs(f: &KirFunction, succs: Seq<BlockId>, i: int, vis: Seq<bool>, post: Seq<BlockId>, fuel: nat)
    requires
        blocks_wf(f),
        vis.len() == f.blocks@.len(),
        forall|j: int| 0 <= j < succs.len() ==> succs[j] < f.blocks@.len(),
        fuel >= unvisited(vis),
        0 <= i,
    ensures
        dfs_extends(
            f,
            vis,
            post,
            spec_dfs_succs(f, succs, i, vis, post, fuel).0,
            spec_dfs_succs(f, succs, i, vis, post, fuel).1,
        ),
        forall|j: int| i <= j < succs.len() ==> spec_dfs_succs(f, succs, i, vis, post, fuel).0[succs[j] as int],
        forall|k: int|
            post.len() <= k < spec_dfs_succs(f, succs, i, vis, post, fuel).1.len() ==> exists|j: int|
                i <= j < succs.len() && reaches(f, succs[j], #[trigger] spec_dfs_succs(f, succs, i, vis, post, fuel).1[k]),
    decreases fuel, succs.len() - i + 1,
{
    if i >= succs.len() {
        lemma_dfs_extends_refl(f, vis, post);
    } else {
        let r1 = spec_dfs(f, succs[i], vis, post, fuel);
        lemma_dfs(f, succs[i], vis, post, fuel);
        lemma_unvisited_monotone(vis, r1.0);
        lemma_dfs_succs(f, succs, i + 1, r1.0, r1.1, fuel);
        let r = spec_dfs_succs(f, succs, i + 1, r1.0, r1.1, fuel);
        assert(spec_dfs_succs(f, succs, i, vis, post, fuel) == r);
        lemma_dfs_extends_trans(f, vis, post, r1.0, r1.1, r.0, r.1);
        assert forall|j: int| i <= j < succs.len() implies r.0[succs[j] as int] by {
            if j == i {
                assert(r1.0[succs[i] as int]);
            }
        }
        assert forall|k: int| post.len() <= k < r.1.len() implies exists|j: int|
            i <= j < succs.len() && reaches(f, succs[j], #[trigger] r.1[k]) by {
            if k < r1.1.len() {
                assert(r.1.take(r1.1.len() as int)[k] == r.1[k]);
                assert(reaches(f, succs[i], r1.1[k]));
            } else {
                let j = choose|j: int| i + 1 <= j < succs.len() && reaches(f, succs[j], r.1[k]);
            }
        }
    }
}

/// Every block that a walk from `start` reaches is visited, where `start` is visited
/// and every visited block's successors are visited.
proof fn lemma_closed_visits(f: &KirFunction, start: BlockId, vis: Seq<bool>, b: BlockId, n: nat)
    requires
        blocks_wf(f),
        vis.len() == f.blocks@.len(),
        start < vis.len(),
        vis[start as int],
        forall|x: BlockId, k: int|
            x < vis.len() && vis[x as int] && 0 <= k < spec_succs(f, x).len() ==> #[trigger] vis[spec_succs(
                f,
                x,
            )[k] as int],
        walk(f, start, b, n),
    ensures
        b < vis.len() && vis[b as int],
    decreases n,
{
    if n == 0 {
        let p = choose|p: Seq<BlockId>| p.len() == n + 1 && p[0] == start && p[n as int] == b && #[trigger] is_walk(f, p);
    } else {
        let m = lemma_walk_last(f, start, b, n);
        lemma_closed_visits(f, start, vis, m, (n - 1) as nat);
        let k = choose|k: int| 0 <= k < spec_succs(f, m).len() && spec_succs(f, m)[k] == b;
        assert(vis[spec_succs(f, m)[k] as int]);
        assert(spec_succs(f, m)[k] < f.blocks@.len());
    }
}

/// The reverse postorder starts at the entry block and lists each block that the
/// entry block reaches exactly once, and no other block.
pub proof fn lemma_reverse_postorder(f: &KirFunction)
    requires
        blocks_wf(f),
    ensures
        spec_postorder(f).reverse().len() > 0,
        spec_postorder(f).reverse()[0] == f.entry_block,
        forall|i: int, j: int|
            0 <= i < j < spec_postorder(f).reverse().len() ==> #[trigger] spec_postorder(f).reverse()[i]
                != #[trigger] spec_postorder(f).reverse()[j],
        forall|i: int|
            0 <= i < spec_postorder(f).reverse().len() ==> #[trigger] spec_postorder(f).reverse()[i]
                < f.blocks@.len() && reaches(f, f.entry_block, spec_postorder(f).reverse()[i]),
        forall|b: BlockId|
            b < f.blocks@.len() && #[trigger] reaches(f, f.entry_block, b) ==> spec_postorder(f).reverse().contains(b),
{
    let n = f.blocks@.len();
    let vis0 = Seq::new(n, |i: int| false);
    let post0 = Seq::<BlockId>::empty();
    lemma_unvisited_all_false(n);
    lemma_dfs(f, f.entry_block, vis0, post0, n);
    let r = spec_dfs(f, f.entry_block, vis0, post0, n);
    let post = r.1;
    assert(post == spec_postorder(f));
    let rpo = post.reverse();
    assert(rpo[0] == post[post.len() - 1]);
    assert forall|i: int, j: int| 0 <= i < j < rpo.len() implies #[trigger] rpo[i] != #[trigger] rpo[j] by {
        assert(rpo[i] == post[post.len() - 1 - i]);
        assert(rpo[j] == post[post.len() - 1 - j]);
    }
    assert forall|i: int| 0 <= i < rpo.len() implies #[trigger] rpo[i] < n && reaches(f, f.entry_block, rpo[i]) by {
        assert(rpo[i] == post[post.len() - 1 - i]);
    }
    assert forall|x: BlockId, k: int|
        x < r.0.len() && r.0[x as int] && 0 <= k < spec_succs(f, x).len() implies #[trigger] r.0[spec_succs(
        f,
        x,
    )[k] as int] by {
        let m = choose|m: int| 0 <= m < post.len() && #[trigger] post[m] == x as int;
        assert(r.0[spec_succs(f, post[m])[k] as int]);
    }
    assert forall|b: BlockId| b < n && #[trigger] reaches(f, f.entry_block, b) implies rpo.contains(b) by {
        let w = choose|w: nat| #[trigger] walk(f, f.entry_block, b, w);
        lemma_closed_visits(f, f.entry_block, r.0, b, w);
        let m = choose|m: int| 0 <= m < post.len() && #[trigger] post[m] == b as int;
        assert(rpo[post.len() - 1 - m] == post[m]);
    }
}

/// In a sequence without repeats, the index map gives each element its position,
/// and nothing else: it has one key per element, and each key is the element at
/// the position it maps to.
pub proof fn lemma_index_map_positions(rpo: Seq<BlockId>)
    requires
        rpo.len() <= usize::MAX,
        forall|i: int, j: int| 0 <= i < j < rpo.len() ==> #[trigger] rpo[i] != #[trigger] rpo[j],
    ensures
        forall|i: int| 0 <= i < rpo.len() ==> #[trigger] spec_index_map(rpo)[rpo[i]] == i,
        forall|b: BlockId| #[trigger] spec_index_map(rpo).contains_key(b) <==> rpo.contains(b),
        forall|b: BlockId| #[trigger] spec_index_map(rpo).contains_key(b)
            ==> spec_index_map(rpo)[b] < rpo.len() && rpo[spec_index_map(rpo)[b] as int] == b,
        spec_index_map(rpo).dom().finite(),
        spec_index_map(rpo).dom().len() == rpo.len(),
    decreases rpo.len(),
{
    if rpo.len() == 0 {
        assert(spec_index_map(rpo).dom() =~= Set::<BlockId>::empty());
    } else {
        let p = rpo.drop_last();
        assert forall|i: int, j: int| 0 <= i < j < p.len() implies #[trigger] p[i] != #[trigger] p[j] by {
            assert(p[i] == rpo[i] && p[j] == rpo[j]);
        }
        lemma_index_map_positions(p);
        assert forall|i: int| 0 <= i < rpo.len() implies #[trigger] spec_index_map(rpo)[rpo[i]] == i by {
            if i < rpo.len() - 1 {
                assert(p[i] == rpo[i]);
                assert(rpo[i] != rpo[rpo.len() - 1]);
                assert(spec_index_map(p)[p[i]] == i);
            }
        }
        assert forall|b: BlockId| #[trigger] spec_index_map(rpo).contains_key(b) <==> rpo.contains(b) by {
            if spec_index_map(p).contains_key(b) {
                let i = choose|i: int| 0 <= i < p.len() && p[i] == b;
                assert(rpo[i] == b);
            }
            if rpo.contains(b) && b != rpo.last() {
                let i = choose|i: int| 0 <= i < rpo.len() && rpo[i] == b;
                assert(p[i] == b);
                assert(p.contains(b));
            }
        }
        assert forall|b: BlockId| #[trigger] spec_index_map(rpo).contains_key(b)
            implies spec_index_map(rpo)[b] < rpo.len() && rpo[spec_index_map(rpo)[b] as int] == b by {
            let i = choose|i: int| 0 <= i < rpo.len() && rpo[i] == b;
            assert(spec_index_map(rpo)[rpo[i]] == i);
        }
        assert(!spec_index_map(p).contains_key(rpo.last())) by {
            if spec_index_map(p).contains_key(rpo.last()) {
                let i = choose|i: int| 0 <= i < p.len() && p[i] == rpo.last();
                assert(rpo[i] == rpo[rpo.len() - 1]);
            }
        }
        assert(spec_index_map(rpo).dom() =~= spec_index_map(p).dom().insert(rpo.last()));
    }
}

/// A block without successors reaches only itself.
pub proof fn lemma_dead_end_reaches_only_itself(f: &KirFunction, x: BlockId, y: BlockId)
    requires
        x < f.blocks@.len(),
        spec_succs(f, x).len() == 0,
        reaches(f, x, y),
    ensures
        y == x,
{
    let n = choose|n: nat| #[trigger] walk(f, x, y, n);
    lemma_dead_end_walk(f, x, y, n);
}

proof fn lemma_dead_end_walk(f: &KirFunction, x: BlockId, y: BlockId, n: nat)
    requires
        x < f.blocks@.len(),
        spec_succs(f, x).len() == 0,
        walk(f, x, y, n),
    ensures
        n == 0 && y == x,
    decreases n,
{
    if n == 0 {
        let p = choose|p: Seq<BlockId>| p.len() == n + 1 && p[0] == x && p[n as int] == y && #[trigger] is_walk(f, p);
    } else {
        let m = lemma_walk_last(f, x, y, n);
        lemma_dead_end_walk(f, x, m, (n - 1) as nat);
    }
}

/// A block reaches each of its successors.
pub proof fn lemma_reaches_successor(f: &KirFunction, x: BlockId, y: BlockId)
    requires
        x < f.blocks@.len(),
        spec_succs(f, x).contains(y),
    ensures
        reaches(f, x, y),
{
    lemma_walk_zero(f, x);
    lemma_walk_extend(f, x, x, y, 0);
    assert(walk(f, x, y, 1));
}
} // verus!
