//! The beginner's memory path: a scene's nodes grouped into stages by how
//! many edges separate them from the variables, nearest first, with the
//! relations that lead into each stage.
use vstd::prelude::*;

use crate::keyed::{lemma_sorted_insert, strictly_sorted};
use crate::scene_walk::id_texts;
use crate::text::{lemma_seq_lt_total, seq_lt, str_eq, str_lt};
use crate::topology::{
    beginner_relation_label, edge_views, node_views, relation_priority,
    spec_beginner_relation_label, spec_relation_priority, EdgeView, NodeView, OwnershipTopologyScene, TopologyEdge, TopologyNode,
};

verus! {

/// The nodes of one stage and the relations that lead into it.
#[derive(Debug)]
pub struct BeginnerMemoryStage {
    pub relation_from_previous: Vec<String>,
    pub nodes: Vec<TopologyNode>,
}

/// The stages of the path, nearest first.
#[derive(Debug)]
pub struct BeginnerMemoryPath {
    pub stages: Vec<BeginnerMemoryStage>,
    pub truncated: bool,
}

/// Some stage holds a node with the view `v`.
pub open spec fn in_some_stage(stages: Seq<BeginnerMemoryStage>, v: NodeView) -> bool {
    exists|s: int, k: int|
        0 <= s < stages.len() && 0 <= k < stages[s].nodes@.len() && #[trigger] stages[s].nodes@[k]@
            == v
}

/// The distances recorded so far, as ids and numbers.
pub open spec fn dist_view(dist: Seq<(String, usize)>) -> Seq<(Seq<char>, usize)> {
    dist.map_values(|p: (String, usize)| (p.0@, p.1))
}

/// The distance the first entry for `id` records.
pub open spec fn dist_lookup(dist: Seq<(Seq<char>, usize)>, id: Seq<char>) -> Option<usize>
    decreases dist.len(),
{
    if dist.len() == 0 {
        None
    } else if dist[0].0 == id {
        Some(dist[0].1)
    } else {
        dist_lookup(dist.drop_first(), id)
    }
}

/// One more than `d`, staying at the largest `usize`.
pub open spec fn sat_next(d: usize) -> usize {
    if d < usize::MAX {
        (d + 1) as usize
    } else {
        d
    }
}

/// The position of the last of the first `i` nodes with id `id`, plus one;
/// zero when none has it.
pub open spec fn order_of(nodes: Seq<NodeView>, id: Seq<char>, i: int) -> int
    decreases i,
{
    if i <= 0 || i > nodes.len() {
        0
    } else if nodes[i - 1].id == id {
        i
    } else {
        order_of(nodes, id, i - 1)
    }
}

/// `a` is walked before `b`: by relation priority, then by the scene
/// position of the target.
pub open spec fn out_lt(a: (u8, int, int), b: (u8, int, int)) -> bool {
    a.0 < b.0 || (a.0 == b.0 && a.1 < b.1)
}

/// `k` put into `s` just before the first entry it is walked before.
pub open spec fn insert_out(s: Seq<(u8, int, int)>, k: (u8, int, int)) -> Seq<(u8, int, int)>
    decreases s.len(),
{
    if s.len() == 0 {
        seq![k]
    } else if out_lt(k, s[0]) {
        seq![k] + s
    } else {
        seq![s[0]] + insert_out(s.drop_first(), k)
    }
}

/// The edges among the first `n` that leave `source`, as (relation
/// priority, target position, edge index), in walking order.
pub open spec fn outgoing_keys(nodes: Seq<NodeView>, edges: Seq<EdgeView>, source: Seq<char>, n: int) -> Seq<
    (u8, int, int),
>
    decreases n,
{
    if n <= 0 || n > edges.len() {
        Seq::empty()
    } else {
        let before = outgoing_keys(nodes, edges, source, n - 1);
        let e = edges[n - 1];
        if e.source == source {
            insert_out(
                before,
                (spec_relation_priority(e.label), order_of(nodes, e.target, nodes.len() as int), n - 1),
            )
        } else {
            before
        }
    }
}

/// The walking keys as numbers.
pub open spec fn out_view(out: Seq<(u8, usize, usize)>) -> Seq<(u8, int, int)> {
    out.map_values(|k: (u8, usize, usize)| (k.0, k.1 as int, k.2 as int))
}

/// The targets of the edges leaving `source`, in walking order.
pub open spec fn out_targets(nodes: Seq<NodeView>, edges: Seq<EdgeView>, source: Seq<char>) -> Seq<
    Seq<char>,
> {
    outgoing_keys(nodes, edges, source, edges.len() as int).map_values(
        |k: (u8, int, int)| edges[k.2].target,
    )
}

/// `dist` with distance `d` recorded for each of `targets` that has none yet.
pub open spec fn absorb(dist: Seq<(Seq<char>, usize)>, targets: Seq<Seq<char>>, d: usize) -> Seq<
    (Seq<char>, usize),
>
    decreases targets.len(),
{
    if targets.len() == 0 {
        dist
    } else {
        let before = absorb(dist, targets.drop_last(), d);
        if dist_lookup(before, targets.last()) is None {
            before.push((targets.last(), d))
        } else {
            before
        }
    }
}

/// The largest distance recorded, zero when none is.
pub open spec fn max_distance(dist: Seq<(Seq<char>, usize)>) -> usize
    decreases dist.len(),
{
    if dist.len() == 0 {
        0
    } else {
        let m = max_distance(dist.drop_last());
        if dist.last().1 > m {
            dist.last().1
        } else {
            m
        }
    }
}

/// The first `i` nodes that have no distance get `next`, one more, and so
/// on, in scene order; gives the distances and the number after the last.
pub open spec fn number_unreached(
    dist: Seq<(Seq<char>, usize)>,
    nodes: Seq<NodeView>,
    next: usize,
    i: int,
) -> (Seq<(Seq<char>, usize)>, usize)
    decreases i,
{
    if i <= 0 || i > nodes.len() {
        (dist, next)
    } else {
        let before = number_unreached(dist, nodes, next, i - 1);
        if dist_lookup(before.0, nodes[i - 1].id) is None {
            (before.0.push((nodes[i - 1].id, before.1)), sat_next(before.1))
        } else {
            before
        }
    }
}

/// Every node's distance: what the walk over the edges recorded in
/// `walked`, then the nodes it never reached numbered after the largest.
pub open spec fn path_distances(nodes: Seq<NodeView>, walked: Seq<(Seq<char>, usize)>) -> Seq<
    (Seq<char>, usize),
> {
    number_unreached(walked, nodes, sat_next(max_distance(walked)), nodes.len() as int).0
}

/// Each node's distance.
pub open spec fn node_distances(nodes: Seq<NodeView>, dist: Seq<(Seq<char>, usize)>) -> Seq<usize> {
    nodes.map_values(|n: NodeView| dist_lookup(dist, n.id)->0)
}

/// `levels` are the distinct node distances, smallest first.
pub open spec fn is_level_list(nd: Seq<usize>, levels: Seq<usize>) -> bool {
    &&& forall|a: int, b: int| 0 <= a < b < levels.len() ==> #[trigger] levels[a] < #[trigger] levels[b]
    &&& forall|k: int| 0 <= k < nd.len() ==> levels.contains(#[trigger] nd[k])
    &&& forall|l: int| 0 <= l < levels.len() ==> nd.contains(#[trigger] levels[l])
}

/// `k` put into `s` just before the first entry with a larger order.
pub open spec fn insert_pick(s: Seq<(int, int)>, k: (int, int)) -> Seq<(int, int)>
    decreases s.len(),
{
    if s.len() == 0 {
        seq![k]
    } else if k.0 < s[0].0 {
        seq![k] + s
    } else {
        seq![s[0]] + insert_pick(s.drop_first(), k)
    }
}

/// The first `i` nodes at distance `level`, as (order of their id, position),
/// ordered by the position of the last node with their id, ties in scene order.
pub open spec fn stage_picks(nodes: Seq<NodeView>, nd: Seq<usize>, level: usize, i: int) -> Seq<
    (int, int),
>
    decreases i,
{
    if i <= 0 || i > nodes.len() {
        Seq::empty()
    } else {
        let before = stage_picks(nodes, nd, level, i - 1);
        if nd[i - 1] == level {
            insert_pick(before, (order_of(nodes, nodes[i - 1].id, nodes.len() as int), i - 1))
        } else {
            before
        }
    }
}

/// The picks as numbers.
pub open spec fn pick_view(p: Seq<(usize, usize)>) -> Seq<(int, int)> {
    p.map_values(|k: (usize, usize)| (k.0 as int, k.1 as int))
}

/// Putting `k` just before the first entry with a larger order is `insert_pick`.
proof fn lemma_insert_pick(s: Seq<(int, int)>, pos: int, k: (int, int))
    requires
        0 <= pos <= s.len(),
        forall|c: int| 0 <= c < pos ==> (#[trigger] s[c]).0 <= k.0,
        pos < s.len() ==> k.0 < s[pos].0,
    ensures
        s.insert(pos, k) == insert_pick(s, k),
    decreases s.len(),
{
    if s.len() == 0 {
        assert(s.insert(pos, k) =~= seq![k]);
    } else if pos == 0 {
        assert(s.insert(pos, k) =~= seq![k] + s);
    } else {
        assert(s[0].0 <= k.0);
        let t = s.drop_first();
        assert forall|c: int| 0 <= c < pos - 1 implies (#[trigger] t[c]).0 <= k.0 by {
            assert(t[c] == s[c + 1]);
        }
        lemma_insert_pick(t, pos - 1, k);
        assert(s.insert(pos, k) =~= seq![s[0]] + t.insert(pos - 1, k));
    }
}

/// The nodes of the stage at `level`, in stage order.
pub open spec fn stage_members(nodes: Seq<NodeView>, nd: Seq<usize>, level: usize) -> Seq<NodeView> {
    stage_picks(nodes, nd, level, nodes.len() as int).map_values(|p: (int, int)| nodes[p.1])
}

/// The edge `e` leads into the stage: its target is one of `members` and its
/// source lies at a smaller distance than `level`.
pub open spec fn leads_into(dist: Seq<(Seq<char>, usize)>, members: Seq<NodeView>, level: usize, e: EdgeView) -> bool {
    &&& members.map_values(|n: NodeView| n.id).contains(e.target)
    &&& dist_lookup(dist, e.source) matches Some(d) && d < level
}

/// `labels` are the beginner labels of the edges leading into the stage,
/// sorted and without repeats.
pub open spec fn arriving_labels(
    labels: Seq<Seq<char>>,
    edges: Seq<EdgeView>,
    dist: Seq<(Seq<char>, usize)>,
    members: Seq<NodeView>,
    level: usize,
) -> bool {
    &&& strictly_sorted(labels)
    &&& forall|x: Seq<char>|
        labels.contains(x) <==> exists|j: int|
            0 <= j < edges.len() && #[trigger] leads_into(dist, members, level, edges[j])
                && spec_beginner_relation_label(edges[j].label) == x
}

/// Once nothing is queued, the walk stays where it is.
proof fn lemma_path_stays_finished(nodes: Seq<NodeView>, edges: Seq<EdgeView>, n: nat, m: nat)
    requires
        path_after(nodes, edges, n).queue.len() == 0,
        n <= m,
    ensures
        path_after(nodes, edges, m) == path_after(nodes, edges, n),
    decreases m - n,
{
    if n < m {
        lemma_path_stays_finished(nodes, edges, n, (m - 1) as nat);
    }
}

/// The walk over the edges records one set of distances: two finished
/// walks over the same nodes and edges recorded the same.
pub proof fn walked_distances_are_unique(
    nodes: Seq<NodeView>,
    edges: Seq<EdgeView>,
    a: Seq<(Seq<char>, usize)>,
    b: Seq<(Seq<char>, usize)>,
)
    requires
        walked_distances(nodes, edges, a),
        walked_distances(nodes, edges, b),
    ensures
        a == b,
{
    let n = choose|n: nat|
        (#[trigger] path_after(nodes, edges, n)).queue.len() == 0 && path_after(nodes, edges, n).dist
            == a;
    let m = choose|m: nat|
        (#[trigger] path_after(nodes, edges, m)).queue.len() == 0 && path_after(nodes, edges, m).dist
            == b;
    if n <= m {
        lemma_path_stays_finished(nodes, edges, n, m);
    } else {
        lemma_path_stays_finished(nodes, edges, m, n);
    }
}

/// `stages` are, for each of `levels`, the nodes at that distance and the
/// labels of the edges leading into them, the distances being those the
/// walk recorded in `walked` completed for the nodes it never reached.
pub open spec fn stages_at(
    nodes: Seq<NodeView>,
    edges: Seq<EdgeView>,
    walked: Seq<(Seq<char>, usize)>,
    levels: Seq<usize>,
    stages: Seq<BeginnerMemoryStage>,
) -> bool {
    let dist = path_distances(nodes, walked);
    let nd = node_distances(nodes, dist);
    &&& is_level_list(nd, levels)
    &&& stages.len() == levels.len()
    &&& forall|s: int|
        0 <= s < stages.len() ==> node_views((#[trigger] stages[s]).nodes@) == stage_members(
            nodes,
            nd,
            levels[s],
        ) && arriving_labels(
            id_texts(stages[s].relation_from_previous@),
            edges,
            dist,
            stage_members(nodes, nd, levels[s]),
            levels[s],
        )
}

/// `stages` is the beginner path over `nodes` and `edges`.
pub open spec fn is_memory_path(
    nodes: Seq<NodeView>,
    edges: Seq<EdgeView>,
    stages: Seq<BeginnerMemoryStage>,
) -> bool {
    exists|walked: Seq<(Seq<char>, usize)>, levels: Seq<usize>|
        #[trigger] walked_distances(nodes, edges, walked) && #[trigger] stages_at(
            nodes,
            edges,
            walked,
            levels,
            stages,
        )
}

/// Where the breadth-first walk over the edges stands.
pub struct PathState {
    pub queue: Seq<Seq<char>>,
    pub dist: Seq<(Seq<char>, usize)>,
}

/// The variables in scene order, each at distance zero, with every
/// variable queued once per node.
pub open spec fn seed_bindings(nodes: Seq<NodeView>, i: int) -> PathState
    decreases i,
{
    if i <= 0 || i > nodes.len() {
        PathState { queue: Seq::empty(), dist: Seq::empty() }
    } else {
        let before = seed_bindings(nodes, i - 1);
        let n = nodes[i - 1];
        if n.kind == "binding"@ {
            PathState {
                queue: before.queue.push(n.id),
                dist: if dist_lookup(before.dist, n.id) is None {
                    before.dist.push((n.id, 0usize))
                } else {
                    before.dist
                },
            }
        } else {
            before
        }
    }
}

/// Where the walk starts: the variables, or else the first node.
pub open spec fn path_seed(nodes: Seq<NodeView>) -> PathState {
    let b = seed_bindings(nodes, nodes.len() as int);
    if b.queue.len() == 0 && nodes.len() > 0 {
        PathState { queue: seq![nodes[0].id], dist: seq![(nodes[0].id, 0usize)] }
    } else {
        b
    }
}

/// One step of the walk: take the first queued id and give each target of
/// its edges that has no distance yet one more than its own, queueing it.
pub open spec fn path_step(nodes: Seq<NodeView>, edges: Seq<EdgeView>, s: PathState) -> PathState {
    if s.queue.len() == 0 {
        s
    } else {
        let source = s.queue[0];
        let rest = s.queue.drop_first();
        match dist_lookup(s.dist, source) {
            None => PathState { queue: rest, dist: s.dist },
            Some(d) => {
                let nd = absorb(s.dist, out_targets(nodes, edges, source), sat_next(d));
                PathState {
                    queue: rest + nd.skip(s.dist.len() as int).map_values(
                        |p: (Seq<char>, usize)| p.0,
                    ),
                    dist: nd,
                }
            },
        }
    }
}

/// The walk after `n` steps.
pub open spec fn path_after(nodes: Seq<NodeView>, edges: Seq<EdgeView>, n: nat) -> PathState
    decreases n,
{
    if n == 0 {
        path_seed(nodes)
    } else {
        path_step(nodes, edges, path_after(nodes, edges, (n - 1) as nat))
    }
}

/// `dist` is what the walk records once nothing is queued.
pub open spec fn walked_distances(
    nodes: Seq<NodeView>,
    edges: Seq<EdgeView>,
    dist: Seq<(Seq<char>, usize)>,
) -> bool {
    exists|n: nat|
        (#[trigger] path_after(nodes, edges, n)).queue.len() == 0 && path_after(nodes, edges, n).dist
            == dist
}

/// Putting `k` just before the first entry it is walked before is `insert_out`.
proof fn lemma_insert_out(s: Seq<(u8, int, int)>, pos: int, k: (u8, int, int))
    requires
        0 <= pos <= s.len(),
        forall|c: int| 0 <= c < pos ==> !out_lt(k, #[trigger] s[c]),
        pos < s.len() ==> out_lt(k, s[pos]),
    ensures
        s.insert(pos, k) == insert_out(s, k),
    decreases s.len(),
{
    if s.len() == 0 {
        assert(s.insert(pos, k) =~= seq![k]);
    } else if pos == 0 {
        assert(s.insert(pos, k) =~= seq![k] + s);
    } else {
        assert(!out_lt(k, s[0]));
        let t = s.drop_first();
        assert forall|c: int| 0 <= c < pos - 1 implies !out_lt(k, #[trigger] t[c]) by {
            assert(t[c] == s[c + 1]);
        }
        lemma_insert_out(t, pos - 1, k);
        assert(s.insert(pos, k) =~= seq![s[0]] + t.insert(pos - 1, k));
    }
}

/// Appending an entry changes the lookup of its id only when it had none.
proof fn lemma_lookup_push(d: Seq<(Seq<char>, usize)>, x: (Seq<char>, usize), id: Seq<char>)
    ensures
        dist_lookup(d.push(x), id) == (if dist_lookup(d, id) is Some {
            dist_lookup(d, id)
        } else if x.0 == id {
            Some(x.1)
        } else {
            None
        }),
    decreases d.len(),
{
    if d.len() == 0 {
        assert(d.push(x).drop_first() =~= Seq::<(Seq<char>, usize)>::empty());
    } else {
        assert(d.push(x).drop_first() =~= d.drop_first().push(x));
        lemma_lookup_push(d.drop_first(), x, id);
    }
}

fn distance_of(dist: &Vec<(String, usize)>, id: &str) -> (r: Option<usize>)
    ensures
        match r {
            Some(d) => exists|k: int| 0 <= k < dist.len() && #[trigger] dist@[k].0@ == id@ && dist@[k].1 == d,
            None => forall|k: int| 0 <= k < dist.len() ==> #[trigger] dist@[k].0@ != id@,
        },
        r == dist_lookup(dist_view(dist@), id@),
{
    let ghost dv = dist_view(dist@);
    let mut k: usize = 0;
    assert(dv.skip(0) =~= dv);
    while k < dist.len()
        invariant
            k <= dist.len(),
            dv == dist_view(dist@),
            forall|t: int| 0 <= t < k ==> #[trigger] dist@[t].0@ != id@,
            dist_lookup(dv, id@) == dist_lookup(dv.skip(k as int), id@),
        decreases dist.len() - k,
    {
        assert(dv.skip(k as int)[0] == dv[k as int]);
        if str_eq(dist[k].0.as_str(), id) {
            return Some(dist[k].1);
        }
        assert(dv.skip(k as int).drop_first() =~= dv.skip(k + 1));
        k += 1;
    }
    None
}

/// The position of the last node with id `id`, plus one; zero when none has it.
fn order_key(nodes: &Vec<TopologyNode>, id: &str) -> (r: usize)
    ensures
        r as int == order_of(node_views(nodes@), id@, nodes.len() as int),
{
    let ghost nv = node_views(nodes@);
    let mut i = nodes.len();
    while i > 0
        invariant
            i <= nodes.len(),
            nv == node_views(nodes@),
            order_of(nv, id@, nodes.len() as int) == order_of(nv, id@, i as int),
        decreases i,
    {
        assert(nv[i - 1].id == nodes@[i - 1].id@);
        if str_eq(nodes[i - 1].id.as_str(), id) {
            return i;
        }
        i -= 1;
    }
    0
}

/// Puts `label` into the sorted list of distinct labels, if it is not there yet.
fn insert_label(list: &mut Vec<String>, label: String)
    requires
        strictly_sorted(id_texts(old(list)@)),
    ensures
        strictly_sorted(id_texts(final(list)@)),
        id_texts(final(list)@).contains(label@),
        forall|t: int| 0 <= t < old(list).len() ==> id_texts(final(list)@).contains(#[trigger] id_texts(old(list)@)[t]),
        forall|t: int| 0 <= t < final(list).len() ==> (id_texts(old(list)@).contains(#[trigger] id_texts(final(list)@)[t]) || id_texts(final(list)@)[t] == label@),
{
    let mut pos: usize = 0;
    while pos < list.len() && str_lt(list[pos].as_str(), label.as_str())
        invariant
            pos <= list.len(),
            forall|c: int| 0 <= c < pos ==> seq_lt(#[trigger] id_texts(list@)[c], label@),
        decreases list.len() - pos,
    {
        pos += 1;
    }
    if pos < list.len() && str_eq(list[pos].as_str(), label.as_str()) {
        assert(id_texts(list@)[pos as int] == label@);
        return;
    }
    let ghost before = id_texts(list@);
    proof {
        if pos < list.len() {
            lemma_seq_lt_total(label@, before[pos as int]);
        }
        lemma_sorted_insert(before, pos as int, label@);
    }
    list.insert(pos, label);
    proof {
        assert(id_texts(list@) =~= before.insert(pos as int, label@));
        assert(id_texts(list@)[pos as int] == label@);
        assert forall|t: int| 0 <= t < before.len() implies id_texts(list@).contains(#[trigger] before[t]) by {
            if t < pos {
                assert(id_texts(list@)[t] == before[t]);
            } else {
                assert(id_texts(list@)[t + 1] == before[t]);
            }
        }
        assert forall|t: int| 0 <= t < list.len() implies (before.contains(#[trigger] id_texts(list@)[t]) || id_texts(list@)[t] == label@) by {
            if t < pos {
                assert(id_texts(list@)[t] == before[t]);
            } else if t > pos {
                assert(id_texts(list@)[t] == before[t - 1]);
            }
        }
    }
}

/// The keys of the distance list, in order.
pub open spec fn dist_keys(dist: Seq<(String, usize)>) -> Seq<Seq<char>> {
    dist.map_values(|p: (String, usize)| p.0@)
}

/// The ids a walk over the scene can give a distance: its node ids and its edge targets.
pub open spec fn path_universe(scene: OwnershipTopologyScene) -> Seq<Seq<char>> {
    scene.nodes@.map_values(|n: TopologyNode| n.id@) + scene.edges@.map_values(|e: TopologyEdge| e.target@)
}

/// `d` is the distance the list gives `id`.
pub open spec fn has_distance(dist: Seq<(String, usize)>, id: Seq<char>, d: usize) -> bool {
    exists|k: int| 0 <= k < dist.len() && #[trigger] dist[k].0@ == id && dist[k].1 == d
}

fn owned_text(s: &String) -> (r: String)
    ensures
        r@ == s@,
{
    s.clone()
}

/// Records distance `d` for `id`.
fn add_distance(dist: &mut Vec<(String, usize)>, id: &String, d: usize)
    requires
        dist_keys(old(dist)@).no_duplicates(),
        !dist_keys(old(dist)@).contains(id@),
    ensures
        final(dist)@.len() == old(dist)@.len() + 1,
        dist_keys(final(dist)@) == dist_keys(old(dist)@).push(id@),
        dist_keys(final(dist)@).no_duplicates(),
        final(dist)@.take(old(dist)@.len() as int) == old(dist)@,
        final(dist)@.last().1 == d,
        dist_view(final(dist)@) == dist_view(old(dist)@).push((id@, d)),
{
    let ghost before = dist@;
    dist.push((owned_text(id), d));
    assert(dist_view(dist@) =~= dist_view(before).push((id@, d)));
    assert(dist_keys(dist@) =~= dist_keys(before).push(id@));
    assert(dist@.take(before.len() as int) =~= before);
}

proof fn lemma_distance_kept(before: Seq<(String, usize)>, after: Seq<(String, usize)>, id: Seq<char>, d: usize)
    requires
        before.len() <= after.len(),
        after.take(before.len() as int) == before,
        has_distance(before, id, d),
    ensures
        has_distance(after, id, d),
{
    let k = choose|k: int| 0 <= k < before.len() && #[trigger] before[k].0@ == id && before[k].1 == d;
    assert(after[k] == after.take(before.len() as int)[k]);
}

proof fn lemma_unique_distance(dist: Seq<(String, usize)>, id: Seq<char>, d: usize, e: usize)
    requires
        dist_keys(dist).no_duplicates(),
        has_distance(dist, id, d),
        has_distance(dist, id, e),
    ensures
        d == e,
{
    let k = choose|k: int| 0 <= k < dist.len() && #[trigger] dist[k].0@ == id && dist[k].1 == d;
    let j = choose|j: int| 0 <= j < dist.len() && #[trigger] dist[j].0@ == id && dist[j].1 == e;
    if k != j {
        assert(dist_keys(dist)[k] == dist_keys(dist)[j]);
    }
}

/// The stage at `level`: the nodes at that distance in stage order, and the
/// beginner labels of the edges that lead into them from nearer nodes.
fn build_stage(
    nodes: &Vec<TopologyNode>,
    edges: &Vec<TopologyEdge>,
    dist: &Vec<(String, usize)>,
    node_dist: &Vec<usize>,
    level: usize,
) -> (r: BeginnerMemoryStage)
    requires
        node_dist.len() == nodes.len(),
    ensures
        node_views(r.nodes@) == stage_members(node_views(nodes@), node_dist@, level),
        arriving_labels(
            id_texts(r.relation_from_previous@),
            edge_views(edges@),
            dist_view(dist@),
            stage_members(node_views(nodes@), node_dist@, level),
            level,
        ),
        forall|u: int| 0 <= u < r.nodes.len() ==> node_views(nodes@).contains(#[trigger] r.nodes@[u]@),
        forall|k: int|
            0 <= k < nodes.len() && #[trigger] node_dist@[k] == level ==> node_views(r.nodes@).contains(
                nodes@[k]@,
            ),
{
    let ghost nv = node_views(nodes@);
    let ghost ev = edge_views(edges@);
    let ghost nds = node_dist@;
    let ghost fin = dist_view(dist@);
    // the nodes at this distance, in scene order of their ids
    let mut picked: Vec<(usize, usize)> = Vec::new();
    let mut i: usize = 0;
    assert(pick_view(picked@) =~= stage_picks(nv, nds, level, 0));
    while i < nodes.len()
        invariant
            i <= nodes.len(),
            node_dist.len() == nodes.len(),
            nv == node_views(nodes@),
            nv == node_views(nodes@),
            nds == node_dist@,
            pick_view(picked@) == stage_picks(nv, nds, level, i as int),
            forall|t: int| 0 <= t < picked.len() ==> (#[trigger] picked@[t]).1 < nodes.len() && node_dist@[picked@[t].1 as int] == level,
            forall|k: int| 0 <= k < i && #[trigger] node_dist@[k] == level ==> exists|t: int| 0 <= t < picked.len() && #[trigger] picked@[t].1 == k,
        decreases nodes.len() - i,
    {
        if node_dist[i] == level {
            let key = order_key(nodes, nodes[i].id.as_str());
            let mut pos: usize = 0;
            while pos < picked.len() && picked[pos].0 <= key
                invariant
                    pos <= picked.len(),
                    forall|c: int| 0 <= c < pos ==> (#[trigger] pick_view(picked@)[c]).0 <= key,
                decreases picked.len() - pos,
            {
                assert(pick_view(picked@)[pos as int].0 == picked@[pos as int].0);
                pos += 1;
            }
            let ghost before = picked@;
            proof {
                if pos < picked.len() {
                    assert(pick_view(picked@)[pos as int].0 == picked@[pos as int].0);
                }
                assert(nv[i as int].id == nodes@[i as int].id@);
                lemma_insert_pick(pick_view(before), pos as int, (key as int, i as int));
            }
            picked.insert(pos, (key, i));
            proof {
                assert(pick_view(picked@) =~= pick_view(before).insert(pos as int, (key as int, i as int)));
                assert(picked@[pos as int].1 == i);
                assert forall|t: int| 0 <= t < picked.len() implies (#[trigger] picked@[t]).1 < nodes.len() && node_dist@[picked@[t].1 as int] == level by {
                    if t < pos {
                        assert(picked@[t] == before[t]);
                    } else if t > pos {
                        assert(picked@[t] == before[t - 1]);
                    }
                }
                assert forall|k: int| 0 <= k < i + 1 && #[trigger] node_dist@[k] == level implies exists|t: int| 0 <= t < picked.len() && #[trigger] picked@[t].1 == k by {
                    if k < i {
                        let t = choose|t: int| 0 <= t < before.len() && #[trigger] before[t].1 == k;
                        if t < pos {
                            assert(picked@[t] == before[t]);
                        } else {
                            assert(picked@[t + 1] == before[t]);
                        }
                    } else {
                        assert(picked@[pos as int].1 == k);
                    }
                }
            }
        }
        i += 1;
    }
    let mut stage_nodes: Vec<TopologyNode> = Vec::new();
    let mut t: usize = 0;
    let ghost members = stage_members(nv, nds, level);
    while t < picked.len()
        invariant
            t <= picked.len(),
            nv == node_views(nodes@),
            stage_nodes.len() == t,
            forall|u: int| 0 <= u < picked.len() ==> (#[trigger] picked@[u]).1 < nodes.len(),
            forall|u: int| 0 <= u < t ==> #[trigger] stage_nodes@[u]@ == nodes@[picked@[u].1 as int]@,
        decreases picked.len() - t,
    {
        let ghost before = stage_nodes@;
        stage_nodes.push(nodes[picked[t].1].clone());
        proof {
            assert forall|u: int| 0 <= u < t + 1 implies #[trigger] stage_nodes@[u]@ == nodes@[picked@[u].1 as int]@ by {
                if u < t {
                    assert(stage_nodes@[u] == before[u]);
                }
            }
        }
        t += 1;
    }
    proof {
        assert forall|u: int| 0 <= u < picked.len() implies #[trigger] node_views(stage_nodes@)[u] == members[u] by {
            assert(pick_view(picked@)[u].1 == picked@[u].1 as int);
            assert(nv[picked@[u].1 as int] == nodes@[picked@[u].1 as int]@);
        }
        assert(node_views(stage_nodes@) =~= members);
    }
    // the relations arriving from earlier stages
    let ghost member_ids = members.map_values(|n: NodeView| n.id);
    let mut relations: Vec<String> = Vec::new();
    let mut e: usize = 0;
    while e < edges.len()
        invariant
            e <= edges.len(),
            strictly_sorted(id_texts(relations@)),
            ev == edge_views(edges@),
            fin == dist_view(dist@),
            node_views(stage_nodes@) == members,
            member_ids == members.map_values(|n: NodeView| n.id),
            forall|x: Seq<char>|
                id_texts(relations@).contains(x) <==> exists|j: int|
                    0 <= j < e && #[trigger] leads_into(fin, members, level, ev[j])
                        && spec_beginner_relation_label(ev[j].label) == x,
        decreases edges.len() - e,
    {
        let mut arrives = false;
        let mut u: usize = 0;
        while u < stage_nodes.len()
            invariant
                u <= stage_nodes.len(),
                e < edges.len(),
                node_views(stage_nodes@) == members,
                member_ids == members.map_values(|n: NodeView| n.id),
                arrives <==> exists|w: int| 0 <= w < u && #[trigger] member_ids[w] == edges@[e as int].target@,
            decreases stage_nodes.len() - u,
        {
            assert(member_ids[u as int] == stage_nodes@[u as int].id@);
            if str_eq(stage_nodes[u].id.as_str(), edges[e].target.as_str()) {
                arrives = true;
            }
            u += 1;
        }
        let ghost rel_before = id_texts(relations@);
        let ghost edge_view = ev[e as int];
        proof {
            assert(edge_view.target == edges@[e as int].target@);
            assert(edge_view.source == edges@[e as int].source@);
            assert(edge_view.label == edges@[e as int].label@);
            if member_ids.contains(edge_view.target) {
                let w = choose|w: int| 0 <= w < member_ids.len() && member_ids[w] == edge_view.target;
                assert(member_ids[w] == edges@[e as int].target@);
            }
            assert(arrives <==> member_ids.contains(edge_view.target));
        }
        let mut added = false;
        if arrives {
            if let Some(source_distance) = distance_of(&dist, edges[e].source.as_str()) {
                if source_distance < level {
                    insert_label(&mut relations, beginner_relation_label(edges[e].label.as_str()));
                    added = true;
                }
            }
        }
        proof {
            assert(added == leads_into(fin, members, level, edge_view));
            assert forall|x: Seq<char>| id_texts(relations@).contains(x) <==> exists|j: int|
                0 <= j < e + 1 && #[trigger] leads_into(fin, members, level, ev[j])
                    && spec_beginner_relation_label(ev[j].label) == x by {
                if id_texts(relations@).contains(x) {
                    if rel_before.contains(x) {
                        let j = choose|j: int| 0 <= j < e && #[trigger] leads_into(fin, members, level, ev[j])
                            && spec_beginner_relation_label(ev[j].label) == x;
                    } else {
                        if !added {
                            assert(id_texts(relations@) == rel_before);
                        }
                        assert(x == spec_beginner_relation_label(edge_view.label));
                        assert(leads_into(fin, members, level, ev[e as int]));
                    }
                }
                if exists|j: int| 0 <= j < e + 1 && #[trigger] leads_into(fin, members, level, ev[j])
                    && spec_beginner_relation_label(ev[j].label) == x {
                    let j = choose|j: int| 0 <= j < e + 1 && #[trigger] leads_into(fin, members, level, ev[j])
                        && spec_beginner_relation_label(ev[j].label) == x;
                    if j < e {
                        assert(rel_before.contains(x));
                        if added {
                            let c = choose|c: int| 0 <= c < rel_before.len() && rel_before[c] == x;
                            assert(id_texts(relations@).contains(rel_before[c]));
                        }
                    } else {
                        assert(added);
                    }
                }
            }
        }
        e += 1;
    }
    proof {
        assert forall|u: int| 0 <= u < stage_nodes.len() implies nv.contains(#[trigger] stage_nodes@[u]@) by {
            let idx = picked@[u].1 as int;
            assert(nv[idx] == stage_nodes@[u]@);
        }
        assert forall|k: int| 0 <= k < nodes.len() && #[trigger] node_dist@[k] == level implies node_views(
            stage_nodes@,
        ).contains(nodes@[k]@) by {
            let tt = choose|tt: int| 0 <= tt < picked.len() && #[trigger] picked@[tt].1 == k;
            assert(node_views(stage_nodes@)[tt] == nodes@[k]@);
        }
    }
    BeginnerMemoryStage { relation_from_previous: relations, nodes: stage_nodes }
}

/// Every node's distance from the variables: the distances the walk over
/// the edges records, completed for the nodes it never reaches.
fn walk_distances(scene: &OwnershipTopologyScene) -> (r: (Vec<(String, usize)>, Vec<usize>))
    requires
        scene.nodes.len() > 0,
    ensures
        r.1.len() == scene.nodes.len(),
        exists|w: Seq<(Seq<char>, usize)>|
            #[trigger] walked_distances(node_views(scene.nodes@), edge_views(scene.edges@), w)
                && dist_view(r.0@) == path_distances(node_views(scene.nodes@), w),
        r.1@ == node_distances(node_views(scene.nodes@), dist_view(r.0@)),
        forall|k: int|
            0 <= k < scene.nodes.len() && (#[trigger] scene.nodes@[k]).kind@ == "binding"@ ==> r.1@[k] == 0,
        (forall|k: int| 0 <= k < scene.nodes.len() ==> (#[trigger] scene.nodes@[k]).kind@ != "binding"@)
            ==> r.1@[0] == 0,
{
    let nodes = &scene.nodes;
    let edges = &scene.edges;
    let ghost universe = path_universe(*scene);
    let ghost nv = node_views(nodes@);
    let ghost ev = edge_views(edges@);
    let mut dist: Vec<(String, usize)> = Vec::new();
    let mut queue: Vec<String> = Vec::new();
    let mut i: usize = 0;
    proof {
        assert(dist_view(dist@) =~= Seq::<(Seq<char>, usize)>::empty());
        assert(id_texts(queue@) =~= Seq::<Seq<char>>::empty());
    }
    while i < nodes.len()
        invariant
            i <= nodes.len(),
            nodes == &scene.nodes,
            nv == node_views(nodes@),
            universe == path_universe(*scene),
            seed_bindings(nv, i as int) == (PathState { queue: id_texts(queue@), dist: dist_view(dist@) }),
            dist_keys(dist@).no_duplicates(),
            forall|t: int| 0 <= t < dist.len() ==> universe.contains(#[trigger] dist_keys(dist@)[t]),
            forall|t: int| 0 <= t < dist.len() ==> (#[trigger] dist@[t]).1 == 0,
            queue.len() <= i,
            dist.len() <= queue.len(),
            queue.len() > 0 ==> exists|t: int| 0 <= t < i && (#[trigger] nodes@[t]).kind@ == "binding"@,
            queue.len() == 0 ==> forall|t: int| 0 <= t < i ==> (#[trigger] nodes@[t]).kind@ != "binding"@,
            forall|t: int| 0 <= t < i && (#[trigger] nodes@[t]).kind@ == "binding"@ ==> has_distance(dist@, nodes@[t].id@, 0),
        decreases nodes.len() - i,
    {
        if str_eq(nodes[i].kind.as_str(), "binding") {
            if distance_of(&dist, nodes[i].id.as_str()).is_none() {
                let ghost before = dist@;
                proof {
                    if dist_keys(before).contains(nodes@[i as int].id@) {
                        let k = choose|k: int| 0 <= k < before.len() && dist_keys(before)[k] == nodes@[i as int].id@;
                        assert(before[k].0@ == nodes@[i as int].id@);
                    }
                }
                add_distance(&mut dist, &nodes[i].id, 0);
                proof {
                    assert(universe[i as int] == nodes@[i as int].id@);
                    assert(dist_keys(dist@)[before.len() as int] == nodes@[i as int].id@);
                    assert(dist@[before.len() as int].0@ == nodes@[i as int].id@);
                    assert forall|t: int| 0 <= t < i && (#[trigger] nodes@[t]).kind@ == "binding"@ implies has_distance(dist@, nodes@[t].id@, 0) by {
                        lemma_distance_kept(before, dist@, nodes@[t].id@, 0);
                    }
                    assert forall|t: int| 0 <= t < dist.len() implies universe.contains(#[trigger] dist_keys(dist@)[t]) by {
                        if t < before.len() {
                            assert(dist_keys(dist@)[t] == dist_keys(before)[t]);
                        } else {
                            assert(universe[i as int] == dist_keys(dist@)[t]);
                        }
                    }
                    assert forall|t: int| 0 <= t < dist.len() implies (#[trigger] dist@[t]).1 == 0 by {
                        if t < before.len() {
                            assert(dist@[t] == dist@.take(before.len() as int)[t]);
                        }
                    }
                }
            }
            let ghost qb = id_texts(queue@);
            queue.push(owned_text(&nodes[i].id));
            assert(id_texts(queue@) =~= qb.push(nv[i as int].id));
        }
        proof {
            assert(nv[i as int] == nodes@[i as int]@);
            if nodes@[i as int].kind@ == "binding"@ {
                assert(dist_view(dist@) == seed_bindings(nv, i + 1).dist);
            }
        }
        i += 1;
    }
    let no_bindings = queue.len() == 0;
    proof {
        assert(seed_bindings(nv, nv.len() as int) == (PathState { queue: id_texts(queue@), dist: dist_view(dist@) }));
    }
    if no_bindings {
        assert(dist_keys(dist@) =~= Seq::<Seq<char>>::empty());
        add_distance(&mut dist, &nodes[0].id, 0);
        queue.push(owned_text(&nodes[0].id));
        assert(dist_view(dist@) =~= seq![(nv[0].id, 0usize)]);
        assert(id_texts(queue@) =~= seq![nv[0].id]);
        assert(universe[0] == nodes@[0].id@);
        assert(dist_keys(dist@)[0] == nodes@[0].id@);
        assert(dist@[0].0@ == nodes@[0].id@);
        assert(has_distance(dist@, nodes@[0].id@, 0));
    }
    let ghost base = dist@;
    assert(path_seed(nv) == (PathState { queue: id_texts(queue@), dist: dist_view(dist@) }));
    assert forall|k: int| 0 <= k < nodes.len() && (#[trigger] nodes@[k]).kind@ == "binding"@ implies has_distance(base, nodes@[k].id@, 0) by {
        if no_bindings {
            assert(nodes@[k].kind@ != "binding"@);
        }
    }
    // walk the edges out of each queued id, closest relations first
    let mut head: usize = 0;
    let ghost mut iters: nat = 0;
    assert(id_texts(queue@).skip(0) =~= id_texts(queue@));
    while head < queue.len()
        invariant
            nodes == &scene.nodes,
            edges == &scene.edges,
            nv == node_views(nodes@),
            ev == edge_views(edges@),
            universe == path_universe(*scene),
            head <= queue.len(),
            path_after(nv, ev, iters) == (PathState {
                queue: id_texts(queue@).skip(head as int),
                dist: dist_view(dist@),
            }),
            dist_keys(dist@).no_duplicates(),
            forall|t: int| 0 <= t < dist.len() ==> universe.contains(#[trigger] dist_keys(dist@)[t]),
            base.len() <= dist.len(),
            dist@.take(base.len() as int) == base,
        decreases universe.len() - dist.len() + queue.len() - head,
    {
        proof {
            crate::scene_walk::lemma_distinct_within(dist_keys(dist@), universe);
        }
        let source = owned_text(&queue[head]);
        let ghost qq = id_texts(queue@);
        let ghost dd = dist_view(dist@);
        let ghost t0 = head as int;
        let ghost mut expect = PathState { queue: qq.skip(t0 + 1), dist: dd };
        head += 1;
        if let Some(source_distance) = distance_of(&dist, source.as_str()) {
            // the edges out of `source`, by relation priority and then by the
            // position of their target in the scene
            let mut outgoing: Vec<(u8, usize, usize)> = Vec::new();
            let mut e: usize = 0;
            assert(out_view(outgoing@) =~= outgoing_keys(nv, ev, source@, 0));
            while e < edges.len()
                invariant
                    e <= edges.len(),
                    edges == &scene.edges,
                    nodes == &scene.nodes,
                    nv == node_views(nodes@),
                    ev == edge_views(edges@),
                    out_view(outgoing@) == outgoing_keys(nv, ev, source@, e as int),
                    forall|t: int| 0 <= t < outgoing.len() ==> (#[trigger] outgoing@[t]).2 < edges.len(),
                decreases edges.len() - e,
            {
                if str_eq(edges[e].source.as_str(), source.as_str()) {
                    let key = (relation_priority(edges[e].label.as_str()), order_key(nodes, edges[e].target.as_str()), e);
                    let ghost keyv = (key.0, key.1 as int, key.2 as int);
                    let mut pos: usize = 0;
                    while pos < outgoing.len() && (outgoing[pos].0 < key.0 || (outgoing[pos].0 == key.0 && outgoing[pos].1 <= key.1))
                        invariant
                            pos <= outgoing.len(),
                            keyv == (key.0, key.1 as int, key.2 as int),
                            forall|c: int| 0 <= c < pos ==> !out_lt(keyv, #[trigger] out_view(outgoing@)[c]),
                        decreases outgoing.len() - pos,
                    {
                        assert(out_view(outgoing@)[pos as int] == (
                            outgoing@[pos as int].0,
                            outgoing@[pos as int].1 as int,
                            outgoing@[pos as int].2 as int,
                        ));
                        pos += 1;
                    }
                    let ghost before_out = outgoing@;
                    proof {
                        if pos < outgoing.len() {
                            assert(out_lt(keyv, out_view(outgoing@)[pos as int]));
                        }
                        lemma_insert_out(out_view(before_out), pos as int, keyv);
                        assert(keyv == (
                            spec_relation_priority(ev[e as int].label),
                            order_of(nv, ev[e as int].target, nv.len() as int),
                            e as int,
                        ));
                    }
                    outgoing.insert(pos, key);
                    proof {
                        assert(out_view(outgoing@) =~= out_view(before_out).insert(pos as int, keyv));
                        assert forall|t: int| 0 <= t < outgoing.len() implies (#[trigger] outgoing@[t]).2 < edges.len() by {
                            if t < pos {
                                assert(outgoing@[t] == before_out[t]);
                            } else if t > pos {
                                assert(outgoing@[t] == before_out[t - 1]);
                            }
                        }
                    }
                }
                e += 1;
            }
            let next = source_distance.saturating_add(1);
            let ghost d0 = dist.len();
            let ghost q0 = queue.len();
            let ghost tg = out_targets(nv, ev, source@);
            let mut o: usize = 0;
            proof {
                assert(tg.take(0) =~= Seq::<Seq<char>>::empty());
                assert(dd.skip(dd.len() as int).map_values(|p: (Seq<char>, usize)| p.0) =~= Seq::<Seq<char>>::empty());
                assert(id_texts(queue@) =~= qq + dd.skip(dd.len() as int).map_values(|p: (Seq<char>, usize)| p.0));
            }
            while o < outgoing.len()
                invariant
                    o <= outgoing.len(),
                    edges == &scene.edges,
                    nodes == &scene.nodes,
                    nv == node_views(nodes@),
                    ev == edge_views(edges@),
                    out_view(outgoing@) == outgoing_keys(nv, ev, source@, ev.len() as int),
                    tg == out_targets(nv, ev, source@),
                    next == sat_next(source_distance),
                    dd.len() == d0,
                    dist_view(dist@) == absorb(dd, tg.take(o as int), next),
                    id_texts(queue@) == qq + dist_view(dist@).skip(d0 as int).map_values(
                        |p: (Seq<char>, usize)| p.0,
                    ),
                    universe == path_universe(*scene),
                    forall|t: int| 0 <= t < outgoing.len() ==> (#[trigger] outgoing@[t]).2 < edges.len(),
                    dist_keys(dist@).no_duplicates(),
                    forall|t: int| 0 <= t < dist.len() ==> universe.contains(#[trigger] dist_keys(dist@)[t]),
                    base.len() <= dist.len(),
                    dist@.take(base.len() as int) == base,
                    d0 <= dist.len(),
                    dist.len() - d0 == queue.len() - q0,
                    q0 <= queue.len(),
                    head <= q0,
                decreases outgoing.len() - o,
            {
                let target = &edges[outgoing[o].2].target;
                proof {
                    assert(out_view(outgoing@)[o as int].2 == outgoing@[o as int].2 as int);
                    assert(tg[o as int] == target@);
                    assert(tg.take(o + 1).drop_last() =~= tg.take(o as int));
                    assert(tg.take(o + 1).last() == target@);
                }
                let ghost dv_before = dist_view(dist@);
                let ghost q_before = id_texts(queue@);
                if distance_of(&dist, target.as_str()).is_none() {
                    let ghost before = dist@;
                    let ghost idx = outgoing@[o as int].2 as int;
                    proof {
                        if dist_keys(before).contains(target@) {
                            let k = choose|k: int| 0 <= k < before.len() && dist_keys(before)[k] == target@;
                            assert(before[k].0@ == target@);
                        }
                    }
                    add_distance(&mut dist, target, next);
                    queue.push(owned_text(target));
                    proof {
                        assert(universe[nodes.len() + idx] == target@);
                        assert forall|t: int| 0 <= t < dist.len() implies universe.contains(#[trigger] dist_keys(dist@)[t]) by {
                            if t < before.len() {
                                assert(dist_keys(dist@)[t] == dist_keys(before)[t]);
                            } else {
                                assert(universe[nodes.len() + idx] == dist_keys(dist@)[t]);
                            }
                        }
                        assert(dist@.take(base.len() as int) =~= before.take(base.len() as int));
                        assert(id_texts(queue@) =~= q_before.push(target@));
                        assert(dist_view(dist@).skip(d0 as int) =~= dv_before.skip(d0 as int).push((target@, next)));
                    }
                }
                o += 1;
            }
            proof {
                assert(tg.take(tg.len() as int) =~= tg);
                expect = PathState {
                    queue: qq.skip(t0 + 1) + dist_view(dist@).skip(d0 as int).map_values(
                        |p: (Seq<char>, usize)| p.0,
                    ),
                    dist: dist_view(dist@),
                };
            }
        }
        proof {
            let st = path_after(nv, ev, iters);
            assert(st.queue[0] == source@);
            assert(st.queue.drop_first() =~= qq.skip(t0 + 1));
            assert(id_texts(queue@).skip(head as int) =~= expect.queue);
            assert(path_step(nv, ev, st) == expect);
            iters = iters + 1;
        }
    }
    let ghost walked = dist_view(dist@);
    proof {
        assert(id_texts(queue@).skip(head as int).len() == 0);
        assert(walked_distances(nv, ev, walked));
    }
    // the nodes no edge reached get one new distance each, after the largest so far
    let mut largest: usize = 0;
    let mut t: usize = 0;
    assert(walked.take(0) =~= Seq::<(Seq<char>, usize)>::empty());
    while t < dist.len()
        invariant
            t <= dist.len(),
            walked == dist_view(dist@),
            largest == max_distance(walked.take(t as int)),
        decreases dist.len() - t,
    {
        assert(walked.take(t + 1).drop_last() =~= walked.take(t as int));
        assert(walked.take(t + 1).last() == (dist@[t as int].0@, dist@[t as int].1));
        if dist[t].1 > largest {
            largest = dist[t].1;
        }
        t += 1;
    }
    assert(walked.take(dist.len() as int) =~= walked);
    let mut next = largest.saturating_add(1);
    let ghost settled = dist@;
    let ghost next0 = next;
    let mut node_dist: Vec<usize> = Vec::new();
    let mut i: usize = 0;
    while i < nodes.len()
        invariant
            i <= nodes.len(),
            nodes == &scene.nodes,
            nv == node_views(nodes@),
            walked == dist_view(settled),
            next0 == sat_next(max_distance(walked)),
            (dist_view(dist@), next) == number_unreached(walked, nv, next0, i as int),
            forall|k: int|
                0 <= k < i ==> dist_lookup(dist_view(dist@), (#[trigger] nv[k]).id) == Some(node_dist@[k]),
            node_dist.len() == i,
            dist_keys(dist@).no_duplicates(),
            settled.len() <= dist.len(),
            dist@.take(settled.len() as int) == settled,
            base.len() <= settled.len(),
            settled.take(base.len() as int) == base,
            forall|k: int| 0 <= k < i ==> has_distance(dist@, (#[trigger] nodes@[k]).id@, node_dist@[k]),
        decreases nodes.len() - i,
    {
        let ghost dv0 = dist_view(dist@);
        let ghost nd0 = node_dist@;
        assert(nv[i as int].id == nodes@[i as int].id@);
        match distance_of(&dist, nodes[i].id.as_str()) {
            Some(d) => {
                node_dist.push(d);
                assert forall|k: int| 0 <= k < i + 1 implies dist_lookup(dist_view(dist@), (#[trigger] nv[k]).id)
                    == Some(node_dist@[k]) by {
                    if k < i {
                        assert(node_dist@[k] == nd0[k]);
                    }
                }
            },
            None => {
                let ghost before = dist@;
                proof {
                    if dist_keys(before).contains(nodes@[i as int].id@) {
                        let k = choose|k: int| 0 <= k < before.len() && dist_keys(before)[k] == nodes@[i as int].id@;
                        assert(before[k].0@ == nodes@[i as int].id@);
                    }
                }
                add_distance(&mut dist, &nodes[i].id, next);
                node_dist.push(next);
                next = next.saturating_add(1);
                proof {
                    assert(dist_keys(dist@)[before.len() as int] == nodes@[i as int].id@);
                    assert(dist@[before.len() as int].0@ == nodes@[i as int].id@);
                    assert forall|k: int| 0 <= k < i implies has_distance(dist@, (#[trigger] nodes@[k]).id@, node_dist@[k]) by {
                        lemma_distance_kept(before, dist@, nodes@[k].id@, node_dist@[k]);
                    }
                    assert forall|k: int| 0 <= k < i + 1 implies dist_lookup(dist_view(dist@), (#[trigger] nv[k]).id)
                        == Some(node_dist@[k]) by {
                        lemma_lookup_push(dv0, (nv[i as int].id, node_dist@[i as int]), nv[k].id);
                        if k < i {
                            assert(node_dist@[k] == nd0[k]);
                        }
                    }
                    assert(dist@.take(settled.len() as int) =~= before.take(settled.len() as int));
                }
            },
        }
        i += 1;
    }
    proof {
        assert(dist@.take(base.len() as int) =~= settled.take(base.len() as int));
        assert forall|k: int| 0 <= k < nodes.len() && (#[trigger] nodes@[k]).kind@ == "binding"@ implies node_dist@[k] == 0 by {
            lemma_distance_kept(base, dist@, nodes@[k].id@, 0);
            lemma_unique_distance(dist@, nodes@[k].id@, 0, node_dist@[k]);
        }
        if no_bindings {
            lemma_distance_kept(base, dist@, nodes@[0].id@, 0);
            lemma_unique_distance(dist@, nodes@[0].id@, 0, node_dist@[0]);
        }
    }
    proof {
        assert(node_dist@ =~= node_distances(nv, dist_view(dist@)));
        assert(dist_view(dist@) == path_distances(nv, walked));
        if forall|k: int| 0 <= k < nodes.len() ==> (#[trigger] nodes@[k]).kind@ != "binding"@ {
            assert(no_bindings);
        }
    }
    (dist, node_dist)
}

/// The distinct distances of the nodes, smallest first.
fn distinct_levels(node_dist: &Vec<usize>) -> (levels: Vec<usize>)
    ensures
        is_level_list(node_dist@, levels@),
{
    // the distances that occur, smallest first
    let mut levels: Vec<usize> = Vec::new();
    let ghost mut level_of: Seq<int> = Seq::empty();
    let mut i: usize = 0;
    while i < node_dist.len()
        invariant
            i <= node_dist.len(),
            forall|a: int, b: int| 0 <= a < b < levels.len() ==> #[trigger] levels@[a] < #[trigger] levels@[b],
            forall|k: int| 0 <= k < i ==> levels@.contains(#[trigger] node_dist@[k]),
            level_of.len() == levels.len(),
            forall|l: int| 0 <= l < levels.len() ==> 0 <= #[trigger] level_of[l] < node_dist.len() && node_dist@[level_of[l]] == levels@[l],
        decreases node_dist.len() - i,
    {
        let d = node_dist[i];
        let mut pos: usize = 0;
        while pos < levels.len() && levels[pos] < d
            invariant
                pos <= levels.len(),
                forall|c: int| 0 <= c < pos ==> #[trigger] levels@[c] < d,
            decreases levels.len() - pos,
        {
            pos += 1;
        }
        if pos < levels.len() && levels[pos] == d {
            assert(levels@[pos as int] == node_dist@[i as int]);
        } else {
            let ghost before = levels@;
            let ghost before_of = level_of;
            levels.insert(pos, d);
            proof {
                level_of = before_of.insert(pos as int, i as int);
                assert(levels@[pos as int] == d);
                assert forall|a: int, b: int| 0 <= a < b < levels.len() implies #[trigger] levels@[a] < #[trigger] levels@[b] by {
                    if b < pos {
                        assert(levels@[a] == before[a] && levels@[b] == before[b]);
                    } else if b == pos {
                        assert(levels@[a] == before[a]);
                    } else if a < pos {
                        assert(levels@[a] == before[a] && levels@[b] == before[b - 1]);
                    } else if a == pos {
                        assert(levels@[b] == before[b - 1]);
                    } else {
                        assert(levels@[a] == before[a - 1] && levels@[b] == before[b - 1]);
                    }
                }
                assert forall|k: int| 0 <= k < i + 1 implies levels@.contains(#[trigger] node_dist@[k]) by {
                    if k < i {
                        let w = choose|w: int| 0 <= w < before.len() && before[w] == node_dist@[k];
                        if w < pos {
                            assert(levels@[w] == before[w]);
                        } else {
                            assert(levels@[w + 1] == before[w]);
                        }
                    }
                }
                assert forall|l: int| 0 <= l < levels.len() implies 0 <= #[trigger] level_of[l] < node_dist.len() && node_dist@[level_of[l]] == levels@[l] by {
                    if l < pos {
                        assert(level_of[l] == before_of[l] && levels@[l] == before[l]);
                    } else if l > pos {
                        assert(level_of[l] == before_of[l - 1] && levels@[l] == before[l - 1]);
                    }
                }
            }
        }
        i += 1;
    }
    proof {
        assert forall|l: int| 0 <= l < levels.len() implies node_dist@.contains(#[trigger] levels@[l]) by {
            assert(node_dist@[level_of[l]] == levels@[l]);
        }
    }
    levels
}

/// Stages built level by level from the walked distances form the path.
proof fn lemma_memory_path(
    nodes: Seq<NodeView>,
    edges: Seq<EdgeView>,
    walked: Seq<(Seq<char>, usize)>,
    levels: Seq<usize>,
    stages: Seq<BeginnerMemoryStage>,
    dist: Seq<(Seq<char>, usize)>,
    nd: Seq<usize>,
)
    requires
        walked_distances(nodes, edges, walked),
        dist == path_distances(nodes, walked),
        nd == node_distances(nodes, dist),
        is_level_list(nd, levels),
        stages.len() == levels.len(),
        forall|q: int|
            0 <= q < stages.len() ==> node_views((#[trigger] stages[q]).nodes@) == stage_members(
                nodes,
                nd,
                levels[q],
            ),
        forall|q: int|
            0 <= q < stages.len() ==> arriving_labels(
                id_texts((#[trigger] stages[q]).relation_from_previous@),
                edges,
                dist,
                stage_members(nodes, nd, levels[q]),
                levels[q],
            ),
    ensures
        is_memory_path(nodes, edges, stages),
{
    assert(stages_at(nodes, edges, walked, levels, stages));
}

/// The scene's nodes grouped into stages by distance: the variables (or,
/// without any, the first node) at distance zero, each target of an edge
/// one further than the nearest source a breadth-first walk reaches it from
/// (closest relations first), and the nodes no edge reaches numbered after
/// the largest, one each. Stages come nearest first; within a stage, nodes
/// by the scene position of their id, and the beginner labels of the edges
/// arriving from nearer nodes, sorted and without repeats.
#[verifier::rlimit(40)]
pub fn derive_beginner_memory_path(scene: &OwnershipTopologyScene) -> (r: BeginnerMemoryPath)
    ensures
        r.truncated == scene.truncated,
        scene.nodes.len() == 0 ==> r.stages.len() == 0,
        scene.nodes.len() > 0 ==> is_memory_path(
            node_views(scene.nodes@),
            edge_views(scene.edges@),
            r.stages@,
        ),
        forall|s: int| 0 <= s < r.stages.len() ==> (#[trigger] r.stages@[s]).nodes.len() > 0,
        forall|s: int|
            0 <= s < r.stages.len() ==> strictly_sorted(
                id_texts((#[trigger] r.stages@[s]).relation_from_previous@),
            ),
        forall|i: int| 0 <= i < scene.nodes.len() ==> in_some_stage(r.stages@, #[trigger] scene.nodes@[i]@),
        forall|s: int, k: int|
            0 <= s < r.stages.len() && 0 <= k < r.stages@[s].nodes.len() ==> node_views(
                scene.nodes@,
            ).contains(#[trigger] r.stages@[s].nodes@[k]@),
        forall|i: int|
            0 <= i < scene.nodes.len() && (#[trigger] scene.nodes@[i]).kind@ == "binding"@ ==> r.stages.len() > 0
                && node_views(r.stages@[0].nodes@).contains(scene.nodes@[i]@),
        ((forall|i: int| 0 <= i < scene.nodes.len() ==> (#[trigger] scene.nodes@[i]).kind@ != "binding"@)
            && scene.nodes.len() > 0) ==> r.stages.len() > 0 && node_views(r.stages@[0].nodes@).contains(
            scene.nodes@[0]@,
        ),
{
    let nodes = &scene.nodes;
    let edges = &scene.edges;
    if nodes.len() == 0 {
        return BeginnerMemoryPath { stages: Vec::new(), truncated: scene.truncated };
    }
    let (dist, node_dist) = walk_distances(scene);
    let ghost nv = node_views(nodes@);
    let ghost ev = edge_views(edges@);
    let ghost walked = choose|w: Seq<(Seq<char>, usize)>|
        #[trigger] walked_distances(nv, ev, w) && dist_view(dist@) == path_distances(nv, w);
    let ghost no_bindings = forall|k: int| 0 <= k < nodes.len() ==> (#[trigger] nodes@[k]).kind@ != "binding"@;
    let levels = distinct_levels(&node_dist);
    // one stage per distance
    let ghost fin = dist_view(dist@);
    let ghost nds = node_dist@;
    proof {
        assert(nds =~= node_distances(nv, fin));
    }
    let mut stages: Vec<BeginnerMemoryStage> = Vec::new();
    let mut s: usize = 0;
    while s < levels.len()
        invariant
            s <= levels.len(),
            nodes == &scene.nodes,
            edges == &scene.edges,
            nv == node_views(nodes@),
            ev == edge_views(edges@),
            fin == dist_view(dist@),
            nds == node_dist@,
            forall|q: int|
                0 <= q < s ==> node_views((#[trigger] stages@[q]).nodes@) == stage_members(
                    nv,
                    nds,
                    levels@[q],
                ),
            forall|q: int|
                0 <= q < s ==> arriving_labels(
                    id_texts((#[trigger] stages@[q]).relation_from_previous@),
                    ev,
                    fin,
                    stage_members(nv, nds, levels@[q]),
                    levels@[q],
                ),
            node_dist.len() == nodes.len(),
            stages.len() == s,
            forall|a: int, b: int| 0 <= a < b < levels.len() ==> #[trigger] levels@[a] < #[trigger] levels@[b],
            is_level_list(nds, levels@),
            forall|q: int| 0 <= q < s ==> (#[trigger] stages@[q]).nodes.len() > 0,
            forall|q: int| 0 <= q < s ==> strictly_sorted(id_texts((#[trigger] stages@[q]).relation_from_previous@)),
            forall|q: int, k: int| 0 <= q < s && 0 <= k < stages@[q].nodes.len() ==> node_views(nodes@).contains(#[trigger] stages@[q].nodes@[k]@),
            forall|k: int| 0 <= k < nodes.len() && #[trigger] node_dist@[k] == levels@[0] && s > 0 ==> node_views(stages@[0].nodes@).contains(nodes@[k]@),
            forall|k: int, q: int| 0 <= k < nodes.len() && 0 <= q < s && #[trigger] node_dist@[k] == #[trigger] levels@[q] ==> in_some_stage(stages@, nodes@[k]@),
        decreases levels.len() - s,
    {
        let level = levels[s];
        let stage = build_stage(nodes, edges, &dist, &node_dist, level);
        let ghost before_stages = stages@;
        proof {
            assert(nds.contains(levels@[s as int]));
            let w = choose|w: int| 0 <= w < nds.len() && nds[w] == levels@[s as int];
            assert(node_dist@[w] == level);
            assert(node_views(stage.nodes@).contains(nodes@[w]@));
        }
        stages.push(stage);
        proof {
            assert(stages@[s as int] == stage);
            assert forall|q: int| 0 <= q < s + 1 implies (#[trigger] stages@[q]).nodes.len() > 0 by {
                if q < s {
                    assert(stages@[q] == before_stages[q]);
                }
            }
            assert forall|q: int| 0 <= q < s + 1 implies strictly_sorted(id_texts((#[trigger] stages@[q]).relation_from_previous@)) by {
                if q < s {
                    assert(stages@[q] == before_stages[q]);
                }
            }
            assert forall|q: int| 0 <= q < s + 1 implies node_views((#[trigger] stages@[q]).nodes@) == stage_members(
                nv,
                nds,
                levels@[q],
            ) by {
                if q < s {
                    assert(stages@[q] == before_stages[q]);
                }
            }
            assert forall|q: int| 0 <= q < s + 1 implies arriving_labels(
                id_texts((#[trigger] stages@[q]).relation_from_previous@),
                ev,
                fin,
                stage_members(nv, nds, levels@[q]),
                levels@[q],
            ) by {
                if q < s {
                    assert(stages@[q] == before_stages[q]);
                }
            }
            assert forall|q: int, k: int| 0 <= q < s + 1 && 0 <= k < stages@[q].nodes.len() implies node_views(nodes@).contains(#[trigger] stages@[q].nodes@[k]@) by {
                if q < s {
                    assert(stages@[q] == before_stages[q]);
                }
            }
            assert forall|k: int| 0 <= k < nodes.len() && #[trigger] node_dist@[k] == levels@[0] && s + 1 > 0 implies node_views(stages@[0].nodes@).contains(nodes@[k]@) by {
                if s > 0 {
                    assert(stages@[0] == before_stages[0]);
                }
            }
            assert forall|k: int, q: int| 0 <= k < nodes.len() && 0 <= q < s + 1 && #[trigger] node_dist@[k] == #[trigger] levels@[q] implies in_some_stage(stages@, nodes@[k]@) by {
                if q < s {
                    assert(in_some_stage(before_stages, nodes@[k]@));
                    let (a, b) = choose|a: int, b: int| 0 <= a < before_stages.len() && 0 <= b < before_stages[a].nodes@.len() && #[trigger] before_stages[a].nodes@[b]@ == nodes@[k]@;
                    assert(stages@[a] == before_stages[a]);
                    assert(stages@[a].nodes@[b]@ == nodes@[k]@);
                } else {
                    assert(node_views(stage.nodes@).contains(nodes@[k]@));
                    let tt = choose|tt: int| 0 <= tt < stage.nodes.len() && node_views(stage.nodes@)[tt] == nodes@[k]@;
                    assert(stages@[q].nodes@[tt]@ == nodes@[k]@);
                }
            }
        }
        s += 1;
    }
    proof {
        assert forall|k: int| 0 <= k < nodes.len() implies in_some_stage(stages@, #[trigger] scene.nodes@[k]@) by {
            assert(levels@.contains(node_dist@[k]));
            let q = choose|q: int| 0 <= q < levels.len() && levels@[q] == node_dist@[k];
            assert(node_dist@[k] == levels@[q]);
        }
        assert(levels.len() > 0) by {
            assert(levels@.contains(node_dist@[0]));
        }
        assert forall|k: int| 0 <= k < nodes.len() && (#[trigger] scene.nodes@[k]).kind@ == "binding"@ implies stages.len() > 0
            && node_views(stages@[0].nodes@).contains(scene.nodes@[k]@) by {
            assert(node_dist@[k] == 0);
            assert(levels@.contains(node_dist@[k]));
            let q = choose|q: int| 0 <= q < levels.len() && levels@[q] == node_dist@[k];
            if q > 0 {
                assert(levels@[0] < levels@[q]);
            }
            assert(node_dist@[k] == levels@[0]);
        }
        if no_bindings {
            assert(node_dist@[0] == 0);
            assert(levels@.contains(node_dist@[0]));
            let q = choose|q: int| 0 <= q < levels.len() && levels@[q] == node_dist@[0];
            if q > 0 {
                assert(levels@[0] < levels@[q]);
            }
            assert(node_dist@[0] == levels@[0]);
            assert(node_views(stages@[0].nodes@).contains(nodes@[0]@));
        } else {
            let t = choose|t: int| 0 <= t < nodes.len() && (#[trigger] nodes@[t]).kind@ == "binding"@;
            assert(scene.nodes@[t].kind@ == "binding"@);
        }
    }
    proof {
        lemma_memory_path(nv, ev, walked, levels@, stages@, fin, nds);
    }
    BeginnerMemoryPath { stages, truncated: scene.truncated }
}

} // verus!
