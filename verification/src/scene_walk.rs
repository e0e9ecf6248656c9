//! Choosing which nodes a scene keeps: a breadth-first walk from the
//! selected variables along the scene's edges, closest relations first,
//! up to a node limit.
use vstd::prelude::*;

use crate::text::{has_substring, seq_contains, seq_lt, str_eq, str_lt};
use crate::topology::{
    edge_views, node_views, place_root, relation_priority, spec_place_root,
    spec_relation_priority, EdgeView, NodeView, TopologyEdge, TopologyNode,
};

verus! {

/// The text of each string, in order.
pub open spec fn id_texts(v: Seq<String>) -> Seq<Seq<char>> {
    v.map_values(|s: String| s@)
}

/// A variable node that one of the selected names refers to, by its root
/// or inside its label.
pub open spec fn root_match(n: NodeView, names: Seq<Seq<char>>) -> bool {
    n.kind == "binding"@ && exists|k: int|
        0 <= k < names.len() && (spec_place_root(n.place) == spec_place_root(#[trigger] names[k])
            || seq_contains(n.label, spec_place_root(names[k])))
}

/// The position of the first variable node at or after `i`.
pub open spec fn first_binding_from(nodes: Seq<NodeView>, i: int) -> Option<int>
    decreases nodes.len() - i,
{
    if i < 0 || i >= nodes.len() {
        None
    } else if nodes[i].kind == "binding"@ {
        Some(i)
    } else {
        first_binding_from(nodes, i + 1)
    }
}

/// The ids of the matched variable nodes in order, else the first variable
/// node, else the first node.
pub open spec fn spec_roots(nodes: Seq<NodeView>, names: Seq<Seq<char>>) -> Seq<Seq<char>> {
    let matched = nodes.filter(|n: NodeView| root_match(n, names)).map_values(
        |n: NodeView| n.id,
    );
    if matched.len() > 0 {
        matched
    } else {
        match first_binding_from(nodes, 0) {
            Some(b) => seq![nodes[b].id],
            None => if nodes.len() > 0 {
                seq![nodes[0].id]
            } else {
                Seq::empty()
            },
        }
    }
}

/// The other end of `e`, seen from `id`.
pub open spec fn neighbor(e: EdgeView, id: Seq<char>) -> Option<Seq<char>> {
    if e.source == id {
        Some(e.target)
    } else if e.target == id {
        Some(e.source)
    } else {
        None
    }
}

/// `x` is the other end of `e`, seen from `id`.
pub open spec fn is_neighbor_of(e: EdgeView, id: Seq<char>, x: Seq<char>) -> bool {
    neighbor(e, id) == Some(x)
}

/// `x` is the other end of some edge seen from one of `from`.
pub open spec fn reached_from(edges: Seq<EdgeView>, from: Seq<Seq<char>>, x: Seq<char>) -> bool {
    exists|j: int, m: int|
        0 <= j < edges.len() && 0 <= m < from.len() && #[trigger] is_neighbor_of(
            edges[j],
            from[m],
            x,
        )
}

/// Every edge with one end among `ids` has its other end among them too.
pub open spec fn closed_under_edges(edges: Seq<EdgeView>, ids: Seq<Seq<char>>) -> bool {
    forall|j: int|
        0 <= j < edges.len() ==> (ids.contains(#[trigger] edges[j].source) <==> ids.contains(
            edges[j].target,
        ))
}

/// The order adjacent nodes are visited in: outgoing before incoming, then
/// by relation priority, then by id.
pub open spec fn key_lt(a: (bool, u8, Seq<char>), b: (bool, u8, Seq<char>)) -> bool {
    (!a.0 && b.0) || (a.0 == b.0 && (a.1 < b.1 || (a.1 == b.1 && seq_lt(a.2, b.2))))
}

pub open spec fn key_view(k: (bool, u8, String)) -> (bool, u8, Seq<char>) {
    (k.0, k.1, k.2@)
}

pub open spec fn key_views(v: Seq<(bool, u8, String)>) -> Seq<(bool, u8, Seq<char>)> {
    v.map_values(|k: (bool, u8, String)| key_view(k))
}

/// The visiting key of the other end of `e`, seen from `id`: whether the
/// edge comes in, its relation priority, and the other end's id.
pub open spec fn adjacency_key(e: EdgeView, id: Seq<char>) -> Option<(bool, u8, Seq<char>)> {
    if e.source == id {
        Some((false, spec_relation_priority(e.label), e.target))
    } else if e.target == id {
        Some((true, spec_relation_priority(e.label), e.source))
    } else {
        None
    }
}

/// `k` put into `s` just before the first entry it comes before.
pub open spec fn insert_by_key(s: Seq<(bool, u8, Seq<char>)>, k: (bool, u8, Seq<char>)) -> Seq<
    (bool, u8, Seq<char>),
>
    decreases s.len(),
{
    if s.len() == 0 {
        seq![k]
    } else if key_lt(k, s[0]) {
        seq![k] + s
    } else {
        seq![s[0]] + insert_by_key(s.drop_first(), k)
    }
}

/// The keys of the other ends of the first `n` edges seen from `id`, sorted
/// by `key_lt` (equal keys in edge order).
pub open spec fn adjacency(edges: Seq<EdgeView>, id: Seq<char>, n: int) -> Seq<
    (bool, u8, Seq<char>),
>
    decreases n,
{
    if n <= 0 || n > edges.len() {
        Seq::empty()
    } else {
        let before = adjacency(edges, id, n - 1);
        match adjacency_key(edges[n - 1], id) {
            Some(k) => insert_by_key(before, k),
            None => before,
        }
    }
}

/// The ids of `keys`, in order, leaving out those already selected.
pub open spec fn unvisited(keys: Seq<(bool, u8, Seq<char>)>, selected: Seq<Seq<char>>) -> Seq<
    Seq<char>,
> {
    keys.map_values(|k: (bool, u8, Seq<char>)| k.2).filter(|x: Seq<char>| !selected.contains(x))
}

/// Where the walk stands: the ids still queued, and those kept so far.
pub struct WalkState {
    pub queue: Seq<Seq<char>>,
    pub selected: Seq<Seq<char>>,
}

/// The walk is over when nothing is queued or `limit` ids are kept.
pub open spec fn walk_finished(s: WalkState, limit: nat) -> bool {
    s.queue.len() == 0 || s.selected.len() >= limit
}

/// One step of the walk: take the first queued id; unless it was kept
/// already, keep it and, below the limit, queue the ids next to it that are
/// not kept yet, in visiting order.
pub open spec fn walk_step(edges: Seq<EdgeView>, limit: nat, s: WalkState) -> WalkState {
    if walk_finished(s, limit) {
        s
    } else {
        let id = s.queue[0];
        let rest = s.queue.drop_first();
        if s.selected.contains(id) {
            WalkState { queue: rest, selected: s.selected }
        } else {
            let kept = s.selected.push(id);
            if kept.len() < limit {
                WalkState {
                    queue: rest + unvisited(adjacency(edges, id, edges.len() as int), kept),
                    selected: kept,
                }
            } else {
                WalkState { queue: rest, selected: kept }
            }
        }
    }
}

/// The walk from `roots` after `n` steps.
pub open spec fn walk_after(edges: Seq<EdgeView>, limit: nat, roots: Seq<Seq<char>>, n: nat) -> WalkState
    decreases n,
{
    if n == 0 {
        WalkState { queue: roots, selected: Seq::empty() }
    } else {
        walk_step(edges, limit, walk_after(edges, limit, roots, (n - 1) as nat))
    }
}

/// `ids` is what the walk from `roots` keeps once it is over.
pub open spec fn walk_result(
    edges: Seq<EdgeView>,
    limit: nat,
    roots: Seq<Seq<char>>,
    ids: Seq<Seq<char>>,
) -> bool {
    exists|n: nat|
        walk_finished(#[trigger] walk_after(edges, limit, roots, n), limit) && walk_after(
            edges,
            limit,
            roots,
            n,
        ).selected == ids
}

/// Once over, the walk stays where it is.
proof fn lemma_walk_stays_finished(
    edges: Seq<EdgeView>,
    limit: nat,
    roots: Seq<Seq<char>>,
    n: nat,
    m: nat,
)
    requires
        walk_finished(walk_after(edges, limit, roots, n), limit),
        n <= m,
    ensures
        walk_after(edges, limit, roots, m) == walk_after(edges, limit, roots, n),
    decreases m - n,
{
    if n < m {
        lemma_walk_stays_finished(edges, limit, roots, n, (m - 1) as nat);
    }
}

/// The walk keeps one sequence of ids: two finished walks from the same
/// roots over the same edges and limit kept the same ids.
pub proof fn walk_result_is_unique(
    edges: Seq<EdgeView>,
    limit: nat,
    roots: Seq<Seq<char>>,
    a: Seq<Seq<char>>,
    b: Seq<Seq<char>>,
)
    requires
        walk_result(edges, limit, roots, a),
        walk_result(edges, limit, roots, b),
    ensures
        a == b,
{
    let n = choose|n: nat|
        walk_finished(#[trigger] walk_after(edges, limit, roots, n), limit) && walk_after(
            edges,
            limit,
            roots,
            n,
        ).selected == a;
    let m = choose|m: nat|
        walk_finished(#[trigger] walk_after(edges, limit, roots, m), limit) && walk_after(
            edges,
            limit,
            roots,
            m,
        ).selected == b;
    if n <= m {
        lemma_walk_stays_finished(edges, limit, roots, n, m);
    } else {
        lemma_walk_stays_finished(edges, limit, roots, m, n);
    }
}

/// Putting `k` just before the first entry it comes before is `insert_by_key`.
proof fn lemma_insert_by_key(s: Seq<(bool, u8, Seq<char>)>, pos: int, k: (bool, u8, Seq<char>))
    requires
        0 <= pos <= s.len(),
        forall|c: int| 0 <= c < pos ==> !key_lt(k, #[trigger] s[c]),
        pos < s.len() ==> key_lt(k, s[pos]),
    ensures
        s.insert(pos, k) == insert_by_key(s, k),
    decreases s.len(),
{
    if s.len() == 0 {
        assert(s.insert(pos, k) =~= seq![k]);
    } else if pos == 0 {
        assert(s.insert(pos, k) =~= seq![k] + s);
    } else {
        assert(!key_lt(k, s[0]));
        let t = s.drop_first();
        assert forall|c: int| 0 <= c < pos - 1 implies !key_lt(k, #[trigger] t[c]) by {
            assert(t[c] == s[c + 1]);
        }
        lemma_insert_by_key(t, pos - 1, k);
        assert(s.insert(pos, k) =~= seq![s[0]] + t.insert(pos - 1, k));
    }
}

fn contains_id(ids: &Vec<String>, id: &str) -> (r: bool)
    ensures
        r == id_texts(ids@).contains(id@),
{
    let mut i: usize = 0;
    while i < ids.len()
        invariant
            i <= ids.len(),
            forall|k: int| 0 <= k < i ==> id_texts(ids@)[k] != id@,
        decreases ids.len() - i,
    {
        if str_eq(ids[i].as_str(), id) {
            assert(id_texts(ids@)[i as int] == id@);
            return true;
        }
        i += 1;
    }
    false
}

fn owned_string(s: &String) -> (r: String)
    ensures
        r@ == s@,
{
    s.clone()
}

fn key_less(a: &(bool, u8, String), b: &(bool, u8, String)) -> (r: bool)
    ensures
        r == key_lt(key_view(*a), key_view(*b)),
{
    if a.0 != b.0 {
        !a.0
    } else if a.1 != b.1 {
        a.1 < b.1
    } else {
        str_lt(a.2.as_str(), b.2.as_str())
    }
}

/// Puts `key` into the list before the first entry it comes before; gives
/// the position it was put at.
fn insert_ordered(list: &mut Vec<(bool, u8, String)>, key: (bool, u8, String)) -> (r: usize)
    ensures
        r <= old(list).len(),
        final(list)@ == old(list)@.insert(r as int, key),
        forall|c: int| 0 <= c < r ==> !key_lt(key_view(key), key_view(old(list)@[c])),
        r < old(list).len() ==> key_lt(key_view(key), key_view(old(list)@[r as int])),
{
    let mut pos: usize = 0;
    while pos < list.len() && !key_less(&key, &list[pos])
        invariant
            pos <= list.len(),
            forall|c: int| 0 <= c < pos ==> !key_lt(key_view(key), key_view(list@[c])),
        decreases list.len() - pos,
    {
        pos += 1;
    }
    list.insert(pos, key);
    pos
}

/// The text of each selected name.
pub open spec fn name_texts(names: Seq<&str>) -> Seq<Seq<char>> {
    names.map_values(|s: &str| s@)
}

/// Every id the walk can meet: the roots and both ends of every edge.
pub open spec fn walk_universe(roots: Seq<Seq<char>>, edges: Seq<EdgeView>) -> Seq<Seq<char>> {
    roots + edges.map_values(|e: EdgeView| e.source) + edges.map_values(|e: EdgeView| e.target)
}

fn refers_to(node: &TopologyNode, names: &[&str]) -> (r: bool)
    ensures
        r == root_match(node@, name_texts(names@)),
{
    if !str_eq(node.kind.as_str(), "binding") {
        return false;
    }
    let root = place_root(node.place.as_str());
    let mut k: usize = 0;
    while k < names.len()
        invariant
            k <= names.len(),
            node.kind@ == "binding"@,
            root@ == spec_place_root(node.place@),
            forall|t: int|
                0 <= t < k ==> !(spec_place_root(node.place@) == spec_place_root(
                    #[trigger] name_texts(names@)[t],
                ) || seq_contains(node.label@, spec_place_root(name_texts(names@)[t]))),
        decreases names.len() - k,
    {
        let selected = place_root(names[k]);
        if str_eq(root, selected) || has_substring(node.label.as_str(), selected) {
            proof {
                let t = name_texts(names@);
                assert(t[k as int] == names@[k as int]@);
                assert(spec_place_root(node@.place) == spec_place_root(t[k as int]) || seq_contains(
                    node@.label,
                    spec_place_root(t[k as int]),
                ));
                assert(node@.kind == "binding"@);
                assert(0 <= k < t.len());
                assert(root_match(node@, t));
            }
            return true;
        }
        k += 1;
    }
    false
}

/// The ids the walk starts from.
fn walk_roots(nodes: &Vec<TopologyNode>, names: &[&str]) -> (r: Vec<String>)
    ensures
        id_texts(r@) == spec_roots(node_views(nodes@), name_texts(names@)),
{
    let ghost all = node_views(nodes@);
    let mut matched: Vec<String> = Vec::new();
    let mut i: usize = 0;
    assert(all.take(0) =~= Seq::<NodeView>::empty());
    reveal(Seq::filter);
    assert(all.take(0).filter(|n: NodeView| root_match(n, name_texts(names@))) =~= Seq::<
        NodeView,
    >::empty());
    while i < nodes.len()
        invariant
            i <= nodes.len(),
            all == node_views(nodes@),
            id_texts(matched@) =~= all.take(i as int).filter(
                |n: NodeView| root_match(n, name_texts(names@)),
            ).map_values(|n: NodeView| n.id),
        decreases nodes.len() - i,
    {
        reveal(Seq::filter);
        assert(all.take(i + 1).drop_last() =~= all.take(i as int));
        assert(all.take(i + 1).last() == nodes@[i as int]@);
        let ghost before = id_texts(matched@);
        if refers_to(&nodes[i], names) {
            matched.push(owned_string(&nodes[i].id));
            assert(id_texts(matched@) =~= before.push(nodes@[i as int].id@));
        }
        i += 1;
    }
    assert(all.take(nodes.len() as int) =~= all);
    if matched.len() > 0 {
        return matched;
    }
    let mut b: usize = 0;
    while b < nodes.len() && !str_eq(nodes[b].kind.as_str(), "binding")
        invariant
            b <= nodes.len(),
            all == node_views(nodes@),
            first_binding_from(all, 0) == first_binding_from(all, b as int),
        decreases nodes.len() - b,
    {
        b += 1;
    }
    let mut r: Vec<String> = Vec::new();
    if b < nodes.len() {
        r.push(owned_string(&nodes[b].id));
    } else if nodes.len() > 0 {
        r.push(owned_string(&nodes[0].id));
    }
    assert(id_texts(r@) =~= spec_roots(all, name_texts(names@)));
    r
}

/// `x` is the other end of one of the first `j` edges, seen from `id`.
pub open spec fn justified_entry(ev: Seq<EdgeView>, id: Seq<char>, x: Seq<char>, j: int) -> bool {
    exists|k: int| 0 <= k < j && #[trigger] is_neighbor_of(ev[k], id, x)
}

/// Every entry is the other end of an edge among the first `j`.
pub open spec fn entries_justified(
    ev: Seq<EdgeView>,
    id: Seq<char>,
    entries: Seq<(bool, u8, String)>,
    j: int,
) -> bool {
    forall|c: int| 0 <= c < entries.len() ==> justified_entry(ev, id, (#[trigger] entries[c]).2@, j)
}

/// Every other end of an edge among the first `j` is an entry.
pub open spec fn entries_complete(
    ev: Seq<EdgeView>,
    id: Seq<char>,
    entries: Seq<(bool, u8, String)>,
    j: int,
) -> bool {
    forall|k: int|
        0 <= k < j ==> (neighbor(#[trigger] ev[k], id) matches Some(y) ==> exists|c: int|
            0 <= c < entries.len() && #[trigger] entries[c].2@ == y)
}

/// The ids adjacent to `id`, each with its direction and relation priority,
/// in visiting order.
fn adjacent_entries(edges: &Vec<TopologyEdge>, id: &str) -> (r: Vec<(bool, u8, String)>)
    ensures
        entries_justified(edge_views(edges@), id@, r@, edges.len() as int),
        entries_complete(edge_views(edges@), id@, r@, edges.len() as int),
        key_views(r@) == adjacency(edge_views(edges@), id@, edges.len() as int),
{
    let ghost ev = edge_views(edges@);
    let mut r: Vec<(bool, u8, String)> = Vec::new();
    let ghost mut origin: Seq<int> = Seq::empty();
    let ghost mut slot: Seq<int> = Seq::empty();
    let mut j: usize = 0;
    while j < edges.len()
        invariant
            j <= edges.len(),
            ev == edge_views(edges@),
            origin.len() == r.len(),
            slot.len() == j,
            key_views(r@) == adjacency(ev, id@, j as int),
            forall|c: int|
                0 <= c < r.len() ==> 0 <= #[trigger] origin[c] < j && neighbor(
                    ev[origin[c]],
                    id@,
                ) == Some(r@[c].2@),
            forall|k: int|
                0 <= k < j ==> (neighbor(ev[k], id@) matches Some(y) ==> 0 <= #[trigger] slot[k]
                    < r.len() && r@[slot[k]].2@ == y),
        decreases edges.len() - j,
    {
        let edge = &edges[j];
        let entry: Option<(bool, u8, String)> = if str_eq(edge.source.as_str(), id) {
            Some((false, relation_priority(edge.label.as_str()), owned_string(&edge.target)))
        } else if str_eq(edge.target.as_str(), id) {
            Some((true, relation_priority(edge.label.as_str()), owned_string(&edge.source)))
        } else {
            None
        };
        let ghost before = r@;
        match entry {
            Some(key) => {
                assert(neighbor(ev[j as int], id@) == Some(key.2@));
                assert(adjacency_key(ev[j as int], id@) == Some(key_view(key)));
                let pos = insert_ordered(&mut r, key);
                proof {
                    let kb = key_views(before);
                    assert forall|c: int| 0 <= c < pos implies !key_lt(key_view(key), #[trigger] kb[c]) by {
                        assert(kb[c] == key_view(before[c]));
                    }
                    lemma_insert_by_key(kb, pos as int, key_view(key));
                    assert(key_views(r@) =~= kb.insert(pos as int, key_view(key)));
                    let old_origin = origin;
                    let old_slot = slot;
                    origin = old_origin.insert(pos as int, j as int);
                    slot = Seq::new(
                        (j + 1) as nat,
                        |k: int|
                            if k == j {
                                pos as int
                            } else if old_slot[k] >= pos {
                                old_slot[k] + 1
                            } else {
                                old_slot[k]
                            },
                    );
                    assert forall|c: int| 0 <= c < r.len() implies 0 <= #[trigger] origin[c] < j + 1
                        && neighbor(ev[origin[c]], id@) == Some(r@[c].2@) by {
                        if c < pos {
                            assert(origin[c] == old_origin[c] && r@[c] == before[c]);
                        } else if c == pos {
                        } else {
                            assert(origin[c] == old_origin[c - 1] && r@[c] == before[c - 1]);
                        }
                    }
                    assert forall|k: int| 0 <= k < j + 1 implies (neighbor(ev[k], id@) matches Some(
                        y,
                    ) ==> 0 <= #[trigger] slot[k] < r.len() && r@[slot[k]].2@ == y) by {
                        if k < j {
                            if let Some(y) = neighbor(ev[k], id@) {
                                assert(0 <= old_slot[k] < before.len());
                                if old_slot[k] >= pos {
                                    assert(r@[old_slot[k] + 1] == before[old_slot[k]]);
                                } else {
                                    assert(r@[old_slot[k]] == before[old_slot[k]]);
                                }
                            }
                        }
                    }
                }
            },
            None => {
                proof {
                    slot = slot.push(0);
                    assert(neighbor(ev[j as int], id@) is None);
                    assert(adjacency_key(ev[j as int], id@) is None);
                    assert forall|k: int| 0 <= k < j + 1 implies (neighbor(ev[k], id@) matches Some(
                        y,
                    ) ==> 0 <= #[trigger] slot[k] < r.len() && r@[slot[k]].2@ == y) by {
                        if k < j {
                            assert(slot[k] == slot.drop_last()[k]);
                        }
                    }
                }
            },
        }
        j += 1;
    }
    proof {
        assert forall|c: int| 0 <= c < r.len() implies justified_entry(
            ev,
            id@,
            (#[trigger] r@[c]).2@,
            edges.len() as int,
        ) by {
            assert(is_neighbor_of(ev[origin[c]], id@, r@[c].2@));
        }
        assert forall|k: int| 0 <= k < edges.len() implies (neighbor(#[trigger] ev[k], id@) matches Some(
            y,
        ) ==> exists|c: int| 0 <= c < r.len() && #[trigger] r@[c].2@ == y) by {
            if let Some(y) = neighbor(ev[k], id@) {
                assert(r@[slot[k]].2@ == y);
            }
        }
        assert(entries_justified(ev, id@, r@, edges.len() as int));
    }
    r
}

/// Every element of `a` is in `b`, and `a` repeats nothing: `a` is no longer than `b`.
pub proof fn lemma_distinct_within(a: Seq<Seq<char>>, b: Seq<Seq<char>>)
    requires
        a.no_duplicates(),
        forall|i: int| 0 <= i < a.len() ==> b.contains(#[trigger] a[i]),
    ensures
        a.len() <= b.len(),
{
    a.unique_seq_to_set();
    b.lemma_cardinality_of_set();
    vstd::seq_lib::seq_to_set_is_finite(b);
    assert(a.to_set().subset_of(b.to_set())) by {
        assert forall|x: Seq<char>| a.to_set().contains(x) implies b.to_set().contains(x) by {
            let i = choose|i: int| 0 <= i < a.len() && a[i] == x;
            assert(b.contains(a[i]));
        }
    }
    vstd::set_lib::lemma_len_subset(a.to_set(), b.to_set());
}

/// The other end of an edge is an id the walk can meet.
proof fn lemma_neighbor_in_universe(roots: Seq<Seq<char>>, edges: Seq<EdgeView>, j: int, id: Seq<char>, y: Seq<char>)
    requires
        0 <= j < edges.len(),
        is_neighbor_of(edges[j], id, y),
    ensures
        walk_universe(roots, edges).contains(y),
{
    let u = walk_universe(roots, edges);
    let sources = edges.map_values(|e: EdgeView| e.source);
    let targets = edges.map_values(|e: EdgeView| e.target);
    if edges[j].source == id {
        assert(u[roots.len() + edges.len() + j] == targets[j]);
    } else {
        assert(u[roots.len() + j] == sources[j]);
    }
}

/// `x` is the id of one of the entries.
pub open spec fn is_entry(entries: Seq<(bool, u8, String)>, x: Seq<char>) -> bool {
    exists|c: int| 0 <= c < entries.len() && #[trigger] entries[c].2@ == x
}

/// Appends to the queue, in order, each candidate not yet selected.
fn enqueue_unvisited(
    queue: &mut Vec<String>,
    selected: &Vec<String>,
    entries: &Vec<(bool, u8, String)>,
)
    ensures
        old(queue).len() <= final(queue).len(),
        forall|t: int| 0 <= t < old(queue).len() ==> #[trigger] final(queue)@[t] == old(queue)@[t],
        forall|t: int|
            old(queue).len() <= t < final(queue).len() ==> is_entry(entries@, (#[trigger] final(queue)@[t])@),
        forall|c: int|
            0 <= c < entries.len() ==> id_texts(selected@).contains((#[trigger] entries@[c]).2@)
                || id_texts(final(queue)@).contains(entries@[c].2@),
        id_texts(final(queue)@) == id_texts(old(queue)@) + unvisited(
            key_views(entries@),
            id_texts(selected@),
        ),
{
    let ghost start = queue@;
    let ghost keys = key_views(entries@);
    let ghost sel = id_texts(selected@);
    let mut a: usize = 0;
    proof {
        reveal(Seq::filter);
        assert(unvisited(keys.take(0), sel) =~= Seq::<Seq<char>>::empty());
        assert(id_texts(queue@) =~= id_texts(start) + unvisited(keys.take(0), sel));
    }
    while a < entries.len()
        invariant
            a <= entries.len(),
            keys == key_views(entries@),
            sel == id_texts(selected@),
            id_texts(queue@) == id_texts(start) + unvisited(keys.take(a as int), sel),
            start.len() <= queue.len(),
            forall|t: int| 0 <= t < start.len() ==> #[trigger] queue@[t] == start[t],
            forall|t: int|
                start.len() <= t < queue.len() ==> is_entry(entries@, (#[trigger] queue@[t])@),
            forall|c: int|
                0 <= c < a ==> id_texts(selected@).contains((#[trigger] entries@[c]).2@)
                    || id_texts(queue@).contains(entries@[c].2@),
        decreases entries.len() - a,
    {
        let ghost before = queue@;
        proof {
            reveal(Seq::filter);
            let ids_next = keys.take(a + 1).map_values(|k: (bool, u8, Seq<char>)| k.2);
            assert(ids_next.drop_last() =~= keys.take(a as int).map_values(
                |k: (bool, u8, Seq<char>)| k.2,
            ));
            assert(ids_next.last() == entries@[a as int].2@);
        }
        if !contains_id(selected, entries[a].2.as_str()) {
            queue.push(owned_string(&entries[a].2));
            proof {
                assert(id_texts(queue@) =~= id_texts(before).push(entries@[a as int].2@));
                assert(id_texts(queue@)[queue.len() - 1] == entries@[a as int].2@);
                assert forall|c: int|
                    0 <= c < a + 1 implies id_texts(selected@).contains((#[trigger] entries@[c]).2@)
                    || id_texts(queue@).contains(entries@[c].2@) by {
                    if c < a && !id_texts(selected@).contains(entries@[c].2@) {
                        let t = choose|t: int| 0 <= t < before.len() && id_texts(before)[t] == entries@[c].2@;
                        assert(id_texts(queue@)[t] == id_texts(before)[t]);
                    }
                }
                assert forall|t: int| start.len() <= t < queue.len() implies is_entry(
                    entries@,
                    (#[trigger] queue@[t])@,
                ) by {
                    if t == queue.len() - 1 {
                        assert(entries@[a as int].2@ == queue@[t]@);
                    } else {
                        assert(queue@[t] == before[t]);
                    }
                }
            }
        }
        a += 1;
    }
    assert(keys.take(entries.len() as int) =~= keys);
}

/// `S[k]` is a root, or the other end of an edge from an id selected before it.
pub open spec fn discovered(
    roots: Seq<Seq<char>>,
    edges: Seq<EdgeView>,
    selected: Seq<Seq<char>>,
    k: int,
) -> bool {
    roots.contains(selected[k]) || reached_from(edges, selected.take(k), selected[k])
}

/// Every other end of an edge from `S[m]` is selected or queued.
pub open spec fn expanded(
    edges: Seq<EdgeView>,
    selected: Seq<Seq<char>>,
    queue: Seq<Seq<char>>,
    m: int,
) -> bool {
    forall|j: int|
        0 <= j < edges.len() ==> (neighbor(#[trigger] edges[j], selected[m]) matches Some(y) ==> (
        selected.contains(y) || queue.contains(y)))
}

/// Why a queued or selected id is there: `(r, j, m)` names root `r` when `r`
/// is not negative, else edge `j` seen from selected id `m`.
pub open spec fn justified_by(
    roots: Seq<Seq<char>>,
    edges: Seq<EdgeView>,
    selected: Seq<Seq<char>>,
    x: Seq<char>,
    why: (int, int, int),
    bound: int,
) -> bool {
    (0 <= why.0 < roots.len() && roots[why.0] == x) || (why.0 < 0 && 0 <= why.1 < edges.len() && 0
        <= why.2 < bound && is_neighbor_of(edges[why.1], selected[why.2], x))
}

/// The ids of the nodes a scene keeps, in visiting order: a breadth-first
/// walk from the roots (`spec_roots`), each node's outgoing edges before its
/// incoming ones, closer relations first, until `node_limit` ids are kept.
///
/// The ids are exactly those `walk_after` keeps once the walk is over.
/// Every kept id is a root or the other end of an edge from an id kept
/// before it; below the limit, every root is kept and every edge has both
/// ends kept or neither.
#[verifier::rlimit(30)]
pub fn semantic_node_order(
    nodes: &Vec<TopologyNode>,
    edges: &Vec<TopologyEdge>,
    selected_names: &[&str],
    node_limit: usize,
) -> (r: Vec<String>)
    ensures
        r.len() <= node_limit,
        id_texts(r@).no_duplicates(),
        node_limit > 0 && spec_roots(node_views(nodes@), name_texts(selected_names@)).len() > 0
            ==> r.len() > 0 && id_texts(r@)[0] == spec_roots(
            node_views(nodes@),
            name_texts(selected_names@),
        )[0],
        forall|k: int|
            0 <= k < r.len() ==> #[trigger] discovered(
                spec_roots(node_views(nodes@), name_texts(selected_names@)),
                edge_views(edges@),
                id_texts(r@),
                k,
            ),
        r.len() < node_limit ==> (forall|t: int|
            0 <= t < spec_roots(node_views(nodes@), name_texts(selected_names@)).len()
                ==> id_texts(r@).contains(
                #[trigger] spec_roots(node_views(nodes@), name_texts(selected_names@))[t],
            )),
        r.len() < node_limit ==> closed_under_edges(edge_views(edges@), id_texts(r@)),
        walk_result(
            edge_views(edges@),
            node_limit as nat,
            spec_roots(node_views(nodes@), name_texts(selected_names@)),
            id_texts(r@),
        ),
{
    if node_limit == 0 {
        let r: Vec<String> = Vec::new();
        assert(id_texts(r@) =~= Seq::<Seq<char>>::empty());
        assert(walk_finished(
            walk_after(
                edge_views(edges@),
                0,
                spec_roots(node_views(nodes@), name_texts(selected_names@)),
                0,
            ),
            0,
        ));
        return r;
    }
    let roots = walk_roots(nodes, selected_names);
    let ghost rs = id_texts(roots@);
    let ghost ev = edge_views(edges@);
    let ghost universe = walk_universe(rs, ev);
    let mut queue: Vec<String> = Vec::new();
    let mut i: usize = 0;
    while i < roots.len()
        invariant
            i <= roots.len(),
            rs == id_texts(roots@),
            id_texts(queue@) =~= rs.take(i as int),
        decreases roots.len() - i,
    {
        let ghost before = id_texts(queue@);
        queue.push(owned_string(&roots[i]));
        assert(id_texts(queue@) =~= before.push(rs[i as int]));
        assert(rs.take(i + 1) =~= rs.take(i as int).push(rs[i as int]));
        i += 1;
    }
    assert(rs.take(rs.len() as int) =~= rs);
    let ghost mut qwhy: Seq<(int, int, int)> = Seq::new(rs.len(), |t: int| (t, 0int, 0int));
    let ghost mut swhy: Seq<(int, int, int)> = Seq::empty();
    let ghost mut from_q: Seq<int> = Seq::empty();
    let mut selected: Vec<String> = Vec::new();
    let mut head: usize = 0;
    let ghost mut iters: nat = 0;
    proof {
        assert(id_texts(queue@).skip(0) =~= rs);
        assert(id_texts(selected@) =~= Seq::<Seq<char>>::empty());
        assert forall|t: int| 0 <= t < id_texts(queue@).len() implies universe.contains(
            #[trigger] id_texts(queue@)[t],
        ) by {
            assert(universe[t] == rs[t]);
        }
    }
    while head < queue.len() && selected.len() < node_limit
        invariant
            rs == id_texts(roots@),
            rs == spec_roots(node_views(nodes@), name_texts(selected_names@)),
            ev == edge_views(edges@),
            universe == walk_universe(rs, ev),
            node_limit > 0,
            head <= queue.len(),
            selected.len() <= node_limit,
            rs.len() <= queue.len(),
            forall|t: int| 0 <= t < rs.len() ==> #[trigger] id_texts(queue@)[t] == rs[t],
            selected.len() == 0 ==> queue.len() == rs.len() && head == 0,
            selected.len() > 0 ==> rs.len() > 0 && id_texts(selected@)[0] == rs[0],
            qwhy.len() == queue.len(),
            forall|t: int|
                0 <= t < queue.len() ==> justified_by(
                    rs,
                    ev,
                    id_texts(selected@),
                    #[trigger] id_texts(queue@)[t],
                    qwhy[t],
                    selected.len() as int,
                ),
            forall|t: int| 0 <= t < queue.len() ==> universe.contains(#[trigger] id_texts(queue@)[t]),
            id_texts(selected@).no_duplicates(),
            swhy.len() == selected.len(),
            forall|k: int|
                0 <= k < selected.len() ==> justified_by(
                    rs,
                    ev,
                    id_texts(selected@),
                    #[trigger] id_texts(selected@)[k],
                    swhy[k],
                    k,
                ),
            from_q.len() == selected.len(),
            forall|m: int|
                0 <= m < selected.len() ==> 0 <= #[trigger] from_q[m] < head && id_texts(queue@)[from_q[m]]
                    == id_texts(selected@)[m],
            forall|t: int| 0 <= t < head ==> id_texts(selected@).contains(#[trigger] id_texts(queue@)[t]),
            forall|m: int|
                0 <= m < selected.len() && (selected.len() < node_limit || m + 1 < selected.len())
                    ==> #[trigger] expanded(ev, id_texts(selected@), id_texts(queue@), m),
            walk_after(ev, node_limit as nat, rs, iters) == (WalkState {
                queue: id_texts(queue@).skip(head as int),
                selected: id_texts(selected@),
            }),
        decreases universe.len() - selected.len(), queue.len() - head,
    {
        let ghost sq = id_texts(selected@);
        let ghost qq = id_texts(queue@);
        proof {
            assert forall|m: int| 0 <= m < sq.len() implies universe.contains(#[trigger] sq[m]) by {
                assert(qq[from_q[m]] == sq[m]);
            }
            lemma_distinct_within(sq, universe);
        }
        let id = owned_string(&queue[head]);
        let ghost t0 = head as int;
        let ghost mut appended: Seq<Seq<char>> = Seq::empty();
        let ghost mut appended_any = false;
        head += 1;
        if !contains_id(&selected, id.as_str()) {
            selected.push(owned_string(&id));
            proof {
                let s2 = id_texts(selected@);
                assert(s2 =~= sq.push(id@));
                assert(s2.take(sq.len() as int) =~= sq);
                swhy = swhy.push(qwhy[t0]);
                from_q = from_q.push(t0);
                assert(qq[t0] == id@);
                assert forall|k: int| 0 <= k < s2.len() implies justified_by(
                    rs,
                    ev,
                    s2,
                    #[trigger] s2[k],
                    swhy[k],
                    k,
                ) by {
                    if k < sq.len() {
                        assert(s2[k] == sq[k]);
                        if swhy[k].0 < 0 {
                            assert(s2[swhy[k].2] == sq[swhy[k].2]);
                        }
                    } else {
                        assert(justified_by(rs, ev, sq, qq[t0], qwhy[t0], sq.len() as int));
                        if qwhy[t0].0 < 0 {
                            assert(s2[qwhy[t0].2] == sq[qwhy[t0].2]);
                        }
                    }
                }
                assert forall|t: int| 0 <= t < queue.len() implies justified_by(
                    rs,
                    ev,
                    s2,
                    #[trigger] id_texts(queue@)[t],
                    qwhy[t],
                    s2.len() as int,
                ) by {
                    assert(justified_by(rs, ev, sq, qq[t], qwhy[t], sq.len() as int));
                    if qwhy[t].0 < 0 {
                        assert(s2[qwhy[t].2] == sq[qwhy[t].2]);
                    }
                }
                assert forall|t: int| 0 <= t < head implies s2.contains(#[trigger] id_texts(queue@)[t]) by {
                    if t < t0 {
                        assert(sq.contains(qq[t]));
                        let w = choose|w: int| 0 <= w < sq.len() && sq[w] == qq[t];
                        assert(s2[w] == sq[w]);
                    } else {
                        assert(s2[s2.len() - 1] == qq[t0]);
                    }
                }
                assert(s2.no_duplicates()) by {
                    assert forall|a: int, b: int|
                        0 <= a < s2.len() && 0 <= b < s2.len() && a != b implies s2[a] != s2[b] by {
                        if a < sq.len() && b < sq.len() {
                        } else if a < sq.len() {
                            assert(sq.contains(sq[a]));
                        } else {
                            assert(sq.contains(sq[b]));
                        }
                    }
                }
                assert forall|k: int| 0 <= k < s2.len() implies universe.contains(#[trigger] s2[k]) by {
                    if k < sq.len() {
                        assert(qq[from_q[k]] == sq[k]);
                    } else {
                        assert(qq[t0] == s2[k]);
                    }
                }
                lemma_distinct_within(s2, universe);
                assert forall|m: int| 0 <= m < sq.len() implies #[trigger] expanded(ev, s2, qq, m) by {
                    assert(expanded(ev, sq, qq, m));
                    assert(s2[m] == sq[m]);
                    assert forall|j: int| 0 <= j < ev.len() implies (neighbor(#[trigger] ev[j], s2[m]) matches Some(y)
                        ==> (s2.contains(y) || qq.contains(y))) by {
                        if let Some(y) = neighbor(ev[j], s2[m]) {
                            if sq.contains(y) {
                                let w = choose|w: int| 0 <= w < sq.len() && sq[w] == y;
                                assert(s2[w] == sq[w]);
                            }
                        }
                    }
                }
            }
            if selected.len() < node_limit {
                let entries = adjacent_entries(edges, id.as_str());
                let ghost s2 = id_texts(selected@);
                let ghost q_before = queue@;
                enqueue_unvisited(&mut queue, &selected, &entries);
                proof {
                    appended = unvisited(key_views(entries@), s2);
                    appended_any = true;
                    assert(s2 == sq.push(id@));
                    let q2 = id_texts(queue@);
                    let newest = (s2.len() - 1) as int;
                    assert(s2[newest] == id@);
                    assert forall|t: int| 0 <= t < q_before.len() implies #[trigger] q2[t] == qq[t] by {
                        assert(queue@[t] == q_before[t]);
                    }
                    let extra = Seq::new(
                        (queue.len() - q_before.len()) as nat,
                        |i: int|
                            (-1int, choose|k: int| 0 <= k < ev.len() && #[trigger] is_neighbor_of(
                                ev[k],
                                id@,
                                q2[q_before.len() + i],
                            ), newest),
                    );
                    let old_qwhy = qwhy;
                    qwhy = old_qwhy + extra;
                    assert forall|t: int| 0 <= t < queue.len() implies justified_by(
                        rs,
                        ev,
                        s2,
                        #[trigger] q2[t],
                        qwhy[t],
                        s2.len() as int,
                    ) && universe.contains(q2[t]) by {
                        if t < q_before.len() {
                            assert(q2[t] == qq[t]);
                            assert(qwhy[t] == old_qwhy[t]);
                        } else {
                            assert(is_entry(entries@, queue@[t]@));
                            let c = choose|c: int| 0 <= c < entries@.len() && #[trigger] entries@[c].2@ == queue@[t]@;
                            assert(justified_entry(ev, id@, entries@[c].2@, ev.len() as int));
                            assert(q2[t] == queue@[t]@);
                            let k = qwhy[t].1;
                            assert(qwhy[t] == extra[t - q_before.len()]);
                            assert(is_neighbor_of(ev[k], id@, q2[t]));
                            lemma_neighbor_in_universe(rs, ev, k, id@, q2[t]);
                        }
                    }
                    assert forall|m: int| 0 <= m < s2.len() implies #[trigger] expanded(ev, s2, q2, m) by {
                        assert forall|j: int| 0 <= j < ev.len() implies (neighbor(#[trigger] ev[j], s2[m]) matches Some(y)
                            ==> (s2.contains(y) || q2.contains(y))) by {
                            if let Some(y) = neighbor(ev[j], s2[m]) {
                                if m < newest {
                                    assert(expanded(ev, s2, qq, m));
                                    if qq.contains(y) {
                                        let w = choose|w: int| 0 <= w < qq.len() && qq[w] == y;
                                        assert(q2[w] == qq[w]);
                                    }
                                } else {
                                    let c = choose|c: int| 0 <= c < entries@.len() && #[trigger] entries@[c].2@ == y;
                                    assert(id_texts(selected@).contains((entries@[c]).2@) || id_texts(queue@).contains(entries@[c].2@));
                                }
                            }
                        }
                    }
                    assert forall|t: int| 0 <= t < head implies s2.contains(#[trigger] q2[t]) by {
                        assert(q2[t] == qq[t]);
                    }
                }
            }
        }
        proof {
            if !appended_any {
                assert(id_texts(queue@) =~= qq + appended);
            }
            let st = walk_after(ev, node_limit as nat, rs, iters);
            assert(st.queue[0] == qq[t0]);
            assert(st.queue.drop_first() =~= qq.skip(t0 + 1));
            assert(id_texts(queue@).skip(head as int) =~= qq.skip(t0 + 1) + appended);
            iters = iters + 1;
            assert(walk_after(ev, node_limit as nat, rs, iters) == walk_step(ev, node_limit as nat, st));
        }
    }
    proof {
        let sq = id_texts(selected@);
        let qq = id_texts(queue@);
        assert(walk_finished(walk_after(ev, node_limit as nat, rs, iters), node_limit as nat));
        assert(walk_result(ev, node_limit as nat, rs, sq));
        assert forall|k: int| 0 <= k < selected.len() implies #[trigger] discovered(rs, ev, sq, k) by {
            assert(justified_by(rs, ev, sq, sq[k], swhy[k], k));
            if swhy[k].0 >= 0 {
                assert(rs[swhy[k].0] == sq[k]);
            } else {
                let j = swhy[k].1;
                let m = swhy[k].2;
                assert(sq.take(k)[m] == sq[m]);
                assert(is_neighbor_of(ev[j], sq.take(k)[m], sq[k]));
            }
        }
        if selected.len() < node_limit {
            assert(head == queue.len());
            assert forall|t: int| 0 <= t < rs.len() implies sq.contains(#[trigger] rs[t]) by {
                assert(qq[t] == rs[t]);
            }
            assert forall|j: int| 0 <= j < ev.len() implies (sq.contains(#[trigger] ev[j].source)
                <==> sq.contains(ev[j].target)) by {
                if sq.contains(ev[j].source) {
                    let m = choose|m: int| 0 <= m < sq.len() && sq[m] == ev[j].source;
                    assert(expanded(ev, sq, qq, m));
                    assert(neighbor(ev[j], sq[m]) == Some(ev[j].target));
                    if qq.contains(ev[j].target) {
                        let w = choose|w: int| 0 <= w < qq.len() && qq[w] == ev[j].target;
                        assert(sq.contains(qq[w]));
                    }
                }
                if sq.contains(ev[j].target) {
                    let m = choose|m: int| 0 <= m < sq.len() && sq[m] == ev[j].target;
                    assert(expanded(ev, sq, qq, m));
                    if ev[j].source != sq[m] {
                        assert(neighbor(ev[j], sq[m]) == Some(ev[j].source));
                        if qq.contains(ev[j].source) {
                            let w = choose|w: int| 0 <= w < qq.len() && qq[w] == ev[j].source;
                            assert(sq.contains(qq[w]));
                        }
                    }
                }
            }
        }
    }
    selected
}

} // verus!
