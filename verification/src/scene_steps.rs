//! The state of the memory graph at a chosen step of its timeline: each
//! node's state after the deltas so far, and which edges exist by then.
use vstd::prelude::*;

use crate::protocol::{
    OwnershipMemoryEdge, OwnershipMemoryNode, OwnershipMemorySnapshot, OwnershipModel,
    OwnershipStateDelta,
};
use crate::text::{opt_text, str_eq};

verus! {

/// A map from keys to values built by writing each pair in order, later
/// writes replacing earlier ones.
pub open spec fn written(pairs: Seq<(Seq<char>, Seq<char>)>) -> Map<Seq<char>, Seq<char>>
    decreases pairs.len(),
{
    if pairs.len() == 0 {
        Map::empty()
    } else {
        written(pairs.drop_last()).insert(pairs.last().0, pairs.last().1)
    }
}

/// Each node's id and its state as the graph declares it.
pub open spec fn declared_states(nodes: Seq<OwnershipMemoryNode>) -> Seq<(Seq<char>, Seq<char>)> {
    nodes.map_values(|n: OwnershipMemoryNode| (n.id@, n.state@))
}

/// Each delta's node id and the state it changes to.
pub open spec fn delta_writes(deltas: Seq<OwnershipStateDelta>) -> Seq<(Seq<char>, Seq<char>)> {
    deltas.map_values(|d: OwnershipStateDelta| (d.node_id@, d.to@))
}

/// The writes of every delta of the snapshots, in order.
pub open spec fn snapshot_writes(snapshots: Seq<OwnershipMemorySnapshot>) -> Seq<
    (Seq<char>, Seq<char>),
>
    decreases snapshots.len(),
{
    if snapshots.len() == 0 {
        Seq::empty()
    } else {
        snapshot_writes(snapshots.drop_last()) + delta_writes(snapshots.last().deltas@)
    }
}

/// How many snapshots have happened by step `step`: the step itself and
/// every one before it, as far as there are snapshots.
pub open spec fn snapshots_through(count: nat, step: usize) -> int {
    let through = if step == usize::MAX {
        usize::MAX as int
    } else {
        step + 1
    };
    if through < count {
        through
    } else {
        count as int
    }
}

/// The state of every node at step `step`: the declared states, then each
/// delta of the snapshots so far.
pub open spec fn states_at_step(model: OwnershipModel, step: usize) -> Map<Seq<char>, Seq<char>> {
    written(
        declared_states(model.memory_graph.nodes@) + snapshot_writes(
            model.memory_graph.snapshots@.take(
                snapshots_through(model.memory_graph.snapshots@.len(), step),
            ),
        ),
    )
}

/// Node states, written in order.
pub struct NodeStates {
    writes: Vec<(String, String)>,
}

pub open spec fn pair_texts(v: Seq<(String, String)>) -> Seq<(Seq<char>, Seq<char>)> {
    v.map_values(|p: (String, String)| (p.0@, p.1@))
}

impl View for NodeStates {
    type V = Map<Seq<char>, Seq<char>>;

    closed spec fn view(&self) -> Map<Seq<char>, Seq<char>> {
        written(pair_texts(self.writes@))
    }
}

proof fn lemma_written_empty(pairs: Seq<(Seq<char>, Seq<char>)>)
    ensures
        (pairs.len() == 0) == (written(pairs).dom() =~= Set::empty()),
{
    if pairs.len() > 0 {
        assert(written(pairs).dom().contains(pairs.last().0));
    }
}

/// The value of `key` is the last one written for it.
proof fn lemma_written_last(pairs: Seq<(Seq<char>, Seq<char>)>, key: Seq<char>, i: int)
    requires
        0 <= i <= pairs.len(),
        forall|k: int| i <= k < pairs.len() ==> #[trigger] pairs[k].0 != key,
    ensures
        written(pairs).contains_key(key) == written(pairs.take(i)).contains_key(key),
        written(pairs).contains_key(key) ==> written(pairs)[key] == written(pairs.take(i))[key],
    decreases pairs.len() - i,
{
    if i < pairs.len() {
        assert(pairs.drop_last().take(i) =~= pairs.take(i));
        lemma_written_last(pairs.drop_last(), key, i);
    } else {
        assert(pairs.take(i) =~= pairs);
    }
}

impl NodeStates {
    /// Whether no node has a state.
    pub fn is_empty(&self) -> (r: bool)
        ensures
            r == (self@.dom() =~= Set::empty()),
    {
        proof {
            lemma_written_empty(pair_texts(self.writes@));
        }
        self.writes.len() == 0
    }

    /// The state of node `id`, if it has one.
    pub fn get(&self, id: &str) -> (r: Option<String>)
        ensures
            match r {
                Some(v) => self@.contains_key(id@) && self@[id@] == v@,
                None => !self@.contains_key(id@),
            },
    {
        let ghost pairs = pair_texts(self.writes@);
        let mut i = self.writes.len();
        while i > 0
            invariant
                i <= self.writes.len(),
                pairs == pair_texts(self.writes@),
                forall|k: int| i <= k < pairs.len() ==> #[trigger] pairs[k].0 != id@,
            decreases i,
        {
            if str_eq(self.writes[i - 1].0.as_str(), id) {
                proof {
                    lemma_written_last(pairs, id@, i as int);
                    assert(pairs.take(i as int).drop_last() =~= pairs.take(i - 1));
                    assert(pairs.take(i as int).last() == pairs[i - 1]);
                }
                return Some(self.writes[i - 1].1.clone());
            }
            i -= 1;
        }
        proof {
            lemma_written_last(pairs, id@, 0);
            assert(pairs.take(0) =~= Seq::<(Seq<char>, Seq<char>)>::empty());
        }
        None
    }
}

fn write_state(writes: &mut Vec<(String, String)>, id: &String, state: &String)
    ensures
        pair_texts(final(writes)@) == pair_texts(old(writes)@).push((id@, state@)),
{
    writes.push((id.clone(), state.clone()));
    assert(pair_texts(writes@) =~= pair_texts(old(writes)@).push((id@, state@)));
}

/// The state of every node of the model's memory graph once step
/// `selected_step` of its timeline has happened.
pub fn topology_state_at_step(model: &OwnershipModel, selected_step: usize) -> (r: NodeStates)
    ensures
        r@ == states_at_step(*model, selected_step),
{
    let nodes = &model.memory_graph.nodes;
    let snapshots = &model.memory_graph.snapshots;
    let mut writes: Vec<(String, String)> = Vec::new();
    let mut i: usize = 0;
    while i < nodes.len()
        invariant
            i <= nodes.len(),
            nodes == &model.memory_graph.nodes,
            pair_texts(writes@) =~= declared_states(nodes@).take(i as int),
        decreases nodes.len() - i,
    {
        write_state(&mut writes, &nodes[i].id, &nodes[i].state);
        assert(declared_states(nodes@).take(i + 1) =~= declared_states(nodes@).take(i as int).push(
            (nodes@[i as int].id@, nodes@[i as int].state@),
        ));
        i += 1;
    }
    assert(declared_states(nodes@).take(nodes.len() as int) =~= declared_states(nodes@));
    let through: usize = if selected_step == usize::MAX {
        usize::MAX
    } else {
        selected_step + 1
    };
    let count: usize = if through < snapshots.len() {
        through
    } else {
        snapshots.len()
    };
    let ghost base = declared_states(nodes@);
    let mut s: usize = 0;
    assert(snapshots@.take(0) =~= Seq::<OwnershipMemorySnapshot>::empty());
    assert(base + snapshot_writes(Seq::<OwnershipMemorySnapshot>::empty()) =~= base);
    while s < count
        invariant
            s <= count <= snapshots.len(),
            snapshots == &model.memory_graph.snapshots,
            pair_texts(writes@) =~= base + snapshot_writes(snapshots@.take(s as int)),
        decreases count - s,
    {
        let deltas = &snapshots[s].deltas;
        let ghost before = pair_texts(writes@);
        let mut d: usize = 0;
        while d < deltas.len()
            invariant
                d <= deltas.len(),
                pair_texts(writes@) =~= before + delta_writes(deltas@).take(d as int),
            decreases deltas.len() - d,
        {
            write_state(&mut writes, &deltas[d].node_id, &deltas[d].to);
            assert(delta_writes(deltas@).take(d + 1) =~= delta_writes(deltas@).take(d as int).push(
                (deltas@[d as int].node_id@, deltas@[d as int].to@),
            ));
            d += 1;
        }
        assert(delta_writes(deltas@).take(deltas.len() as int) =~= delta_writes(deltas@));
        assert(snapshots@.take(s + 1).drop_last() =~= snapshots@.take(s as int));
        assert(snapshots@.take(s + 1).last() == snapshots@[s as int]);
        s += 1;
    }
    NodeStates { writes }
}

/// Whether `edge` exists at step `step`: it was created by then (or
/// belongs to no event), and no snapshot by then removed its relation
/// from one of its ends.
pub open spec fn spec_edge_active(edge: OwnershipMemoryEdge, model: OwnershipModel, step: usize) -> bool {
    let seen = model.memory_graph.snapshots@.take(
        snapshots_through(model.memory_graph.snapshots@.len(), step),
    );
    let created = match edge.event_id {
        None => true,
        Some(event) => exists|k: int| 0 <= k < seen.len() && (#[trigger] seen[k]).event_id@ == event@,
    };
    let removed = exists|k: int, d: int|
        0 <= k < seen.len() && 0 <= d < seen[k].deltas@.len() && removes_edge(
            #[trigger] seen[k].deltas@[d],
            edge,
        );
    created && !removed
}

/// The delta removes the edge's relation from one of its ends.
pub open spec fn removes_edge(delta: OwnershipStateDelta, edge: OwnershipMemoryEdge) -> bool {
    opt_text(delta.relation_removed) == Some(edge.relation@) && (delta.node_id@ == edge.source@
        || delta.node_id@ == edge.target@)
}

fn delta_removes_edge(delta: &OwnershipStateDelta, edge: &OwnershipMemoryEdge) -> (r: bool)
    ensures
        r == removes_edge(*delta, *edge),
{
    match &delta.relation_removed {
        Some(relation) => str_eq(relation.as_str(), edge.relation.as_str()) && (str_eq(
            delta.node_id.as_str(),
            edge.source.as_str(),
        ) || str_eq(delta.node_id.as_str(), edge.target.as_str())),
        None => false,
    }
}

/// Whether `edge` exists once step `selected_step` has happened.
pub fn topology_edge_active_at_step(
    edge: &OwnershipMemoryEdge,
    model: &OwnershipModel,
    selected_step: usize,
) -> (r: bool)
    ensures
        r == spec_edge_active(*edge, *model, selected_step),
{
    let snapshots = &model.memory_graph.snapshots;
    let through: usize = if selected_step == usize::MAX {
        usize::MAX
    } else {
        selected_step + 1
    };
    let count: usize = if through < snapshots.len() {
        through
    } else {
        snapshots.len()
    };
    let ghost seen = snapshots@.take(count as int);
    let created = match &edge.event_id {
        None => true,
        Some(event) => {
            let mut found = false;
            let mut k: usize = 0;
            while k < count
                invariant
                    k <= count <= snapshots.len(),
                    seen == snapshots@.take(count as int),
                    found == exists|t: int| 0 <= t < k && (#[trigger] seen[t]).event_id@ == event@,
                decreases count - k,
            {
                if str_eq(snapshots[k].event_id.as_str(), event.as_str()) {
                    assert(seen[k as int] == snapshots@[k as int]);
                    found = true;
                }
                proof {
                    assert(seen[k as int] == snapshots@[k as int]);
                }
                k += 1;
            }
            found
        },
    };
    let mut removed = false;
    let mut k: usize = 0;
    while k < count
        invariant
            k <= count <= snapshots.len(),
            seen == snapshots@.take(count as int),
            removed == exists|t: int, d: int|
                0 <= t < k && 0 <= d < seen[t].deltas@.len() && removes_edge(
                    #[trigger] seen[t].deltas@[d],
                    *edge,
                ),
        decreases count - k,
    {
        let deltas = &snapshots[k].deltas;
        assert(seen[k as int] == snapshots@[k as int]);
        let mut d: usize = 0;
        let ghost removed_before = removed;
        while d < deltas.len()
            invariant
                d <= deltas.len(),
                k < count <= snapshots.len(),
                seen == snapshots@.take(count as int),
                deltas == &snapshots@[k as int].deltas,
                removed == (removed_before || exists|e: int| 0 <= e < d && removes_edge(
                    #[trigger] deltas@[e],
                    *edge,
                )),
            decreases deltas.len() - d,
        {
            if delta_removes_edge(&deltas[d], edge) {
                removed = true;
            }
            d += 1;
        }
        proof {
            assert(seen[k as int] == snapshots@[k as int]);
            if removed && !removed_before {
                let e = choose|e: int| 0 <= e < deltas.len() && removes_edge(#[trigger] deltas@[e], *edge);
                assert(removes_edge(seen[k as int].deltas@[e], *edge));
            }
            if exists|t: int, dd: int|
                0 <= t < k + 1 && 0 <= dd < seen[t].deltas@.len() && removes_edge(
                    #[trigger] seen[t].deltas@[dd],
                    *edge,
                ) {
                let (t, dd) = choose|t: int, dd: int|
                    0 <= t < k + 1 && 0 <= dd < seen[t].deltas@.len() && removes_edge(
                        #[trigger] seen[t].deltas@[dd],
                        *edge,
                    );
                if t == k {
                    assert(removes_edge(deltas@[dd], *edge));
                }
            }
        }
        k += 1;
    }
    created && !removed
}

/// Looking at a step beyond the timeline is looking at its last step.
pub proof fn late_steps_see_the_whole_timeline(model: OwnershipModel, step: usize)
    requires
        step >= model.memory_graph.snapshots@.len(),
    ensures
        states_at_step(model, step) == states_at_step(
            model,
            model.memory_graph.snapshots@.len() as usize,
        ),
{
}

} // verus!
