//! The compiler's ownership graph as a scene: the memory graph's nodes and
//! edges at the selected step, else the conflict graph, else the blocked
//! mutation; ordered by a walk from the selected variables and cut to the
//! node and edge limits.
use vstd::prelude::*;

use crate::keyed::{keys, sorted_by_key_first, sorted_firsts, strictly_sorted, Keyed};
use crate::panel::{
    readable_access, readable_available_access, spec_readable_access,
    spec_readable_available_access,
};
use crate::protocol::{
    OwnershipAccessPath, OwnershipAccessStep, OwnershipConflictGraph, OwnershipConflictNode,
    OwnershipConflictSnapshot, OwnershipMemoryEdge, OwnershipMemoryNode,
    OwnershipMemorySnapshot, OwnershipModel, OwnershipMutationRequirement,
    OwnershipOperationInsight, OwnershipProblem,
};
use crate::scene_layout::{layout_topology_scene, placed_node, routed_edge, spec_row_y};
use crate::scene_steps::{
    spec_edge_active, states_at_step, topology_edge_active_at_step, topology_state_at_step,
    NodeStates,
};
use crate::scene_walk::{id_texts, name_texts, semantic_node_order, spec_roots, walk_result};
use crate::text::{
    joined, lemma_seq_lt_total, lemma_seq_lt_transitive, seq_lt, str_lt, concat2, concat3, lowercase, lowercase_of, opt_text, owned, replace_char, replaced_char, str_eq,
};
use crate::topology::{
    edge_views, moment_views, node_views, relation_priority, spec_moment_explanation,
    spec_relation_priority, spec_topology_column, spec_topology_detail, topology_column,
    topology_detail, topology_moment_explanation, EdgeView, MomentView, NodeView,
    OwnershipTopologyScene, TopologyColumn, TopologyEdge, TopologyMoment, TopologyNode,
    TopologyRect,
};

verus! {

/// A rectangle not placed yet.
pub open spec fn unplaced() -> TopologyRect {
    TopologyRect { x: 0, y: 0, width: 0, height: 0 }
}

fn unplaced_rect() -> (r: TopologyRect)
    ensures
        r == unplaced(),
{
    TopologyRect { x: 0, y: 0, width: 0, height: 0 }
}

/// The position of the operation a blocked mutation names, else of the first
/// operation that needs a mutable borrow.
pub open spec fn spec_mutation_operation(model: OwnershipModel) -> Option<int> {
    let ops = model.operations@;
    let named = match model.mutation_requirement {
        Some(req) => first_operation_with_id(ops, req.operation_id@, 0),
        None => None,
    };
    match named {
        Some(i) => Some(i),
        None => first_operation_needing(ops, "mutable_borrow"@, 0),
    }
}

/// The first operation at or after `i` with id `id`.
pub open spec fn first_operation_with_id(
    ops: Seq<OwnershipOperationInsight>,
    id: Seq<char>,
    i: int,
) -> Option<int>
    decreases ops.len() - i,
{
    if i < 0 || i >= ops.len() {
        None
    } else if ops[i].id@ == id {
        Some(i)
    } else {
        first_operation_with_id(ops, id, i + 1)
    }
}

/// The first operation at or after `i` that needs access `access`.
pub open spec fn first_operation_needing(
    ops: Seq<OwnershipOperationInsight>,
    access: Seq<char>,
    i: int,
) -> Option<int>
    decreases ops.len() - i,
{
    if i < 0 || i >= ops.len() {
        None
    } else if ops[i].required_access@ == access {
        Some(i)
    } else {
        first_operation_needing(ops, access, i + 1)
    }
}

/// The position of the operation a blocked mutation is about.
pub fn selected_mutation_operation(model: &OwnershipModel) -> (r: Option<usize>)
    ensures
        match r {
            Some(i) => spec_mutation_operation(*model) == Some(i as int) && i
                < model.operations.len(),
            None => spec_mutation_operation(*model) is None,
        },
{
    let ops = &model.operations;
    if let Some(requirement) = &model.mutation_requirement {
        let mut i: usize = 0;
        while i < ops.len()
            invariant
                i <= ops.len(),
                ops == &model.operations,
                model.mutation_requirement == Some(*requirement),
                first_operation_with_id(ops@, requirement.operation_id@, 0)
                    == first_operation_with_id(ops@, requirement.operation_id@, i as int),
            decreases ops.len() - i,
        {
            if str_eq(ops[i].id.as_str(), requirement.operation_id.as_str()) {
                return Some(i);
            }
            i += 1;
        }
    }
    assert(match model.mutation_requirement {
        Some(req) => first_operation_with_id(ops@, req.operation_id@, 0) is None,
        None => true,
    });
    let mut i: usize = 0;
    while i < ops.len()
        invariant
            i <= ops.len(),
            ops == &model.operations,
            match model.mutation_requirement {
                Some(req) => first_operation_with_id(ops@, req.operation_id@, 0) is None,
                None => true,
            },
            first_operation_needing(ops@, "mutable_borrow"@, 0) == first_operation_needing(
                ops@,
                "mutable_borrow"@,
                i as int,
            ),
        decreases ops.len() - i,
    {
        if str_eq(ops[i].required_access.as_str(), "mutable_borrow") {
            return Some(i);
        }
        i += 1;
    }
    None
}

/// A memory-graph node as the scene shows it, with its state at the step.
pub open spec fn memory_node_view(node: OwnershipMemoryNode, states: Map<Seq<char>, Seq<char>>) -> NodeView {
    NodeView {
        id: node.id@,
        place: node.place@,
        label: node.label@,
        type_text: node.type_text@,
        detail: spec_topology_detail(node),
        kind: node.kind@,
        storage: node.storage@,
        state: if states.contains_key(node.id@) {
            states[node.id@]
        } else {
            node.state@
        },
        provenance: node.provenance@,
        column: spec_topology_column(node.kind@, node.storage@),
        range: node.range,
        rect: unplaced(),
    }
}

/// A memory-graph edge as the scene shows it, active when it exists at the step.
pub open spec fn memory_edge_view(edge: OwnershipMemoryEdge, active: bool) -> EdgeView {
    EdgeView {
        id: edge.id@,
        source: edge.source@,
        target: edge.target@,
        label: edge.relation@,
        provenance: edge.provenance@,
        active,
        range: edge.range,
        route: Seq::empty(),
        label_position: (0, 0),
    }
}

fn memory_node(node: &OwnershipMemoryNode, states: &NodeStates) -> (r: TopologyNode)
    ensures
        r@ == memory_node_view(*node, states@),
{
    let state = match states.get(node.id.as_str()) {
        Some(s) => s,
        None => node.state.clone(),
    };
    TopologyNode {
        id: node.id.clone(),
        place: node.place.clone(),
        label: node.label.clone(),
        type_text: node.type_text.clone(),
        detail: topology_detail(node),
        kind: node.kind.clone(),
        storage: node.storage.clone(),
        state,
        provenance: node.provenance.clone(),
        column: topology_column(node.kind.as_str(), node.storage.as_str()),
        range: node.range,
        rect: unplaced_rect(),
    }
}

fn memory_edge(edge: &OwnershipMemoryEdge, active: bool) -> (r: TopologyEdge)
    ensures
        r@ == memory_edge_view(*edge, active),
{
    let r = TopologyEdge {
        id: edge.id.clone(),
        source: edge.source.clone(),
        target: edge.target.clone(),
        label: edge.relation.clone(),
        provenance: edge.provenance.clone(),
        active,
        range: edge.range,
        route: Vec::new(),
        label_position: (0, 0),
    };
    assert(r@.route =~= Seq::<(u16, u16)>::empty());
    r
}

/// The snapshot of the conflict graph shown at step `step`: that step's, else the last.
pub open spec fn conflict_snapshot_at(graph: OwnershipConflictGraph, step: usize) -> Option<
    OwnershipConflictSnapshot,
> {
    let snaps = graph.snapshots@;
    if step < snaps.len() {
        Some(snaps[step as int])
    } else if snaps.len() > 0 {
        Some(snaps.last())
    } else {
        None
    }
}

/// The state a snapshot gives node `id`: its first entry for the node.
pub open spec fn conflict_state_of(snapshot: Option<OwnershipConflictSnapshot>, id: Seq<char>) -> Option<
    Seq<char>,
> {
    match snapshot {
        Some(snap) => first_state_for(snap.states@, id, 0),
        None => None,
    }
}

pub open spec fn first_state_for(
    states: Seq<crate::protocol::OwnershipConflictNodeState>,
    id: Seq<char>,
    i: int,
) -> Option<Seq<char>>
    decreases states.len() - i,
{
    if i < 0 || i >= states.len() {
        None
    } else if states[i].node_id@ == id {
        Some(states[i].state@)
    } else {
        first_state_for(states, id, i + 1)
    }
}

/// A conflict-graph node as the scene shows it.
pub open spec fn conflict_node_view(
    node: OwnershipConflictNode,
    snapshot: Option<OwnershipConflictSnapshot>,
    provenance: Seq<char>,
) -> NodeView {
    let storage = lowercase_of(node.memory@);
    NodeView {
        id: node.id@,
        place: node.label@,
        label: node.label@,
        type_text: match node.type_text {
            Some(t) => t@,
            None => "type unknown"@,
        },
        detail: node.memory@,
        kind: node.role@,
        storage,
        state: match conflict_state_of(snapshot, node.id@) {
            Some(st) => st,
            None => "alive"@,
        },
        provenance,
        column: spec_topology_column(node.role@, storage),
        range: node.range,
        rect: unplaced(),
    }
}

/// A conflict-graph edge as the scene shows it.
pub open spec fn conflict_edge_view(edge: crate::protocol::OwnershipConflictEdge) -> EdgeView {
    EdgeView {
        id: "conflict:"@ + edge.from@ + ":"@ + edge.to@ + ":"@ + edge.label@,
        source: edge.from@,
        target: edge.to@,
        label: edge.label@,
        provenance: edge.provenance@,
        active: true,
        range: None,
        route: Seq::empty(),
        label_position: (0, 0),
    }
}

pub(crate) fn conflict_state(snap: &OwnershipConflictSnapshot, id: &str) -> (r: Option<String>)
    ensures
        opt_text(r) == first_state_for(snap.states@, id@, 0),
{
    let states = &snap.states;
    let mut i: usize = 0;
    while i < states.len()
        invariant
            i <= states.len(),
            states == &snap.states,
            first_state_for(states@, id@, 0) == first_state_for(states@, id@, i as int),
        decreases states.len() - i,
    {
        if str_eq(states[i].node_id.as_str(), id) {
            return Some(states[i].state.clone());
        }
        i += 1;
    }
    None
}

fn conflict_node(
    node: &OwnershipConflictNode,
    snapshot: Option<&OwnershipConflictSnapshot>,
    provenance: &String,
) -> (r: TopologyNode)
    ensures
        r@ == conflict_node_view(
            *node,
            match snapshot {
                Some(s) => Some(*s),
                None => None,
            },
            provenance@,
        ),
{
    let found = match snapshot {
        Some(snap) => conflict_state(snap, node.id.as_str()),
        None => None,
    };
    let state = match found {
        Some(st) => st,
        None => owned("alive"),
    };
    let storage = lowercase(node.memory.as_str());
    let type_text = match &node.type_text {
        Some(t) => t.clone(),
        None => owned("type unknown"),
    };
    let column = topology_column(node.role.as_str(), storage.as_str());
    TopologyNode {
        id: node.id.clone(),
        place: node.label.clone(),
        label: node.label.clone(),
        type_text,
        detail: node.memory.clone(),
        kind: node.role.clone(),
        storage,
        state,
        provenance: provenance.clone(),
        column,
        range: node.range,
        rect: unplaced_rect(),
    }
}

fn conflict_edge(edge: &crate::protocol::OwnershipConflictEdge) -> (r: TopologyEdge)
    ensures
        r@ == conflict_edge_view(*edge),
{
    let mut id = concat3("conflict:", edge.from.as_str(), ":");
    id.append(edge.to.as_str());
    id.append(":");
    id.append(edge.label.as_str());
    let r = TopologyEdge {
        id,
        source: edge.from.clone(),
        target: edge.to.clone(),
        label: edge.label.clone(),
        provenance: edge.provenance.clone(),
        active: true,
        range: None,
        route: Vec::new(),
        label_position: (0, 0),
    };
    assert(r@.route =~= Seq::<(u16, u16)>::empty());
    assert(r@.id =~= conflict_edge_view(*edge).id);
    r
}

/// The node for the path a blocked mutation would have to write through.
pub open spec fn access_node_view(
    requirement: OwnershipMutationRequirement,
    problem: Option<OwnershipProblem>,
) -> NodeView {
    NodeView {
        id: "access:"@ + requirement.access_source@,
        place: requirement.access_source@,
        label: requirement.access_source@,
        type_text: spec_readable_available_access(requirement.available_access@),
        detail: "access available at the function boundary"@,
        kind: "handle"@,
        storage: "stack"@,
        state: "read-only access"@,
        provenance: requirement.provenance@,
        column: TopologyColumn::Local,
        range: match problem {
            Some(p) => Some(p.binding_range),
            None => None,
        },
        rect: unplaced(),
    }
}

/// The node for the place a blocked mutation wanted to write.
pub open spec fn target_node_view(
    requirement: OwnershipMutationRequirement,
    problem: Option<OwnershipProblem>,
    model: OwnershipModel,
) -> NodeView {
    NodeView {
        id: "target:"@ + requirement.target_place@,
        place: requirement.target_place@,
        label: requirement.target_place@,
        type_text: match spec_mutation_operation(model) {
            Some(i) => match model.operations@[i].receiver_type {
                Some(t) => t@,
                None => "resolved field type"@,
            },
            None => "resolved field type"@,
        },
        detail: "the value rustc rejected writing through"@,
        kind: "projected_place"@,
        storage: "inline"@,
        state: "alive · write blocked"@,
        provenance: requirement.provenance@,
        column: TopologyColumn::Wrapper,
        range: match problem {
            Some(p) => Some(p.primary_range),
            None => None,
        },
        rect: unplaced(),
    }
}

/// The edge from the access path to the place a blocked mutation wanted.
pub open spec fn requirement_edge_view(
    requirement: OwnershipMutationRequirement,
    problem: Option<OwnershipProblem>,
) -> EdgeView {
    EdgeView {
        id: "mutation-access:"@ + requirement.target_place@,
        source: "access:"@ + requirement.access_source@,
        target: "target:"@ + requirement.target_place@,
        label: "has "@ + spec_readable_available_access(requirement.available_access@)
            + "; needs "@ + spec_readable_access(requirement.required_access@),
        provenance: requirement.provenance@,
        active: true,
        range: match problem {
            Some(p) => Some(p.primary_range),
            None => None,
        },
        route: Seq::empty(),
        label_position: (0, 0),
    }
}

fn requirement_parts(
    requirement: &OwnershipMutationRequirement,
    problem: Option<&OwnershipProblem>,
    model: &OwnershipModel,
) -> (r: (TopologyNode, TopologyNode, TopologyEdge))
    ensures
        ({
            let p = match problem {
                Some(p) => Some(*p),
                None => None,
            };
            &&& r.0@ == access_node_view(*requirement, p)
            &&& r.1@ == target_node_view(*requirement, p, *model)
            &&& r.2@ == requirement_edge_view(*requirement, p)
        }),
{
    let access_id = concat2("access:", requirement.access_source.as_str());
    let target_id = concat2("target:", requirement.target_place.as_str());
    let available = readable_available_access(requirement.available_access.as_str());
    let required = readable_access(requirement.required_access.as_str());
    let target_type = match selected_mutation_operation(model) {
        Some(i) => match &model.operations[i].receiver_type {
            Some(t) => t.clone(),
            None => owned("resolved field type"),
        },
        None => owned("resolved field type"),
    };
    let access = TopologyNode {
        id: access_id.clone(),
        place: requirement.access_source.clone(),
        label: requirement.access_source.clone(),
        type_text: owned(available),
        detail: owned("access available at the function boundary"),
        kind: owned("handle"),
        storage: owned("stack"),
        state: owned("read-only access"),
        provenance: requirement.provenance.clone(),
        column: TopologyColumn::Local,
        range: match problem {
            Some(p) => Some(p.binding_range),
            None => None,
        },
        rect: unplaced_rect(),
    };
    let target = TopologyNode {
        id: target_id.clone(),
        place: requirement.target_place.clone(),
        label: requirement.target_place.clone(),
        type_text: target_type,
        detail: owned("the value rustc rejected writing through"),
        kind: owned("projected_place"),
        storage: owned("inline"),
        state: owned("alive · write blocked"),
        provenance: requirement.provenance.clone(),
        column: TopologyColumn::Wrapper,
        range: match problem {
            Some(p) => Some(p.primary_range),
            None => None,
        },
        rect: unplaced_rect(),
    };
    let mut label = concat2("has ", available);
    label.append("; needs ");
    label.append(required);
    let edge = TopologyEdge {
        id: concat2("mutation-access:", requirement.target_place.as_str()),
        source: access_id,
        target: target_id,
        label,
        provenance: requirement.provenance.clone(),
        active: true,
        range: match problem {
            Some(p) => Some(p.primary_range),
            None => None,
        },
        route: Vec::new(),
        label_position: (0, 0),
    };
    assert(edge@.route =~= Seq::<(u16, u16)>::empty());
    (access, target, edge)
}

/// The story told for a memory snapshot.
pub open spec fn memory_moment_view(snapshot: OwnershipMemorySnapshot) -> MomentView {
    MomentView {
        title: replace_char(snapshot.kind@, '_', ' '),
        explanation: spec_moment_explanation(snapshot.kind@, snapshot.place@),
        range: snapshot.range,
        path_marker: opt_text(snapshot.path_marker),
    }
}

/// The story told for a conflict snapshot.
pub open spec fn conflict_moment_view(snapshot: OwnershipConflictSnapshot) -> MomentView {
    MomentView {
        title: snapshot.title@,
        explanation: snapshot.explanation@,
        range: snapshot.range,
        path_marker: None,
    }
}

/// At most the first `n` of `s`.
pub open spec fn first_n<A>(s: Seq<A>, n: int) -> Seq<A> {
    if s.len() <= n {
        s
    } else {
        s.take(n)
    }
}

/// The moments of the compiler scene: the first twelve memory snapshots,
/// else the first twelve conflict snapshots, else none.
pub open spec fn graph_moments(model: OwnershipModel) -> Seq<MomentView> {
    if model.memory_graph.snapshots@.len() > 0 {
        first_n(model.memory_graph.snapshots@, 12).map_values(
            |s: OwnershipMemorySnapshot| memory_moment_view(s),
        )
    } else {
        match model.conflict_graph {
            Some(graph) => first_n(graph.snapshots@, 12).map_values(
                |s: OwnershipConflictSnapshot| conflict_moment_view(s),
            ),
            None => Seq::empty(),
        }
    }
}

fn copy_opt(o: &Option<String>) -> (r: Option<String>)
    ensures
        opt_text(r) == opt_text(*o),
{
    match o {
        Some(s) => Some(s.clone()),
        None => None,
    }
}

fn scene_moments(model: &OwnershipModel) -> (r: Vec<TopologyMoment>)
    ensures
        moment_views(r@) == graph_moments(*model),
{
    let mut r: Vec<TopologyMoment> = Vec::new();
    let snaps = &model.memory_graph.snapshots;
    if snaps.len() > 0 {
        let n: usize = if snaps.len() < 12 {
            snaps.len()
        } else {
            12
        };
        let mut i: usize = 0;
        while i < n
            invariant
                i <= n,
                n <= snaps.len(),
                n == first_n(snaps@, 12).len(),
                snaps == &model.memory_graph.snapshots,
                moment_views(r@) =~= first_n(snaps@, 12).take(i as int).map_values(
                    |s: OwnershipMemorySnapshot| memory_moment_view(s),
                ),
            decreases n - i,
        {
            let snap = &snaps[i];
            let m = TopologyMoment {
                title: replaced_char(snap.kind.as_str(), '_', ' '),
                explanation: topology_moment_explanation(snap.kind.as_str(), snap.place.as_str()),
                range: snap.range,
                path_marker: copy_opt(&snap.path_marker),
            };
            assert(first_n(snaps@, 12)[i as int] == snaps@[i as int]);
            assert(m@ == memory_moment_view(snaps@[i as int]));
            let ghost before = moment_views(r@);
            r.push(m);
            assert(moment_views(r@) =~= before.push(memory_moment_view(snaps@[i as int])));
            assert(first_n(snaps@, 12).take(i + 1) =~= first_n(snaps@, 12).take(i as int).push(
                snaps@[i as int],
            ));
            i += 1;
        }
        assert(first_n(snaps@, 12).take(n as int) =~= first_n(snaps@, 12));
    } else if let Some(graph) = &model.conflict_graph {
        let gs = &graph.snapshots;
        let n: usize = if gs.len() < 12 {
            gs.len()
        } else {
            12
        };
        let mut i: usize = 0;
        while i < n
            invariant
                i <= n,
                n <= gs.len(),
                n == first_n(gs@, 12).len(),
                gs == &graph.snapshots,
                moment_views(r@) =~= first_n(gs@, 12).take(i as int).map_values(
                    |s: OwnershipConflictSnapshot| conflict_moment_view(s),
                ),
            decreases n - i,
        {
            let snap = &gs[i];
            let m = TopologyMoment {
                title: snap.title.clone(),
                explanation: snap.explanation.clone(),
                range: snap.range,
                path_marker: None,
            };
            assert(first_n(gs@, 12)[i as int] == gs@[i as int]);
            assert(m@ == conflict_moment_view(gs@[i as int]));
            let ghost before = moment_views(r@);
            r.push(m);
            assert(moment_views(r@) =~= before.push(conflict_moment_view(gs@[i as int])));
            assert(first_n(gs@, 12).take(i + 1) =~= first_n(gs@, 12).take(i as int).push(
                gs@[i as int],
            ));
            i += 1;
        }
        assert(first_n(gs@, 12).take(n as int) =~= first_n(gs@, 12));
    } else {
        assert(moment_views(r@) =~= Seq::<MomentView>::empty());
    }
    r
}

/// One step of an access path: `start → result (kind)`.
pub open spec fn step_text(step: OwnershipAccessStep) -> Seq<char> {
    step.starting_type@ + " → "@ + step.result_type@ + " ("@ + replace_char(step.kind@, '_', ' ')
        + ")"@
}

/// The line shown for an access path.
pub open spec fn access_line(path: OwnershipAccessPath) -> Seq<char> {
    let chain = joined(path.steps@.map_values(|s: OwnershipAccessStep| step_text(s)), " → "@);
    if chain.len() == 0 {
        "`"@ + path.place@ + "`: direct access"@
    } else {
        "`"@ + path.place@ + "`: "@ + chain
    }
}

/// The lines for the first three access paths.
pub open spec fn graph_access_lines(model: OwnershipModel) -> Seq<Seq<char>> {
    first_n(model.memory_graph.access_paths@, 3).map_values(|p: OwnershipAccessPath| access_line(p))
}

fn access_line_text(path: &OwnershipAccessPath) -> (r: String)
    ensures
        r@ == access_line(*path),
{
    let steps = &path.steps;
    let ghost parts = steps@.map_values(|s: OwnershipAccessStep| step_text(s));
    let mut chain = String::new();
    let mut i: usize = 0;
    assert(parts.take(0) =~= Seq::<Seq<char>>::empty());
    while i < steps.len()
        invariant
            i <= steps.len(),
            steps == &path.steps,
            parts == steps@.map_values(|s: OwnershipAccessStep| step_text(s)),
            chain@ == joined(parts.take(i as int), " → "@),
        decreases steps.len() - i,
    {
        let step = &steps[i];
        if i > 0 {
            chain.append(" → ");
        }
        chain.append(step.starting_type.as_str());
        chain.append(" → ");
        chain.append(step.result_type.as_str());
        chain.append(" (");
        chain.append(replaced_char(step.kind.as_str(), '_', ' ').as_str());
        chain.append(")");
        proof {
            assert(parts.take(i + 1).drop_last() =~= parts.take(i as int));
            assert(parts.take(i + 1).last() == step_text(steps@[i as int]));
            if i == 0 {
                assert(parts.take(1) =~= seq![step_text(steps@[0])]);
            }
        }
        i += 1;
    }
    assert(parts.take(steps.len() as int) =~= parts);
    if chain.as_str().unicode_len() == 0 {
        concat3("`", path.place.as_str(), "`: direct access")
    } else {
        let mut r = concat3("`", path.place.as_str(), "`: ");
        r.append(chain.as_str());
        r
    }
}

fn scene_access_lines(model: &OwnershipModel) -> (r: Vec<String>)
    ensures
        id_texts(r@) == graph_access_lines(*model),
{
    let paths = &model.memory_graph.access_paths;
    let n: usize = if paths.len() < 3 {
        paths.len()
    } else {
        3
    };
    let mut r: Vec<String> = Vec::new();
    let mut i: usize = 0;
    while i < n
        invariant
            i <= n,
            n <= paths.len(),
            n == first_n(paths@, 3).len(),
            paths == &model.memory_graph.access_paths,
            id_texts(r@) =~= first_n(paths@, 3).take(i as int).map_values(
                |p: OwnershipAccessPath| access_line(p),
            ),
        decreases n - i,
    {
        let line = access_line_text(&paths[i]);
        assert(first_n(paths@, 3)[i as int] == paths@[i as int]);
        let ghost before = id_texts(r@);
        r.push(line);
        assert(id_texts(r@) =~= before.push(access_line(paths@[i as int])));
        assert(first_n(paths@, 3).take(i + 1) =~= first_n(paths@, 3).take(i as int).push(
            paths@[i as int],
        ));
        i += 1;
    }
    assert(first_n(paths@, 3).take(n as int) =~= first_n(paths@, 3));
    r
}

/// The step the compiler scene shows: the requested one, at most the last
/// snapshot of the longer timeline.
pub open spec fn graph_step(model: OwnershipModel, step: usize) -> usize {
    let memory = model.memory_graph.snapshots@.len();
    let conflict = match model.conflict_graph {
        Some(g) => g.snapshots@.len(),
        None => 0,
    };
    let longest = if memory > conflict {
        memory
    } else {
        conflict
    };
    let last = if longest > 0 {
        (longest - 1) as int
    } else {
        0
    };
    if step < last {
        step
    } else {
        last as usize
    }
}

/// The memory-graph nodes at the step.
pub open spec fn memory_nodes_at(model: OwnershipModel, step: usize) -> Seq<NodeView> {
    let states = states_at_step(model, step);
    model.memory_graph.nodes@.map_values(|n: OwnershipMemoryNode| memory_node_view(n, states))
}

/// The memory-graph edges at the step.
pub open spec fn memory_edges_at(model: OwnershipModel, step: usize) -> Seq<EdgeView> {
    model.memory_graph.edges@.map_values(
        |e: OwnershipMemoryEdge| memory_edge_view(e, spec_edge_active(e, model, step)),
    )
}

/// The nodes the scene is drawn from, before ordering: the memory graph's,
/// else the conflict graph's, else the two ends of a blocked mutation.
pub open spec fn candidate_nodes(
    problem: Option<OwnershipProblem>,
    model: OwnershipModel,
    step: usize,
) -> Seq<NodeView> {
    let memory = memory_nodes_at(model, step);
    let with_conflict = if memory.len() == 0 && model.conflict_graph is Some {
        let graph = model.conflict_graph->0;
        let snapshot = conflict_snapshot_at(graph, step);
        graph.nodes@.map_values(
            |n: OwnershipConflictNode| conflict_node_view(n, snapshot, graph.provenance@),
        )
    } else {
        memory
    };
    if with_conflict.len() == 0 && model.mutation_requirement is Some {
        let req = model.mutation_requirement->0;
        seq![access_node_view(req, problem), target_node_view(req, problem, model)]
    } else {
        with_conflict
    }
}

/// The edges the scene is drawn from, before ordering.
pub open spec fn candidate_edges(
    problem: Option<OwnershipProblem>,
    model: OwnershipModel,
    step: usize,
) -> Seq<EdgeView> {
    let memory_nodes = memory_nodes_at(model, step);
    let memory = memory_edges_at(model, step);
    let conflict_used = memory_nodes.len() == 0 && model.conflict_graph is Some;
    let with_conflict = if conflict_used {
        memory + model.conflict_graph->0.edges@.map_values(
            |e: crate::protocol::OwnershipConflictEdge| conflict_edge_view(e),
        )
    } else {
        memory
    };
    let nodes_so_far = if conflict_used {
        model.conflict_graph->0.nodes@.len()
    } else {
        memory_nodes.len()
    };
    if nodes_so_far == 0 && model.mutation_requirement is Some {
        with_conflict.push(requirement_edge_view(model.mutation_requirement->0, problem))
    } else {
        with_conflict
    }
}

fn build_candidates(
    problem: Option<&OwnershipProblem>,
    model: &OwnershipModel,
    step: usize,
) -> (r: (Vec<TopologyNode>, Vec<TopologyEdge>))
    ensures
        node_views(r.0@) == candidate_nodes(
            match problem {
                Some(p) => Some(*p),
                None => None,
            },
            *model,
            step,
        ),
        edge_views(r.1@) == candidate_edges(
            match problem {
                Some(p) => Some(*p),
                None => None,
            },
            *model,
            step,
        ),
{
    let ghost p = match problem {
        Some(p) => Some(*p),
        None => None,
    };
    let states = topology_state_at_step(model, step);
    let mem_nodes = &model.memory_graph.nodes;
    let mem_edges = &model.memory_graph.edges;
    let mut nodes: Vec<TopologyNode> = Vec::new();
    let mut i: usize = 0;
    while i < mem_nodes.len()
        invariant
            i <= mem_nodes.len(),
            mem_nodes == &model.memory_graph.nodes,
            states@ == states_at_step(*model, step),
            node_views(nodes@) =~= memory_nodes_at(*model, step).take(i as int),
        decreases mem_nodes.len() - i,
    {
        let ghost before = node_views(nodes@);
        nodes.push(memory_node(&mem_nodes[i], &states));
        assert(node_views(nodes@) =~= before.push(memory_nodes_at(*model, step)[i as int]));
        assert(memory_nodes_at(*model, step).take(i + 1) =~= memory_nodes_at(*model, step).take(
            i as int,
        ).push(memory_nodes_at(*model, step)[i as int]));
        i += 1;
    }
    assert(memory_nodes_at(*model, step).take(mem_nodes.len() as int) =~= memory_nodes_at(*model, step));
    let mut edges: Vec<TopologyEdge> = Vec::new();
    let mut j: usize = 0;
    while j < mem_edges.len()
        invariant
            j <= mem_edges.len(),
            mem_edges == &model.memory_graph.edges,
            edge_views(edges@) =~= memory_edges_at(*model, step).take(j as int),
        decreases mem_edges.len() - j,
    {
        let active = topology_edge_active_at_step(&mem_edges[j], model, step);
        let ghost before = edge_views(edges@);
        edges.push(memory_edge(&mem_edges[j], active));
        assert(edge_views(edges@) =~= before.push(memory_edges_at(*model, step)[j as int]));
        assert(memory_edges_at(*model, step).take(j + 1) =~= memory_edges_at(*model, step).take(
            j as int,
        ).push(memory_edges_at(*model, step)[j as int]));
        j += 1;
    }
    assert(memory_edges_at(*model, step).take(mem_edges.len() as int) =~= memory_edges_at(*model, step));
    let memory_empty = nodes.len() == 0;
    if memory_empty {
        if let Some(graph) = &model.conflict_graph {
            let snapshot: Option<&OwnershipConflictSnapshot> = if step < graph.snapshots.len() {
                Some(&graph.snapshots[step])
            } else if graph.snapshots.len() > 0 {
                Some(&graph.snapshots[graph.snapshots.len() - 1])
            } else {
                None
            };
            let ghost snap = match snapshot {
                Some(s) => Some(*s),
                None => None,
            };
            assert(snap == conflict_snapshot_at(*graph, step));
            let ghost cn = graph.nodes@.map_values(
                |n: OwnershipConflictNode| conflict_node_view(n, snap, graph.provenance@),
            );
            let mut k: usize = 0;
            while k < graph.nodes.len()
                invariant
                    k <= graph.nodes.len(),
                    cn == graph.nodes@.map_values(
                        |n: OwnershipConflictNode| conflict_node_view(n, snap, graph.provenance@),
                    ),
                    snap == match snapshot {
                        Some(s) => Some(*s),
                        None => None::<OwnershipConflictSnapshot>,
                    },
                    node_views(nodes@) =~= cn.take(k as int),
                decreases graph.nodes.len() - k,
            {
                let ghost before = node_views(nodes@);
                nodes.push(conflict_node(&graph.nodes[k], snapshot, &graph.provenance));
                assert(node_views(nodes@) =~= before.push(cn[k as int]));
                assert(cn.take(k + 1) =~= cn.take(k as int).push(cn[k as int]));
                k += 1;
            }
            assert(cn.take(graph.nodes.len() as int) =~= cn);
            let ghost ce = graph.edges@.map_values(
                |e: crate::protocol::OwnershipConflictEdge| conflict_edge_view(e),
            );
            let ghost base = edge_views(edges@);
            let mut k: usize = 0;
            while k < graph.edges.len()
                invariant
                    k <= graph.edges.len(),
                    ce == graph.edges@.map_values(
                        |e: crate::protocol::OwnershipConflictEdge| conflict_edge_view(e),
                    ),
                    edge_views(edges@) =~= base + ce.take(k as int),
                decreases graph.edges.len() - k,
            {
                let ghost before = edge_views(edges@);
                edges.push(conflict_edge(&graph.edges[k]));
                assert(edge_views(edges@) =~= before.push(ce[k as int]));
                assert(ce.take(k + 1) =~= ce.take(k as int).push(ce[k as int]));
                k += 1;
            }
            assert(ce.take(graph.edges.len() as int) =~= ce);
        }
    }
    if nodes.len() == 0 {
        if let Some(requirement) = &model.mutation_requirement {
            let (access, target, edge) = requirement_parts(requirement, problem, model);
            let ghost before = edge_views(edges@);
            nodes.push(access);
            nodes.push(target);
            edges.push(edge);
            assert(edge_views(edges@) =~= before.push(requirement_edge_view(*requirement, p)));
            assert(node_views(nodes@) =~= seq![
                access_node_view(*requirement, p),
                target_node_view(*requirement, p, *model),
            ]);
        }
    }
    (nodes, edges)
}

/// The order edges are listed in: by relation priority, then by id.
pub open spec fn edge_le(a: EdgeView, b: EdgeView) -> bool {
    let pa = spec_relation_priority(a.label);
    let pb = spec_relation_priority(b.label);
    pa < pb || (pa == pb && !seq_lt(b.id, a.id))
}

proof fn lemma_edge_le_transitive(a: EdgeView, b: EdgeView, c: EdgeView)
    requires
        edge_le(a, b),
        edge_le(b, c),
    ensures
        edge_le(a, c),
{
    if spec_relation_priority(a.label) == spec_relation_priority(c.label) {
        lemma_seq_lt_total(a.id, b.id);
        lemma_seq_lt_total(b.id, c.id);
        lemma_seq_lt_total(a.id, c.id);
        if seq_lt(c.id, a.id) {
            if a.id == b.id {
            } else if b.id == c.id {
            } else {
                lemma_seq_lt_transitive(a.id, b.id, c.id);
            }
        }
    }
}

proof fn lemma_edge_le_total(a: EdgeView, b: EdgeView)
    ensures
        edge_le(a, b) || edge_le(b, a),
{
    lemma_seq_lt_total(a.id, b.id);
}

/// `x` put into `s` just before the first edge it may come before.
pub open spec fn edge_insert(s: Seq<EdgeView>, x: EdgeView) -> Seq<EdgeView>
    decreases s.len(),
{
    if s.len() == 0 {
        seq![x]
    } else if edge_le(x, s[0]) {
        seq![x] + s
    } else {
        seq![s[0]] + edge_insert(s.drop_first(), x)
    }
}

/// The edges by relation priority and id; edges that tie keep their order.
pub open spec fn edge_order(s: Seq<EdgeView>) -> Seq<EdgeView>
    decreases s.len(),
{
    if s.len() == 0 {
        Seq::empty()
    } else {
        edge_insert(edge_order(s.drop_first()), s[0])
    }
}

/// The first `limit` entries of `s`, or all of them when there are fewer.
pub open spec fn at_most<A>(s: Seq<A>, limit: int) -> Seq<A> {
    if s.len() <= limit {
        s
    } else {
        s.take(limit)
    }
}

proof fn lemma_edge_insert(s: Seq<EdgeView>, pos: int, x: EdgeView)
    requires
        0 <= pos <= s.len(),
        forall|c: int| 0 <= c < pos ==> !edge_le(x, #[trigger] s[c]),
        pos < s.len() ==> edge_le(x, s[pos]),
    ensures
        s.insert(pos, x) == edge_insert(s, x),
    decreases s.len(),
{
    if s.len() == 0 {
        assert(s.insert(pos, x) =~= seq![x]);
    } else if pos == 0 {
        assert(s.insert(pos, x) =~= seq![x] + s);
    } else {
        assert(!edge_le(x, s[0]));
        let t = s.drop_first();
        assert forall|c: int| 0 <= c < pos - 1 implies !edge_le(x, #[trigger] t[c]) by {
            assert(t[c] == s[c + 1]);
        }
        lemma_edge_insert(t, pos - 1, x);
        assert(s.insert(pos, x) =~= seq![s[0]] + t.insert(pos - 1, x));
    }
}

fn edge_before(a: &TopologyEdge, b: &TopologyEdge) -> (r: bool)
    ensures
        r == !edge_le(b@, a@),
{
    let pa = relation_priority(a.label.as_str());
    let pb = relation_priority(b.label.as_str());
    if pa != pb {
        pa < pb
    } else {
        str_lt(a.id.as_str(), b.id.as_str())
    }
}

/// Edges sorted by relation priority and id; edges that tie keep their order.
fn sort_edges_by_priority(edges: Vec<TopologyEdge>) -> (r: Vec<TopologyEdge>)
    ensures
        r.len() == edges.len(),
        forall|a: int, b: int| 0 <= a < b < r.len() ==> edge_le(#[trigger] r@[a]@, #[trigger] r@[b]@),
        forall|o: int| 0 <= o < r.len() ==> edges@.contains(#[trigger] r@[o]),
        edge_views(r@) == edge_order(edge_views(edges@)),
{
    let ghost input = edges@;
    let ghost iv = edge_views(edges@);
    let mut rest = edges;
    let mut out: Vec<TopologyEdge> = Vec::new();
    assert(edge_views(out@) =~= edge_order(iv.skip(iv.len() as int)));
    while rest.len() > 0
        invariant
            out.len() + rest.len() == input.len(),
            iv == edge_views(input),
            edge_views(rest@) == iv.take(rest.len() as int),
            edge_views(out@) == edge_order(iv.skip(rest.len() as int)),
            forall|t: int| 0 <= t < rest.len() ==> input.contains(#[trigger] rest@[t]),
            forall|a: int, b: int| 0 <= a < b < out.len() ==> edge_le(#[trigger] out@[a]@, #[trigger] out@[b]@),
            forall|o: int| 0 <= o < out.len() ==> input.contains(#[trigger] out@[o]),
        decreases rest.len(),
    {
        let ghost rest_before = rest@;
        let ghost l = rest.len() as int;
        let x = rest.pop().unwrap();
        proof {
            assert(x == rest_before[rest_before.len() - 1]);
            assert(iv.take(l)[l - 1] == x@);
            assert(iv[l - 1] == x@);
            assert(edge_views(rest@) =~= iv.take(l - 1));
            assert(input.contains(rest_before[rest_before.len() - 1]));
            assert forall|t: int| 0 <= t < rest.len() implies input.contains(#[trigger] rest@[t]) by {
                assert(rest@[t] == rest_before[t]);
            }
        }
        let mut pos: usize = 0;
        while pos < out.len() && edge_before(&out[pos], &x)
            invariant
                pos <= out.len(),
                forall|c: int| 0 <= c < pos ==> edge_le(#[trigger] out@[c]@, x@),
                forall|c: int| 0 <= c < pos ==> !edge_le(x@, #[trigger] out@[c]@),
            decreases out.len() - pos,
        {
            proof {
                lemma_edge_le_total(x@, out@[pos as int]@);
            }
            pos += 1;
        }
        let ghost before = out@;
        proof {
            let bv = edge_views(before);
            assert forall|c: int| 0 <= c < pos implies !edge_le(x@, #[trigger] bv[c]) by {
                assert(bv[c] == before[c]@);
            }
            if pos < out.len() {
                lemma_edge_le_total(x@, out@[pos as int]@);
                assert(bv[pos as int] == before[pos as int]@);
            }
            lemma_edge_insert(bv, pos as int, x@);
            assert(iv.skip(l - 1).drop_first() =~= iv.skip(l));
            assert(iv.skip(l - 1)[0] == x@);
        }
        out.insert(pos, x);
        proof {
            assert(edge_views(out@) =~= edge_views(before).insert(pos as int, x@));
            assert forall|a: int, b: int| 0 <= a < b < out.len() implies edge_le(
                #[trigger] out@[a]@,
                #[trigger] out@[b]@,
            ) by {
                if b < pos {
                    assert(out@[a] == before[a] && out@[b] == before[b]);
                } else if b == pos {
                    assert(out@[a] == before[a]);
                } else if a < pos {
                    assert(out@[a] == before[a] && out@[b] == before[b - 1]);
                    lemma_edge_le_transitive(before[a]@, x@, before[pos as int]@);
                    if b - 1 > pos {
                        lemma_edge_le_transitive(before[a]@, before[pos as int]@, before[b - 1]@);
                    }
                } else if a == pos {
                    assert(out@[b] == before[b - 1]);
                    if b - 1 > pos {
                        lemma_edge_le_transitive(x@, before[pos as int]@, before[b - 1]@);
                    }
                } else {
                    assert(out@[a] == before[a - 1] && out@[b] == before[b - 1]);
                }
            }
            assert forall|o: int| 0 <= o < out.len() implies input.contains(#[trigger] out@[o]) by {
                if o < pos {
                    assert(out@[o] == before[o]);
                } else if o > pos {
                    assert(out@[o] == before[o - 1]);
                }
            }
        }
    }
    assert(iv.skip(0) =~= iv);
    out
}

/// No candidate before position `i` has the id of the one at `i`.
pub open spec fn first_node_at(cands: Seq<NodeView>, i: int) -> bool {
    forall|j: int| 0 <= j < i ==> #[trigger] cands[j].id != cands[i].id
}

/// `v` is the first candidate node with its id.
pub open spec fn first_node_candidate(cands: Seq<NodeView>, v: NodeView) -> bool {
    exists|i: int| 0 <= i < cands.len() && cands[i] == v && #[trigger] first_node_at(cands, i)
}

/// No candidate before position `i` has the id of the one at `i`.
pub open spec fn first_edge_at(cands: Seq<EdgeView>, i: int) -> bool {
    forall|j: int| 0 <= j < i ==> #[trigger] cands[j].id != cands[i].id
}

/// `v` is the first candidate edge with its id.
pub open spec fn first_edge_candidate(cands: Seq<EdgeView>, v: EdgeView) -> bool {
    exists|i: int| 0 <= i < cands.len() && cands[i] == v && #[trigger] first_edge_at(cands, i)
}

/// The node `n` is a first candidate, placed on row `row`.
pub open spec fn placed_candidate(cands: Seq<NodeView>, n: NodeView, row: int) -> bool {
    exists|v: NodeView| #[trigger] first_node_candidate(cands, v) && n == placed_node(v, row)
}

/// The edge `e` is a first candidate, routed between the scene's nodes.
pub open spec fn routed_candidate(cands: Seq<EdgeView>, e: EdgeView, nodes: Seq<NodeView>) -> bool {
    exists|v: EdgeView| #[trigger] first_edge_candidate(cands, v) && e == routed_edge(v, nodes)
}

/// How many different ids the candidate nodes have.
pub open spec fn distinct_node_ids(cands: Seq<NodeView>) -> nat {
    cands.map_values(|v: NodeView| v.id).to_set().len()
}

/// How many different ids the candidate edges have.
pub open spec fn distinct_edge_ids(cands: Seq<EdgeView>) -> nat {
    cands.map_values(|v: EdgeView| v.id).to_set().len()
}

/// The model has something to draw: memory nodes, conflict nodes, or a blocked mutation.
pub open spec fn has_graph(model: OwnershipModel) -> bool {
    model.memory_graph.nodes@.len() > 0 || (match model.conflict_graph {
        Some(g) => g.nodes@.len() > 0,
        None => false,
    }) || model.mutation_requirement is Some
}

fn find_node(nodes: &Vec<TopologyNode>, id: &str) -> (r: Option<usize>)
    ensures
        match r {
            Some(k) => k < nodes.len() && nodes@[k as int].id@ == id@,
            None => forall|k: int| 0 <= k < nodes.len() ==> #[trigger] nodes@[k].id@ != id@,
        },
{
    let mut k: usize = 0;
    while k < nodes.len()
        invariant
            k <= nodes.len(),
            forall|t: int| 0 <= t < k ==> #[trigger] nodes@[t].id@ != id@,
        decreases nodes.len() - k,
    {
        if str_eq(nodes[k].id.as_str(), id) {
            return Some(k);
        }
        k += 1;
    }
    None
}

fn contains_text(ids: &Vec<String>, id: &str) -> (r: bool)
    ensures
        r == id_texts(ids@).contains(id@),
{
    let mut k: usize = 0;
    while k < ids.len()
        invariant
            k <= ids.len(),
            forall|t: int| 0 <= t < k ==> id_texts(ids@)[t] != id@,
        decreases ids.len() - k,
    {
        if str_eq(ids[k].as_str(), id) {
            assert(id_texts(ids@)[k as int] == id@);
            return true;
        }
        k += 1;
    }
    false
}

/// The names the walk starts from: the problem's binding, then the
/// selected place.
pub open spec fn walk_names(problem: Option<OwnershipProblem>, model: OwnershipModel) -> Seq<Seq<char>> {
    let first = match problem {
        Some(p) => seq![p.binding_name@],
        None => Seq::empty(),
    };
    match model.selected_place {
        Some(place) => first.push(place@),
        None => first,
    }
}

/// `out` holds, sorted by id, the first candidate node with each id.
pub open spec fn first_nodes_sorted(cands: Seq<NodeView>, out: Seq<NodeView>) -> bool {
    &&& strictly_sorted(out.map_values(|v: NodeView| v.id))
    &&& forall|i: int|
        0 <= i < cands.len() ==> out.map_values(|v: NodeView| v.id).contains(#[trigger] cands[i].id)
    &&& forall|o: int| 0 <= o < out.len() ==> first_node_candidate(cands, #[trigger] out[o])
}

/// `out` holds, sorted by id, the first candidate edge with each id.
pub open spec fn first_edges_sorted(cands: Seq<EdgeView>, out: Seq<EdgeView>) -> bool {
    &&& strictly_sorted(out.map_values(|v: EdgeView| v.id))
    &&& forall|i: int|
        0 <= i < cands.len() ==> out.map_values(|v: EdgeView| v.id).contains(#[trigger] cands[i].id)
    &&& forall|o: int| 0 <= o < out.len() ==> first_edge_candidate(cands, #[trigger] out[o])
}

/// The ids of the nodes, in order.
pub open spec fn node_ids(v: Seq<NodeView>) -> Seq<Seq<char>> {
    v.map_values(|n: NodeView| n.id)
}

/// The scene keeps, in walking order, the ids the walk over the sorted
/// first candidates keeps that name a candidate node, and, up to
/// `edge_limit`, the candidate edges between kept ids by relation priority
/// and id, routed between the scene's nodes.
pub open spec fn graph_kept(
    cands: Seq<NodeView>,
    cand_edges: Seq<EdgeView>,
    names: Seq<Seq<char>>,
    node_limit: usize,
    edge_limit: usize,
    nodes: Seq<NodeView>,
    edges: Seq<EdgeView>,
) -> bool {
    exists|ns: Seq<NodeView>, es: Seq<EdgeView>, w: Seq<Seq<char>>|
        #[trigger] first_nodes_sorted(cands, ns) && #[trigger] first_edges_sorted(cand_edges, es)
            && #[trigger] walk_result(es, node_limit as nat, spec_roots(ns, names), w) && {
            let between = at_most(
                edge_order(es.filter(|e: EdgeView| w.contains(e.source) && w.contains(e.target))),
                edge_limit as int,
            );
            &&& node_ids(nodes) == w.filter(|x: Seq<char>| node_ids(ns).contains(x))
            &&& edges.len() == between.len()
            &&& forall|j: int| 0 <= j < edges.len() ==> edges[j] == routed_edge(#[trigger] between[j], nodes)
        }
}

proof fn lemma_sorted_firsts_views_n(items: Seq<TopologyNode>, out: Seq<TopologyNode>)
    requires
        sorted_firsts(items, out),
    ensures
        first_nodes_sorted(node_views(items), node_views(out)),
{
    let ov = node_views(out);
    assert(ov.map_values(|v: NodeView| v.id) =~= keys(out));
    assert forall|o: int| 0 <= o < ov.len() implies first_node_candidate(node_views(items), #[trigger] ov[o]) by {
        lemma_firsts_are_candidates_n(items, out, o);
    }
    assert forall|i: int| 0 <= i < items.len() implies ov.map_values(|v: NodeView| v.id).contains(
        #[trigger] node_views(items)[i].id,
    ) by {
        assert(keys(out).contains(items[i].key()));
    }
}

pub(crate) proof fn lemma_sorted_firsts_views_e(items: Seq<TopologyEdge>, out: Seq<TopologyEdge>)
    requires
        sorted_firsts(items, out),
    ensures
        first_edges_sorted(edge_views(items), edge_views(out)),
{
    let ov = edge_views(out);
    assert(ov.map_values(|v: EdgeView| v.id) =~= keys(out));
    assert forall|o: int| 0 <= o < ov.len() implies first_edge_candidate(edge_views(items), #[trigger] ov[o]) by {
        lemma_firsts_are_candidates_e(items, out, o);
    }
    assert forall|i: int| 0 <= i < items.len() implies ov.map_values(|v: EdgeView| v.id).contains(
        #[trigger] edge_views(items)[i].id,
    ) by {
        assert(keys(out).contains(items[i].key()));
    }
}

proof fn lemma_firsts_are_candidates_n(items: Seq<TopologyNode>, out: Seq<TopologyNode>, o: int)
    requires
        sorted_firsts(items, out),
        0 <= o < out.len(),
    ensures
        first_node_candidate(node_views(items), out[o]@),
{
    let c = node_views(items);
    assert(crate::keyed::first_of_its_key(items, out[o]));
    let i = choose|i: int| 0 <= i < items.len() && items[i] == out[o] && #[trigger] crate::keyed::is_first_occurrence(items, i);
    assert forall|j: int| 0 <= j < i implies #[trigger] c[j].id != c[i].id by {
        assert(items[j].key() != items[i].key());
    }
    assert(first_node_at(c, i));
}

proof fn lemma_firsts_are_candidates_e(items: Seq<TopologyEdge>, out: Seq<TopologyEdge>, o: int)
    requires
        sorted_firsts(items, out),
        0 <= o < out.len(),
    ensures
        first_edge_candidate(edge_views(items), out[o]@),
{
    let c = edge_views(items);
    assert(crate::keyed::first_of_its_key(items, out[o]));
    let i = choose|i: int| 0 <= i < items.len() && items[i] == out[o] && #[trigger] crate::keyed::is_first_occurrence(items, i);
    assert forall|j: int| 0 <= j < i implies #[trigger] c[j].id != c[i].id by {
        assert(items[j].key() != items[i].key());
    }
    assert(first_edge_at(c, i));
}

proof fn lemma_count_n(items: Seq<TopologyNode>, out: Seq<TopologyNode>)
    requires
        sorted_firsts(items, out),
    ensures
        out.len() == distinct_node_ids(node_views(items)),
{
    crate::keyed::lemma_sorted_firsts_count(items, out);
    assert(keys(items) =~= node_views(items).map_values(|v: NodeView| v.id));
}

proof fn lemma_count_e(items: Seq<TopologyEdge>, out: Seq<TopologyEdge>)
    requires
        sorted_firsts(items, out),
    ensures
        out.len() == distinct_edge_ids(edge_views(items)),
{
    crate::keyed::lemma_sorted_firsts_count(items, out);
    assert(keys(items) =~= edge_views(items).map_values(|v: EdgeView| v.id));
}

/// The problem, if any, as a value.
pub open spec fn problem_value(problem: Option<&OwnershipProblem>) -> Option<OwnershipProblem> {
    match problem {
        Some(p) => Some(*p),
        None => None,
    }
}

/// What the scene drawn from the compiler's graph is: the step clamped to
/// the timeline, the fixed title and summary, the candidates kept in walk
/// order up to `node_limit` and laid out row by row, the edges between kept
/// nodes sorted by relation priority and id up to `edge_limit`, whether
/// anything was cut, the moments and the access lines.
pub open spec fn graph_scene_for(
    problem: Option<OwnershipProblem>,
    model: OwnershipModel,
    selected_step: usize,
    node_limit: usize,
    edge_limit: usize,
    expanded: bool,
    scene: OwnershipTopologyScene,
) -> bool {
    let step = graph_step(model, selected_step);
    let cands = candidate_nodes(problem, model, step);
    let cand_edges = candidate_edges(problem, model, step);
    &&& scene.selected_step == step
    &&& scene.title@ == (if expanded {
        "Full compiler ownership graph"@
    } else {
        "Where the selected value lives"@
    })
    &&& scene.summary@
        == "Compiler and source facts are arranged from local access paths through inline wrappers to heap or borrowed targets."@
    &&& scene.expanded == expanded
    &&& scene.legacy_limited == (model.compiler_schema_version > 0
        && model.compiler_schema_version < 7)
    &&& scene.nodes.len() <= node_limit
    &&& graph_kept(
        cands,
        cand_edges,
        walk_names(problem, model),
        node_limit,
        edge_limit,
        node_views(scene.nodes@),
        edge_views(scene.edges@),
    )
    &&& scene.edges.len() <= edge_limit
    &&& node_views(scene.nodes@).map_values(|v: NodeView| v.id).no_duplicates()
    &&& forall|i: int|
        0 <= i < scene.nodes.len() ==> placed_candidate(cands, #[trigger] scene.nodes@[i]@, i)
    &&& forall|j: int|
        0 <= j < scene.edges.len() ==> routed_candidate(
            cand_edges,
            #[trigger] scene.edges@[j]@,
            node_views(scene.nodes@),
        )
    &&& forall|a: int, b: int|
        0 <= a < b < scene.edges.len() ==> edge_le(
            #[trigger] scene.edges@[a]@,
            #[trigger] scene.edges@[b]@,
        )
    &&& scene.truncated == (model.memory_graph.truncated || distinct_node_ids(cands)
        > scene.nodes.len() || distinct_edge_ids(cand_edges) > scene.edges.len())
    &&& moment_views(scene.moments@) == graph_moments(model)
    &&& id_texts(scene.access_lines@) == graph_access_lines(model)
    &&& scene.canvas_height == spec_row_y(
        if scene.nodes.len() > 1 {
            scene.nodes.len() as int
        } else {
            1
        },
    )
}

/// The compiler's ownership graph at `selected_step` as a scene, when the
/// model has one: its nodes walked from the problem's binding and the
/// selected place (at most `node_limit`), the edges between kept ids sorted
/// by relation priority and id (at most `edge_limit`), laid out on the
/// canvas, with the timeline's moments and the first access paths.
pub fn derive_ownership_topology_scene_with_limits(
    problem: Option<&OwnershipProblem>,
    model: &OwnershipModel,
    selected_step: usize,
    node_limit: usize,
    edge_limit: usize,
    expanded: bool,
) -> (r: Option<OwnershipTopologyScene>)
    ensures
        r is Some <==> has_graph(*model),
        r matches Some(scene) ==> graph_scene_for(
            problem_value(problem),
            *model,
            selected_step,
            node_limit,
            edge_limit,
            expanded,
            scene,
        ),
{
    let no_conflict_nodes = match &model.conflict_graph {
        Some(graph) => graph.nodes.len() == 0,
        None => true,
    };
    if model.memory_graph.nodes.len() == 0 && no_conflict_nodes
        && model.mutation_requirement.is_none() {
        return None;
    }
    let memory_count = model.memory_graph.snapshots.len();
    let conflict_count: usize = match &model.conflict_graph {
        Some(graph) => graph.snapshots.len(),
        None => 0,
    };
    let longest = if memory_count > conflict_count {
        memory_count
    } else {
        conflict_count
    };
    let last: usize = if longest > 0 {
        longest - 1
    } else {
        0
    };
    let step = if selected_step < last {
        selected_step
    } else {
        last
    };
    let ghost p = problem_value(problem);
    let (cand_nodes, cand_edges) = build_candidates(problem, model, step);
    let ghost cands = node_views(cand_nodes@);
    let ghost cand_edge_views = edge_views(cand_edges@);
    let ghost cand_node_items = cand_nodes@;
    let ghost cand_edge_items = cand_edges@;
    let nodes = sorted_by_key_first(cand_nodes);
    let edges = sorted_by_key_first(cand_edges);
    proof {
        lemma_count_n(cand_node_items, nodes@);
        lemma_count_e(cand_edge_items, edges@);
        lemma_sorted_firsts_views_n(cand_node_items, nodes@);
        lemma_sorted_firsts_views_e(cand_edge_items, edges@);
    }
    let mut names: Vec<&str> = Vec::new();
    if let Some(problem) = problem {
        names.push(problem.binding_name.as_str());
    }
    assert(name_texts(names@) =~= (match p {
        Some(pp) => seq![pp.binding_name@],
        None => Seq::<Seq<char>>::empty(),
    }));
    let ghost first_names = name_texts(names@);
    if let Some(place) = &model.selected_place {
        names.push(place.as_str());
        assert(name_texts(names@) =~= first_names.push(place@));
    }
    assert(name_texts(names@) == walk_names(p, *model));
    let ordered = semantic_node_order(&nodes, &edges, names.as_slice(), node_limit);
    let ghost nids = node_ids(node_views(nodes@));
    let mut picked: Vec<TopologyNode> = Vec::new();
    let ghost mut at: Seq<int> = Seq::empty();
    let mut k: usize = 0;
    proof {
        reveal(Seq::filter);
        assert(id_texts(ordered@).take(0).filter(|x: Seq<char>| nids.contains(x)) =~= Seq::<Seq<char>>::empty());
        assert(node_ids(node_views(picked@)) =~= Seq::<Seq<char>>::empty());
    }
    while k < ordered.len()
        invariant
            k <= ordered.len(),
            nids == node_ids(node_views(nodes@)),
            node_ids(node_views(picked@)) == id_texts(ordered@).take(k as int).filter(
                |x: Seq<char>| nids.contains(x),
            ),
            ordered.len() <= node_limit,
            id_texts(ordered@).no_duplicates(),
            sorted_firsts(cand_node_items, nodes@),
            cands == node_views(cand_node_items),
            picked.len() <= k,
            at.len() == picked.len(),
            forall|t: int|
                0 <= t < picked.len() ==> 0 <= #[trigger] at[t] < k && picked@[t].id@ == id_texts(
                    ordered@,
                )[at[t]],
            forall|a: int, b: int| 0 <= a < b < picked.len() ==> #[trigger] at[a] < #[trigger] at[b],
            forall|t: int| 0 <= t < picked.len() ==> first_node_candidate(cands, #[trigger] picked@[t]@),
        decreases ordered.len() - k,
    {
        let ghost ids_before = node_ids(node_views(picked@));
        proof {
            reveal(Seq::filter);
            let ot = id_texts(ordered@);
            assert(ot.take(k + 1).drop_last() =~= ot.take(k as int));
            assert(ot.take(k + 1).last() == ordered@[k as int]@);
        }
        if let Some(index) = find_node(&nodes, ordered[k].as_str()) {
            let node = nodes[index].clone();
            proof {
                lemma_firsts_are_candidates_n(cand_node_items, nodes@, index as int);
                at = at.push(k as int);
                assert(nids[index as int] == ordered@[k as int]@);
            }
            picked.push(node);
            proof {
                assert(node_ids(node_views(picked@)) =~= ids_before.push(ordered@[k as int]@));
            }
        } else {
            proof {
                if nids.contains(ordered@[k as int]@) {
                    let w = choose|w: int| 0 <= w < nids.len() && nids[w] == ordered@[k as int]@;
                    assert(nodes@[w].id@ == ordered@[k as int]@);
                }
            }
        }
        k += 1;
    }
    proof {
        assert(id_texts(ordered@).take(ordered.len() as int) =~= id_texts(ordered@));
    }
    proof {
        let ids = node_views(picked@).map_values(|v: NodeView| v.id);
        assert forall|a: int, b: int| 0 <= a < ids.len() && 0 <= b < ids.len() && a != b implies ids[a]
            != ids[b] by {
            if a < b {
                assert(at[a] < at[b]);
            } else {
                assert(at[b] < at[a]);
            }
            assert(ids[a] == id_texts(ordered@)[at[a]]);
            assert(ids[b] == id_texts(ordered@)[at[b]]);
        }
        assert(ids.no_duplicates());
    }
    let mut kept: Vec<TopologyEdge> = Vec::new();
    let mut e: usize = 0;
    let ghost es = edge_views(edges@);
    let ghost w = id_texts(ordered@);
    proof {
        reveal(Seq::filter);
        assert(es.take(0).filter(|x: EdgeView| w.contains(x.source) && w.contains(x.target)) =~= Seq::<EdgeView>::empty());
        assert(edge_views(kept@) =~= Seq::<EdgeView>::empty());
    }
    while e < edges.len()
        invariant
            e <= edges.len(),
            es == edge_views(edges@),
            w == id_texts(ordered@),
            edge_views(kept@) == es.take(e as int).filter(
                |x: EdgeView| w.contains(x.source) && w.contains(x.target),
            ),
            sorted_firsts(cand_edge_items, edges@),
            cand_edge_views == edge_views(cand_edge_items),
            forall|t: int| 0 <= t < kept.len() ==> first_edge_candidate(cand_edge_views, #[trigger] kept@[t]@),
        decreases edges.len() - e,
    {
        let ghost kept_before = edge_views(kept@);
        proof {
            reveal(Seq::filter);
            assert(es.take(e + 1).drop_last() =~= es.take(e as int));
            assert(es.take(e + 1).last() == edges@[e as int]@);
        }
        if contains_text(&ordered, edges[e].source.as_str()) && contains_text(
            &ordered,
            edges[e].target.as_str(),
        ) {
            proof {
                lemma_firsts_are_candidates_e(cand_edge_items, edges@, e as int);
            }
            kept.push(edges[e].clone());
            proof {
                assert(edge_views(kept@) =~= kept_before.push(edges@[e as int]@));
            }
        }
        e += 1;
    }
    assert(es.take(edges.len() as int) =~= es);
    let ghost kept_items = kept@;
    let ghost between = at_most(
        edge_order(es.filter(|x: EdgeView| w.contains(x.source) && w.contains(x.target))),
        edge_limit as int,
    );
    let mut sorted = sort_edges_by_priority(kept);
    let ghost full = edge_views(sorted@);
    sorted.truncate(edge_limit);
    proof {
        if edge_limit as int <= full.len() {
            assert(edge_views(sorted@) =~= full.take(edge_limit as int));
        }
        assert(edge_views(sorted@) == between);
    }
    let truncated = model.memory_graph.truncated || nodes.len() > picked.len() || edges.len()
        > sorted.len();
    let ghost unplaced_nodes = node_views(picked@);
    let ghost unrouted = edge_views(sorted@);
    let ghost sorted_items = sorted@;
    let canvas_height = layout_topology_scene(&mut picked, &mut sorted);
    proof {
        assert forall|i: int| 0 <= i < picked.len() implies placed_candidate(
            cands,
            #[trigger] picked@[i]@,
            i,
        ) by {
            assert(node_views(picked@)[i] == placed_node(unplaced_nodes[i], i));
            assert(first_node_candidate(cands, unplaced_nodes[i]));
        }
        assert forall|k2: int| 0 <= k2 < unplaced_nodes.len() implies #[trigger] node_views(picked@)[k2].id
            == unplaced_nodes[k2].id && node_views(picked@)[k2].column == unplaced_nodes[k2].column by {
            assert(node_views(picked@)[k2] == placed_node(unplaced_nodes[k2], k2));
        }
        assert forall|j: int| 0 <= j < sorted.len() implies routed_candidate(
            cand_edge_views,
            #[trigger] sorted@[j]@,
            node_views(picked@),
        ) by {
            assert(edge_views(sorted@)[j] == routed_edge(unrouted[j], unplaced_nodes));
            crate::scene_layout::lemma_routed_edge_ignores_rects(
                unrouted[j],
                unplaced_nodes,
                node_views(picked@),
            );
            assert(kept_items.contains(sorted_items[j]));
            let t = choose|t: int| 0 <= t < kept_items.len() && kept_items[t] == sorted_items[j];
            assert(first_edge_candidate(cand_edge_views, kept_items[t]@));
            assert(unrouted[j] == sorted_items[j]@);
        }
        assert forall|a: int, b: int| 0 <= a < b < sorted.len() implies edge_le(
            #[trigger] sorted@[a]@,
            #[trigger] sorted@[b]@,
        ) by {
            assert(edge_views(sorted@)[a] == routed_edge(unrouted[a], unplaced_nodes));
            assert(edge_views(sorted@)[b] == routed_edge(unrouted[b], unplaced_nodes));
        }
        assert(node_views(picked@).map_values(|v: NodeView| v.id) =~= unplaced_nodes.map_values(
            |v: NodeView| v.id,
        ));
        assert(node_ids(node_views(picked@)) == id_texts(ordered@).filter(
            |x: Seq<char>| nids.contains(x),
        ));
        assert(first_nodes_sorted(cands, node_views(nodes@)));
        assert(first_edges_sorted(cand_edge_views, edge_views(edges@)));
        assert(walk_result(
            edge_views(edges@),
            node_limit as nat,
            spec_roots(node_views(nodes@), walk_names(p, *model)),
            id_texts(ordered@),
        ));
        assert forall|j: int| 0 <= j < sorted.len() implies edge_views(sorted@)[j] == routed_edge(
            #[trigger] between[j],
            node_views(picked@),
        ) by {
            assert(edge_views(sorted@)[j] == routed_edge(unrouted[j], unplaced_nodes));
            crate::scene_layout::lemma_routed_edge_ignores_rects(unrouted[j], unplaced_nodes, node_views(picked@));
        }
        assert(graph_kept(
            cands,
            cand_edge_views,
            walk_names(p, *model),
            node_limit,
            edge_limit,
            node_views(picked@),
            edge_views(sorted@),
        ));
    }
    let title = if expanded {
        owned("Full compiler ownership graph")
    } else {
        owned("Where the selected value lives")
    };
    Some(OwnershipTopologyScene {
        title,
        summary: owned(
            "Compiler and source facts are arranged from local access paths through inline wrappers to heap or borrowed targets.",
        ),
        nodes: picked,
        edges: sorted,
        moments: scene_moments(model),
        selected_step: step,
        access_lines: scene_access_lines(model),
        canvas_height,
        expanded,
        truncated,
        legacy_limited: model.compiler_schema_version > 0 && model.compiler_schema_version < 7,
    })
}

} // verus!
