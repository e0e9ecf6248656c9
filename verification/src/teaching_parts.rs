//! The parts the teaching scene is built from, before it is sorted, cut to
//! what is near the focus and laid out: the focus and its type's layers,
//! the conflict's roles, the access that cannot grant a mutation, and the
//! explained operation with the buffer it may move to.
use vstd::prelude::*;

use crate::protocol::{
    OwnershipConflictEdge, OwnershipConflictGraph, OwnershipConflictNode, OwnershipConflictSnapshot,
    OwnershipModel, OwnershipOperationInsight, OwnershipProblem, Range,
};
use crate::panel::{
    readable_access, readable_available_access, spec_readable_access,
    spec_readable_available_access,
};
use crate::scene_graph::{conflict_snapshot_at, conflict_state, conflict_state_of, unplaced};
use crate::text::{
    ascii_lower, ascii_lowercased, concat2, concat3, has_prefix, has_substring, opt_text, owned,
    seq_contains, starts_with, str_eq,
};
use crate::topology::{
    edge_views, node_views, spec_topology_column, topology_column, EdgeView, NodeView, TopologyColumn,
    TopologyEdge, TopologyNode, TopologyRect,
};
use crate::teaching::{opt_problem, TeachingDiagramFamily};
use crate::type_layers::{
    append_type_layers, argument_or_t, type_layers, views, LayerView, TeachingLayer,
};
use crate::type_parser::parse_type;

verus! {

/// The state the teaching scene gives a layer of `kind` in `phase`.
pub open spec fn spec_layer_state(kind: Seq<char>, phase: Seq<char>) -> Seq<char> {
    if kind == "future_state"@ {
        if phase == "operation"@ {
            "polling or suspended as Poll::Pending"@
        } else if phase == "after"@ {
            "resumed; may become Poll::Ready"@
        } else {
            "created; not yet run to completion"@
        }
    } else if kind == "suspension_point"@ {
        if phase == "operation"@ {
            "active suspension point"@
        } else {
            "not currently suspended here"@
        }
    } else if kind == "closure_environment"@ {
        if phase == "operation"@ {
            "closure call is using its captures"@
        } else if phase == "after"@ {
            "availability depends on Fn, FnMut, or FnOnce"@
        } else {
            "capture environment created"@
        }
    } else if phase == "conflict"@ && (kind == "buffer"@ || kind == "element"@ || kind
        == "borrowed_view"@) {
        "shared borrow live; mutation blocked"@
    } else if phase == "after"@ {
        "available after the operation or final use"@
    } else {
        "available"@
    }
}

pub fn layer_state(kind: &str, phase: &str) -> (r: String)
    ensures
        r@ == spec_layer_state(kind@, phase@),
{
    if str_eq(kind, "future_state") {
        if str_eq(phase, "operation") {
            owned("polling or suspended as Poll::Pending")
        } else if str_eq(phase, "after") {
            owned("resumed; may become Poll::Ready")
        } else {
            owned("created; not yet run to completion")
        }
    } else if str_eq(kind, "suspension_point") {
        if str_eq(phase, "operation") {
            owned("active suspension point")
        } else {
            owned("not currently suspended here")
        }
    } else if str_eq(kind, "closure_environment") {
        if str_eq(phase, "operation") {
            owned("closure call is using its captures")
        } else if str_eq(phase, "after") {
            owned("availability depends on Fn, FnMut, or FnOnce")
        } else {
            owned("capture environment created")
        }
    } else if str_eq(phase, "conflict") && (str_eq(kind, "buffer") || str_eq(kind, "element")
        || str_eq(kind, "borrowed_view")) {
        owned("shared borrow live; mutation blocked")
    } else if str_eq(phase, "after") {
        owned("available after the operation or final use")
    } else {
        owned("available")
    }
}

/// A node of the scene, not placed yet.
pub open spec fn node_view(
    id: Seq<char>,
    place: Seq<char>,
    label: Seq<char>,
    type_text: Seq<char>,
    detail: Seq<char>,
    kind: Seq<char>,
    storage: Seq<char>,
    state: Seq<char>,
    provenance: Seq<char>,
    column: TopologyColumn,
    range: Option<Range>,
) -> NodeView {
    NodeView {
        id,
        place,
        label,
        type_text,
        detail,
        kind,
        storage,
        state,
        provenance,
        column,
        range,
        rect: unplaced(),
    }
}

/// An edge of the scene, not routed yet.
pub open spec fn edge_view(
    id: Seq<char>,
    source: Seq<char>,
    target: Seq<char>,
    label: Seq<char>,
    provenance: Seq<char>,
    active: bool,
    range: Option<Range>,
) -> EdgeView {
    EdgeView {
        id,
        source,
        target,
        label,
        provenance,
        active,
        range,
        route: Seq::empty(),
        label_position: (0, 0),
    }
}

pub fn new_node(
    id: String,
    place: String,
    label: String,
    type_text: String,
    detail: String,
    kind: &str,
    storage: &str,
    state: String,
    provenance: String,
    column: TopologyColumn,
    range: Option<Range>,
) -> (r: TopologyNode)
    ensures
        r@ == node_view(
            id@,
            place@,
            label@,
            type_text@,
            detail@,
            kind@,
            storage@,
            state@,
            provenance@,
            column,
            range,
        ),
{
    TopologyNode {
        id,
        place,
        label,
        type_text,
        detail,
        kind: owned(kind),
        storage: owned(storage),
        state,
        provenance,
        column,
        range,
        rect: TopologyRect { x: 0, y: 0, width: 0, height: 0 },
    }
}

pub fn new_edge(
    id: String,
    source: String,
    target: String,
    label: String,
    provenance: String,
    active: bool,
    range: Option<Range>,
) -> (r: TopologyEdge)
    ensures
        r@ == edge_view(id@, source@, target@, label@, provenance@, active, range),
{
    let r = TopologyEdge {
        id,
        source,
        target,
        label,
        provenance,
        active,
        range,
        route: Vec::new(),
        label_position: (0, 0),
    };
    assert(r@.route =~= Seq::<(u16, u16)>::empty());
    r
}

/// The scene id of a layer.
pub open spec fn layer_node_id(suffix: Seq<char>) -> Seq<char> {
    "teaching:"@ + suffix
}

/// The scene id of the layer a layer hangs from.
pub open spec fn layer_parent_id(l: LayerView) -> Seq<char> {
    match l.parent_suffix {
        Some(p) => layer_node_id(p),
        None => "teaching:focus"@,
    }
}

/// The node drawn for a layer of the focused value.
pub open spec fn layer_node_view(l: LayerView, focus: Seq<char>, phase: Seq<char>, range: Option<Range>) -> NodeView {
    node_view(
        layer_node_id(l.id_suffix),
        focus,
        l.label,
        l.type_text,
        l.detail,
        l.kind,
        l.storage,
        spec_layer_state(l.kind, phase),
        l.provenance,
        spec_topology_column(l.kind, l.storage),
        range,
    )
}

/// The edge from a layer's parent to the layer.
pub open spec fn layer_edge_view(l: LayerView, range: Option<Range>) -> EdgeView {
    edge_view(
        "teaching-edge:"@ + layer_parent_id(l) + ":"@ + layer_node_id(l.id_suffix),
        layer_parent_id(l),
        layer_node_id(l.id_suffix),
        l.relation,
        l.provenance,
        true,
        range,
    )
}

/// Whether some layer has kind `kind`.
pub open spec fn has_layer_kind(layers: Seq<LayerView>, kind: Seq<char>) -> bool {
    exists|i: int| 0 <= i < layers.len() && #[trigger] layers[i].kind == kind
}

/// The layer a missing future state hangs from: the last heap allocation or
/// control block, else the focus.
pub open spec fn async_parent(layers: Seq<LayerView>) -> Seq<char>
    decreases layers.len(),
{
    if layers.len() == 0 {
        "focus"@
    } else if layers.last().kind == "heap_allocation"@ || layers.last().kind == "control_block"@ {
        layers.last().id_suffix
    } else {
        async_parent(layers.drop_last())
    }
}

/// The layers of the shown type; an async problem whose type draws no
/// future state gets one, and a closure problem whose type draws no
/// environment gets one.
pub open spec fn teaching_layers(shown: Seq<char>, family: TeachingDiagramFamily) -> Seq<LayerView> {
    let l0 = type_layers(shown, "focus"@, "type"@, 0, 0);
    let l1 = if family == TeachingDiagramFamily::Async && !has_layer_kind(l0, "future_state"@) {
        l0 + type_layers("impl Future"@, async_parent(l0), "async"@, 1, l0.len())
    } else {
        l0
    };
    if family == TeachingDiagramFamily::Closure && !has_layer_kind(l1, "closure_environment"@) {
        l1 + type_layers("compiler-generated closure environment"@, "focus"@, "closure"@, 1, l1.len())
    } else {
        l1
    }
}

fn any_layer_kind(layers: &Vec<TeachingLayer>, kind: &str) -> (r: bool)
    ensures
        r == has_layer_kind(views(layers@), kind@),
{
    let mut i: usize = 0;
    while i < layers.len()
        invariant
            i <= layers.len(),
            forall|k: int| 0 <= k < i ==> (#[trigger] views(layers@)[k]).kind != kind@,
        decreases layers.len() - i,
    {
        if str_eq(layers[i].kind.as_str(), kind) {
            assert(views(layers@)[i as int].kind == kind@);
            return true;
        }
        i += 1;
    }
    false
}

fn async_parent_text(layers: &Vec<TeachingLayer>) -> (r: String)
    ensures
        r@ == async_parent(views(layers@)),
{
    let ghost all = views(layers@);
    let mut i = layers.len();
    assert(all.take(i as int) =~= all);
    while i > 0
        invariant
            i <= layers.len(),
            all == views(layers@),
            async_parent(all) == async_parent(all.take(i as int)),
        decreases i,
    {
        proof {
            assert(all.take(i as int).drop_last() =~= all.take(i - 1));
            assert(all.take(i as int).last() == all[i - 1]);
        }
        let kind = layers[i - 1].kind.as_str();
        if str_eq(kind, "heap_allocation") || str_eq(kind, "control_block") {
            return layers[i - 1].id_suffix.clone();
        }
        i -= 1;
    }
    assert(all.take(0) =~= Seq::<LayerView>::empty());
    owned("focus")
}

/// The layers the teaching scene draws for `shown`.
pub fn build_teaching_layers(shown: &str, family: TeachingDiagramFamily) -> (r: Vec<TeachingLayer>)
    ensures
        views(r@) == teaching_layers(shown@, family),
{
    let mut layers: Vec<TeachingLayer> = Vec::new();
    append_type_layers(shown, "focus", "type", &mut layers, 0);
    assert(views(layers@) =~= type_layers(shown@, "focus"@, "type"@, 0, 0));
    if family == TeachingDiagramFamily::Async && !any_layer_kind(&layers, "future_state") {
        let parent = async_parent_text(&layers);
        append_type_layers("impl Future", parent.as_str(), "async", &mut layers, 1);
    }
    if family == TeachingDiagramFamily::Closure && !any_layer_kind(&layers, "closure_environment") {
        append_type_layers(
            "compiler-generated closure environment",
            "focus",
            "closure",
            &mut layers,
            1,
        );
    }
    layers
}

/// The node of the focused place.
pub open spec fn focus_node_view(focus: Seq<char>, shown: Seq<char>, phase: Seq<char>, range: Option<Range>) -> NodeView {
    node_view(
        "teaching:focus"@,
        focus,
        focus,
        shown,
        "selected value or access path"@,
        "projected_place"@,
        "inline"@,
        if phase == "conflict"@ {
            "alive; requested operation blocked"@
        } else {
            "available"@
        },
        "compiler_type"@,
        TopologyColumn::Local,
        range,
    )
}

/// The focus followed by a node for each layer.
pub open spec fn layer_nodes(layers: Seq<LayerView>, focus: Seq<char>, shown: Seq<char>, phase: Seq<char>, range: Option<Range>) -> Seq<NodeView> {
    seq![focus_node_view(focus, shown, phase, range)] + layers.map_values(
        |l: LayerView| layer_node_view(l, focus, phase, range),
    )
}

/// An edge from each layer's parent to the layer.
pub open spec fn layer_edges(layers: Seq<LayerView>, range: Option<Range>) -> Seq<EdgeView> {
    layers.map_values(|l: LayerView| layer_edge_view(l, range))
}

/// The id of the first node at or after `i` of kind `kind`.
pub open spec fn first_id_of_kind(nodes: Seq<NodeView>, kind: Seq<char>, i: int) -> Option<Seq<char>>
    decreases nodes.len() - i,
{
    if i < 0 || i >= nodes.len() {
        None
    } else if nodes[i].kind == kind {
        Some(nodes[i].id)
    } else {
        first_id_of_kind(nodes, kind, i + 1)
    }
}

/// What a borrowed value of the conflict is drawn as: the first element
/// node, else the first buffer, else the focus.
pub open spec fn element_target(nodes: Seq<NodeView>) -> Seq<char> {
    match first_id_of_kind(nodes, "element"@, 0) {
        Some(id) => id,
        None => match first_id_of_kind(nodes, "buffer"@, 0) {
            Some(id) => id,
            None => "teaching:focus"@,
        },
    }
}

fn first_id_with_kind(nodes: &Vec<TopologyNode>, kind: &str) -> (r: Option<String>)
    ensures
        opt_text(r) == first_id_of_kind(node_views(nodes@), kind@, 0),
{
    let ghost nv = node_views(nodes@);
    let mut i: usize = 0;
    while i < nodes.len()
        invariant
            i <= nodes.len(),
            nv == node_views(nodes@),
            first_id_of_kind(nv, kind@, 0) == first_id_of_kind(nv, kind@, i as int),
        decreases nodes.len() - i,
    {
        if str_eq(nodes[i].kind.as_str(), kind) {
            return Some(nodes[i].id.clone());
        }
        i += 1;
    }
    None
}

/// The node of a conflict role, in the state the snapshot gives it.
pub open spec fn role_node_view(
    n: OwnershipConflictNode,
    snapshot: Option<OwnershipConflictSnapshot>,
    provenance: Seq<char>,
    phase: Seq<char>,
) -> NodeView {
    let borrower = n.role@ == "borrower_reference"@;
    node_view(
        "teaching:conflict:"@ + n.id@,
        n.label@,
        n.label@,
        match n.type_text {
            Some(t) => t@,
            None => "compiler-resolved role"@,
        },
        n.memory@,
        if borrower {
            "reference_binding"@
        } else {
            "binding"@
        },
        "stack"@,
        match conflict_state_of(snapshot, n.id@) {
            Some(st) => st,
            None => if borrower && phase != "after"@ {
                "shared borrow live"@
            } else {
                "available"@
            },
        },
        provenance,
        TopologyColumn::Local,
        n.range,
    )
}

/// A node for each role of the conflict but the borrowed value, which is
/// drawn by the focus's own layers.
pub open spec fn role_nodes(
    nodes: Seq<OwnershipConflictNode>,
    snapshot: Option<OwnershipConflictSnapshot>,
    provenance: Seq<char>,
    phase: Seq<char>,
) -> Seq<NodeView>
    decreases nodes.len(),
{
    if nodes.len() == 0 {
        Seq::empty()
    } else {
        let rest = role_nodes(nodes.drop_last(), snapshot, provenance, phase);
        if nodes.last().role@ == "borrowed_value"@ {
            rest
        } else {
            rest.push(role_node_view(nodes.last(), snapshot, provenance, phase))
        }
    }
}

/// The scene node that stands for the conflict role `id`: the last role
/// with that id decides.
pub open spec fn role_target(nodes: Seq<OwnershipConflictNode>, id: Seq<char>, element: Seq<char>) -> Option<Seq<char>>
    decreases nodes.len(),
{
    if nodes.len() == 0 {
        None
    } else if nodes.last().id@ == id {
        Some(
            if nodes.last().role@ == "borrowed_value"@ {
                element
            } else {
                "teaching:conflict:"@ + id
            },
        )
    } else {
        role_target(nodes.drop_last(), id, element)
    }
}

/// An edge for each conflict edge whose ends are both drawn.
pub open spec fn role_edges(
    edges: Seq<OwnershipConflictEdge>,
    nodes: Seq<OwnershipConflictNode>,
    element: Seq<char>,
    phase: Seq<char>,
) -> Seq<EdgeView>
    decreases edges.len(),
{
    if edges.len() == 0 {
        Seq::empty()
    } else {
        let rest = role_edges(edges.drop_last(), nodes, element, phase);
        let e = edges.last();
        match (role_target(nodes, e.from@, element), role_target(nodes, e.to@, element)) {
            (Some(s), Some(t)) => rest.push(
                edge_view(
                    "teaching-conflict:"@ + e.from@ + ":"@ + e.to@,
                    s,
                    t,
                    e.kind@,
                    e.provenance@,
                    phase != "after"@,
                    None,
                ),
            ),
            _ => rest,
        }
    }
}

/// The conflict's nodes and edges, when the model has a conflict graph.
pub open spec fn conflict_part(
    model: OwnershipModel,
    step: usize,
    element: Seq<char>,
    phase: Seq<char>,
) -> (Seq<NodeView>, Seq<EdgeView>) {
    match model.conflict_graph {
        Some(g) => (
            role_nodes(g.nodes@, conflict_snapshot_at(g, step), g.provenance@, phase),
            role_edges(g.edges@, g.nodes@, element, phase),
        ),
        None => (Seq::empty(), Seq::empty()),
    }
}

fn role_target_of(nodes: &Vec<OwnershipConflictNode>, id: &str, element: &String) -> (r: Option<String>)
    ensures
        opt_text(r) == role_target(nodes@, id@, element@),
{
    let mut i = nodes.len();
    assert(nodes@.take(i as int) =~= nodes@);
    while i > 0
        invariant
            i <= nodes.len(),
            role_target(nodes@, id@, element@) == role_target(nodes@.take(i as int), id@, element@),
        decreases i,
    {
        proof {
            assert(nodes@.take(i as int).drop_last() =~= nodes@.take(i - 1));
            assert(nodes@.take(i as int).last() == nodes@[i - 1]);
        }
        if str_eq(nodes[i - 1].id.as_str(), id) {
            if str_eq(nodes[i - 1].role.as_str(), "borrowed_value") {
                return Some(element.clone());
            } else {
                return Some(concat2("teaching:conflict:", id));
            }
        }
        i -= 1;
    }
    assert(nodes@.take(0) =~= Seq::<OwnershipConflictNode>::empty());
    None
}

fn snapshot_for(graph: &OwnershipConflictGraph, step: usize) -> (r: Option<&OwnershipConflictSnapshot>)
    ensures
        match r {
            Some(s) => conflict_snapshot_at(*graph, step) == Some(*s),
            None => conflict_snapshot_at(*graph, step) is None,
        },
{
    if step < graph.snapshots.len() {
        Some(&graph.snapshots[step])
    } else if graph.snapshots.len() > 0 {
        Some(&graph.snapshots[graph.snapshots.len() - 1])
    } else {
        None
    }
}

fn role_node(
    n: &OwnershipConflictNode,
    snapshot: Option<&OwnershipConflictSnapshot>,
    provenance: &String,
    phase: &str,
) -> (r: TopologyNode)
    ensures
        r@ == role_node_view(
            *n,
            match snapshot {
                Some(s) => Some(*s),
                None => None,
            },
            provenance@,
            phase@,
        ),
{
    let borrower = str_eq(n.role.as_str(), "borrower_reference");
    let known = match snapshot {
        Some(s) => conflict_state(s, n.id.as_str()),
        None => None,
    };
    let state = match known {
        Some(st) => st,
        None => if borrower && !str_eq(phase, "after") {
            owned("shared borrow live")
        } else {
            owned("available")
        },
    };
    let type_of = match &n.type_text {
        Some(t) => t.clone(),
        None => owned("compiler-resolved role"),
    };
    new_node(
        concat2("teaching:conflict:", n.id.as_str()),
        n.label.clone(),
        n.label.clone(),
        type_of,
        n.memory.clone(),
        if borrower {
            "reference_binding"
        } else {
            "binding"
        },
        "stack",
        state,
        provenance.clone(),
        TopologyColumn::Local,
        n.range,
    )
}

/// Appends the conflict's role nodes and edges.
fn push_conflict_part(
    nodes: &mut Vec<TopologyNode>,
    edges: &mut Vec<TopologyEdge>,
    model: &OwnershipModel,
    step: usize,
    element: &String,
    phase: &str,
)
    ensures
        node_views(final(nodes)@) == node_views(old(nodes)@) + conflict_part(*model, step, element@, phase@).0,
        edge_views(final(edges)@) == edge_views(old(edges)@) + conflict_part(*model, step, element@, phase@).1,
{
    let ghost nodes0 = node_views(nodes@);
    let ghost edges0 = edge_views(edges@);
    if let Some(graph) = &model.conflict_graph {
        let snapshot = snapshot_for(graph, step);
        let ghost snap = conflict_snapshot_at(*graph, step);
        let gn = &graph.nodes;
        let mut g: usize = 0;
        assert(gn@.take(0) =~= Seq::<OwnershipConflictNode>::empty());
        while g < gn.len()
            invariant
                g <= gn.len(),
                gn == &graph.nodes,
                snap == match snapshot {
                    Some(s) => Some(*s),
                    None => None::<OwnershipConflictSnapshot>,
                },
                node_views(nodes@) == nodes0 + role_nodes(gn@.take(g as int), snap, graph.provenance@, phase@),
            decreases gn.len() - g,
        {
            proof {
                assert(gn@.take(g + 1).drop_last() =~= gn@.take(g as int));
                assert(gn@.take(g + 1).last() == gn@[g as int]);
            }
            if !str_eq(gn[g].role.as_str(), "borrowed_value") {
                let node = role_node(&gn[g], snapshot, &graph.provenance, phase);
                let ghost before = node_views(nodes@);
                nodes.push(node);
                assert(node_views(nodes@) =~= before.push(node@));
            }
            g += 1;
        }
        assert(gn@.take(gn.len() as int) =~= gn@);
        let ge = &graph.edges;
        let mut e: usize = 0;
        assert(ge@.take(0) =~= Seq::<OwnershipConflictEdge>::empty());
        while e < ge.len()
            invariant
                e <= ge.len(),
                ge == &graph.edges,
                gn == &graph.nodes,
                edge_views(edges@) == edges0 + role_edges(ge@.take(e as int), gn@, element@, phase@),
            decreases ge.len() - e,
        {
            proof {
                assert(ge@.take(e + 1).drop_last() =~= ge@.take(e as int));
                assert(ge@.take(e + 1).last() == ge@[e as int]);
            }
            let graph_edge = &ge[e];
            let source = role_target_of(gn, graph_edge.from.as_str(), element);
            let target = role_target_of(gn, graph_edge.to.as_str(), element);
            match (source, target) {
                (Some(s), Some(t)) => {
                    let mut id = concat3("teaching-conflict:", graph_edge.from.as_str(), ":");
                    id.append(graph_edge.to.as_str());
                    let edge = new_edge(
                        id,
                        s,
                        t,
                        graph_edge.kind.clone(),
                        graph_edge.provenance.clone(),
                        !str_eq(phase, "after"),
                        None,
                    );
                    let ghost before = edge_views(edges@);
                    edges.push(edge);
                    assert(edge_views(edges@) =~= before.push(edge@));
                },
                _ => {},
            }
            e += 1;
        }
        assert(ge@.take(ge.len() as int) =~= ge@);
    } else {
        assert(node_views(nodes@) =~= nodes0 + Seq::<NodeView>::empty());
        assert(edge_views(edges@) =~= edges0 + Seq::<EdgeView>::empty());
    }
}

/// Whether some node is labelled `label`.
pub open spec fn has_label(nodes: Seq<NodeView>, label: Seq<char>) -> bool {
    exists|i: int| 0 <= i < nodes.len() && #[trigger] nodes[i].label == label
}

/// The access that cannot grant a blocked mutation, with an edge to the
/// focus, unless a node already shows that access.
pub open spec fn access_part(
    model: OwnershipModel,
    nodes: Seq<NodeView>,
    problem: Option<OwnershipProblem>,
    phase: Seq<char>,
) -> (Seq<NodeView>, Seq<EdgeView>) {
    if model.mutation_requirement is Some && !has_label(nodes, model.mutation_requirement->0.access_source@) {
        let req = model.mutation_requirement->0;
        let available = spec_readable_available_access(req.available_access@);
        let required = spec_readable_access(req.required_access@);
        (
            seq![
                node_view(
                    "teaching:access-source"@,
                    req.access_source@,
                    req.access_source@,
                    available,
                    req.explanation@,
                    "reference_binding"@,
                    "stack"@,
                    "provides "@ + available + "; cannot grant "@ + required,
                    req.provenance@,
                    TopologyColumn::Local,
                    match problem {
                        Some(p) => Some(p.binding_range),
                        None => None,
                    },
                ),
            ],
            seq![
                edge_view(
                    "teaching-edge:access-source"@,
                    "teaching:access-source"@,
                    "teaching:focus"@,
                    available + " cannot satisfy "@ + required,
                    req.provenance@,
                    phase != "after"@,
                    match problem {
                        Some(p) => Some(p.primary_range),
                        None => None,
                    },
                ),
            ],
        )
    } else {
        (Seq::empty(), Seq::empty())
    }
}

fn any_label(nodes: &Vec<TopologyNode>, label: &str) -> (r: bool)
    ensures
        r == has_label(node_views(nodes@), label@),
{
    let mut i: usize = 0;
    while i < nodes.len()
        invariant
            i <= nodes.len(),
            forall|k: int| 0 <= k < i ==> (#[trigger] node_views(nodes@)[k]).label != label@,
        decreases nodes.len() - i,
    {
        if str_eq(nodes[i].label.as_str(), label) {
            assert(node_views(nodes@)[i as int].label == label@);
            return true;
        }
        i += 1;
    }
    false
}

fn push_access_part(
    nodes: &mut Vec<TopologyNode>,
    edges: &mut Vec<TopologyEdge>,
    model: &OwnershipModel,
    problem: Option<&OwnershipProblem>,
    phase: &str,
)
    ensures
        ({
            let part = access_part(*model, node_views(old(nodes)@), opt_problem(problem), phase@);
            &&& node_views(final(nodes)@) == node_views(old(nodes)@) + part.0
            &&& edge_views(final(edges)@) == edge_views(old(edges)@) + part.1
        }),
{
    let ghost nodes0 = node_views(nodes@);
    let ghost edges0 = edge_views(edges@);
    if let Some(requirement) = &model.mutation_requirement {
        if !any_label(nodes, requirement.access_source.as_str()) {
            let available = readable_available_access(requirement.available_access.as_str());
            let required = readable_access(requirement.required_access.as_str());
            let mut state = concat3("provides ", available, "; cannot grant ");
            state.append(required);
            let label = concat3(available, " cannot satisfy ", required);
            let node = new_node(
                owned("teaching:access-source"),
                requirement.access_source.clone(),
                requirement.access_source.clone(),
                owned(available),
                requirement.explanation.clone(),
                "reference_binding",
                "stack",
                state,
                requirement.provenance.clone(),
                TopologyColumn::Local,
                match problem {
                    Some(p) => Some(p.binding_range),
                    None => None,
                },
            );
            let edge = new_edge(
                owned("teaching-edge:access-source"),
                owned("teaching:access-source"),
                owned("teaching:focus"),
                label,
                requirement.provenance.clone(),
                !str_eq(phase, "after"),
                match problem {
                    Some(p) => Some(p.primary_range),
                    None => None,
                },
            );
            nodes.push(node);
            edges.push(edge);
            assert(node_views(nodes@) =~= nodes0.push(node@));
            assert(edge_views(edges@) =~= edges0.push(edge@));
            return;
        }
    }
    assert(node_views(nodes@) =~= nodes0 + Seq::<NodeView>::empty());
    assert(edge_views(edges@) =~= edges0 + Seq::<EdgeView>::empty());
}

/// What an operation's node says it does: its first effect fact, else its
/// first effect, else why it needs its access.
pub open spec fn effect_text(op: OwnershipOperationInsight) -> Seq<char> {
    if op.effect_facts@.len() > 0 {
        op.effect_facts@[0].summary@
    } else if op.effects@.len() > 0 {
        op.effects@[0]@
    } else {
        op.why_required@
    }
}

pub open spec fn operation_state(phase: Seq<char>) -> Seq<char> {
    if phase == "conflict"@ {
        "operation rejected"@
    } else if phase == "after"@ {
        "operation finished or available afterward"@
    } else {
        "requested operation"@
    }
}

/// The id of the first `Vec` handle node at or after `i`.
pub open spec fn first_vec_wrapper(nodes: Seq<NodeView>, i: int) -> Option<Seq<char>>
    decreases nodes.len() - i,
{
    if i < 0 || i >= nodes.len() {
        None
    } else if nodes[i].kind == "wrapper"@ && starts_with(nodes[i].type_text, "Vec<"@) {
        Some(nodes[i].id)
    } else {
        first_vec_wrapper(nodes, i + 1)
    }
}

/// The node an operation acts on: the first `Vec` handle, else the focus.
pub open spec fn receiver_target(nodes: Seq<NodeView>) -> Seq<char> {
    match first_vec_wrapper(nodes, 0) {
        Some(id) => id,
        None => "teaching:focus"@,
    }
}

/// The operation says it may reallocate.
pub open spec fn mentions_realloc(op: OwnershipOperationInsight) -> bool {
    ||| exists|i: int|
        0 <= i < op.effect_facts@.len() && (#[trigger] op.effect_facts@[i]).kind@ == "allocation"@
            && seq_contains(ascii_lower(op.effect_facts@[i].summary@), "realloc"@)
    ||| exists|j: int|
        0 <= j < op.effects@.len() && seq_contains(ascii_lower((#[trigger] op.effects@[j])@), "realloc"@)
}

/// The explained operation, the edge to what it acts on, and, when it may
/// reallocate, the buffer it could move the elements to.
pub open spec fn operation_part(
    op: Option<OwnershipOperationInsight>,
    nodes: Seq<NodeView>,
    shown: Seq<char>,
    focus: Seq<char>,
    phase: Seq<char>,
) -> (Seq<NodeView>, Seq<EdgeView>) {
    match op {
        None => (Seq::empty(), Seq::empty()),
        Some(o) => {
            let op_node = node_view(
                "teaching:operation"@,
                o.name@,
                o.name@ + "(...) needs "@ + spec_readable_access(o.required_access@),
                o.signature@,
                effect_text(o),
                "operation"@,
                "conceptual"@,
                operation_state(phase),
                o.provenance@,
                TopologyColumn::Local,
                Some(o.range),
            );
            let target = receiver_target(nodes.push(op_node));
            let op_edge = edge_view(
                "teaching-edge:operation:receiver"@,
                "teaching:operation"@,
                target,
                "needs_"@ + o.required_access@,
                o.provenance@,
                phase == "operation"@ || phase == "conflict"@,
                Some(o.range),
            );
            if mentions_realloc(o) {
                let et = argument_or_t(shown);
                (
                    seq![
                        op_node,
                        node_view(
                            "teaching:possible-new-buffer"@,
                            focus,
                            "Heap B · ["@ + et + " 0] […] [new "@ + et + "]"@,
                            "possible replacement ["@ + et + "] buffer"@,
                            "created only if runtime capacity is insufficient; the rejected program never performs this transition"@,
                            "buffer"@,
                            "heap"@,
                            if phase == "conflict"@ {
                                "hypothetical allocation if the rejected push were allowed"@
                            } else {
                                "possible runtime effect, not current storage"@
                            },
                            "conceptual_from_trusted_operation_effect"@,
                            TopologyColumn::Target,
                            Some(o.range),
                        ),
                    ],
                    seq![
                        op_edge,
                        edge_view(
                            "teaching-edge:possible-reallocation"@,
                            target,
                            "teaching:possible-new-buffer"@,
                            "may_reallocate_to"@,
                            "conceptual_from_trusted_operation_effect"@,
                            phase == "conflict"@ || phase == "operation"@,
                            Some(o.range),
                        ),
                    ],
                )
            } else {
                (seq![op_node], seq![op_edge])
            }
        },
    }
}

fn first_vec_wrapper_id(nodes: &Vec<TopologyNode>) -> (r: String)
    ensures
        r@ == receiver_target(node_views(nodes@)),
{
    let ghost nv = node_views(nodes@);
    let mut i: usize = 0;
    while i < nodes.len()
        invariant
            i <= nodes.len(),
            nv == node_views(nodes@),
            first_vec_wrapper(nv, 0) == first_vec_wrapper(nv, i as int),
        decreases nodes.len() - i,
    {
        if str_eq(nodes[i].kind.as_str(), "wrapper") && has_prefix(nodes[i].type_text.as_str(), "Vec<") {
            return nodes[i].id.clone();
        }
        i += 1;
    }
    owned("teaching:focus")
}

fn says_realloc(op: &OwnershipOperationInsight) -> (r: bool)
    ensures
        r == mentions_realloc(*op),
{
    let mut i: usize = 0;
    while i < op.effect_facts.len()
        invariant
            i <= op.effect_facts.len(),
            forall|k: int|
                0 <= k < i ==> !((#[trigger] op.effect_facts@[k]).kind@ == "allocation"@
                    && seq_contains(ascii_lower(op.effect_facts@[k].summary@), "realloc"@)),
        decreases op.effect_facts.len() - i,
    {
        let fact = &op.effect_facts[i];
        if str_eq(fact.kind.as_str(), "allocation") && has_substring(
            ascii_lowercased(fact.summary.as_str()).as_str(),
            "realloc",
        ) {
            assert(op.effect_facts@[i as int].kind@ == "allocation"@);
            return true;
        }
        i += 1;
    }
    let mut j: usize = 0;
    while j < op.effects.len()
        invariant
            j <= op.effects.len(),
            forall|k: int|
                0 <= k < op.effect_facts@.len() ==> !((#[trigger] op.effect_facts@[k]).kind@ == "allocation"@
                    && seq_contains(ascii_lower(op.effect_facts@[k].summary@), "realloc"@)),
            forall|k: int| 0 <= k < j ==> !seq_contains(ascii_lower((#[trigger] op.effects@[k])@), "realloc"@),
        decreases op.effects.len() - j,
    {
        if has_substring(ascii_lowercased(op.effects[j].as_str()).as_str(), "realloc") {
            assert(seq_contains(ascii_lower(op.effects@[j as int]@), "realloc"@));
            return true;
        }
        j += 1;
    }
    false
}

fn push_operation_part(
    nodes: &mut Vec<TopologyNode>,
    edges: &mut Vec<TopologyEdge>,
    op: Option<&OwnershipOperationInsight>,
    shown: &str,
    focus: &String,
    phase: &str,
)
    ensures
        ({
            let part = operation_part(
                match op {
                    Some(o) => Some(*o),
                    None => None,
                },
                node_views(old(nodes)@),
                shown@,
                focus@,
                phase@,
            );
            &&& node_views(final(nodes)@) == node_views(old(nodes)@) + part.0
            &&& edge_views(final(edges)@) == edge_views(old(edges)@) + part.1
        }),
{
    let ghost nodes0 = node_views(nodes@);
    let ghost edges0 = edge_views(edges@);
    match op {
        None => {
            assert(node_views(nodes@) =~= nodes0 + Seq::<NodeView>::empty());
            assert(edge_views(edges@) =~= edges0 + Seq::<EdgeView>::empty());
        },
        Some(operation) => {
            let effect = if operation.effect_facts.len() > 0 {
                operation.effect_facts[0].summary.clone()
            } else if operation.effects.len() > 0 {
                operation.effects[0].clone()
            } else {
                operation.why_required.clone()
            };
            let required = readable_access(operation.required_access.as_str());
            let label = concat3(operation.name.as_str(), "(...) needs ", required);
            let op_node = new_node(
                owned("teaching:operation"),
                operation.name.clone(),
                label,
                operation.signature.clone(),
                effect,
                "operation",
                "conceptual",
                if str_eq(phase, "conflict") {
                    owned("operation rejected")
                } else if str_eq(phase, "after") {
                    owned("operation finished or available afterward")
                } else {
                    owned("requested operation")
                },
                operation.provenance.clone(),
                TopologyColumn::Local,
                Some(operation.range),
            );
            let ghost op_view = op_node@;
            nodes.push(op_node);
            assert(node_views(nodes@) =~= nodes0.push(op_view));
            let target = first_vec_wrapper_id(nodes);
            let op_edge = new_edge(
                owned("teaching-edge:operation:receiver"),
                owned("teaching:operation"),
                target.clone(),
                concat2("needs_", operation.required_access.as_str()),
                operation.provenance.clone(),
                str_eq(phase, "operation") || str_eq(phase, "conflict"),
                Some(operation.range),
            );
            let ghost op_edge_view = op_edge@;
            edges.push(op_edge);
            assert(edge_views(edges@) =~= edges0.push(op_edge_view));
            if says_realloc(operation) {
                let parsed = parse_type(shown);
                let element_type = if parsed.arguments.len() > 0 {
                    parsed.arguments[0].clone()
                } else {
                    owned("T")
                };
                let mut buffer_label = concat3("Heap B · [", element_type.as_str(), " 0] […] [new ");
                buffer_label.append(element_type.as_str());
                buffer_label.append("]");
                let buffer = new_node(
                    owned("teaching:possible-new-buffer"),
                    focus.clone(),
                    buffer_label,
                    concat3("possible replacement [", element_type.as_str(), "] buffer"),
                    owned(
                        "created only if runtime capacity is insufficient; the rejected program never performs this transition",
                    ),
                    "buffer",
                    "heap",
                    if str_eq(phase, "conflict") {
                        owned("hypothetical allocation if the rejected push were allowed")
                    } else {
                        owned("possible runtime effect, not current storage")
                    },
                    owned("conceptual_from_trusted_operation_effect"),
                    TopologyColumn::Target,
                    Some(operation.range),
                );
                let realloc = new_edge(
                    owned("teaching-edge:possible-reallocation"),
                    target,
                    owned("teaching:possible-new-buffer"),
                    owned("may_reallocate_to"),
                    owned("conceptual_from_trusted_operation_effect"),
                    str_eq(phase, "conflict") || str_eq(phase, "operation"),
                    Some(operation.range),
                );
                let ghost bv = buffer@;
                let ghost rv = realloc@;
                nodes.push(buffer);
                edges.push(realloc);
                assert(node_views(nodes@) =~= nodes0 + seq![op_view, bv]);
                assert(edge_views(edges@) =~= edges0 + seq![op_edge_view, rv]);
            } else {
                assert(node_views(nodes@) =~= nodes0 + seq![op_view]);
                assert(edge_views(edges@) =~= edges0 + seq![op_edge_view]);
            }
        },
    }
}

/// Every node and edge the teaching scene may draw, in the order they are
/// made: the focus and its layers, the conflict's roles, the access that
/// cannot grant a blocked mutation, and the explained operation.
pub open spec fn teaching_candidates(
    problem: Option<OwnershipProblem>,
    model: OwnershipModel,
    step: usize,
    focus: Seq<char>,
    shown: Seq<char>,
    family: TeachingDiagramFamily,
    phase: Seq<char>,
    range: Option<Range>,
    op: Option<OwnershipOperationInsight>,
) -> (Seq<NodeView>, Seq<EdgeView>) {
    let layers = teaching_layers(shown, family);
    let n1 = layer_nodes(layers, focus, shown, phase, range);
    let e1 = layer_edges(layers, range);
    let c = conflict_part(model, step, element_target(n1), phase);
    let n2 = n1 + c.0;
    let e2 = e1 + c.1;
    let a = access_part(model, n2, problem, phase);
    let n3 = n2 + a.0;
    let e3 = e2 + a.1;
    let o = operation_part(op, n3, shown, focus, phase);
    (n3 + o.0, e3 + o.1)
}

fn layer_node(l: &TeachingLayer, focus: &String, phase: &str, range: Option<Range>) -> (r: TopologyNode)
    ensures
        r@ == layer_node_view(l@, focus@, phase@, range),
{
    new_node(
        concat2("teaching:", l.id_suffix.as_str()),
        focus.clone(),
        l.label.clone(),
        l.type_text.clone(),
        l.detail.clone(),
        l.kind.as_str(),
        l.storage.as_str(),
        layer_state(l.kind.as_str(), phase),
        l.provenance.clone(),
        topology_column(l.kind.as_str(), l.storage.as_str()),
        range,
    )
}

fn layer_edge(l: &TeachingLayer, range: Option<Range>) -> (r: TopologyEdge)
    ensures
        r@ == layer_edge_view(l@, range),
{
    let id = concat2("teaching:", l.id_suffix.as_str());
    let parent = match &l.parent_suffix {
        Some(ps) => concat2("teaching:", ps.as_str()),
        None => owned("teaching:focus"),
    };
    let mut edge_id = concat3("teaching-edge:", parent.as_str(), ":");
    edge_id.append(id.as_str());
    new_edge(edge_id, parent, id, l.relation.clone(), l.provenance.clone(), true, range)
}

pub open spec fn opt_operation(op: Option<&OwnershipOperationInsight>) -> Option<OwnershipOperationInsight> {
    match op {
        Some(o) => Some(*o),
        None => None,
    }
}

/// Builds every candidate node and edge of the teaching scene.
pub fn build_teaching_candidates(
    problem: Option<&OwnershipProblem>,
    model: &OwnershipModel,
    step: usize,
    focus: &String,
    shown: &String,
    family: TeachingDiagramFamily,
    phase: &str,
    range: Option<Range>,
    op: Option<&OwnershipOperationInsight>,
) -> (r: (Vec<TopologyNode>, Vec<TopologyEdge>))
    ensures
        (node_views(r.0@), edge_views(r.1@)) == teaching_candidates(
            opt_problem(problem),
            *model,
            step,
            focus@,
            shown@,
            family,
            phase@,
            range,
            opt_operation(op),
        ),
{
    let layers = build_teaching_layers(shown.as_str(), family);
    let ghost lv = views(layers@);
    let mut nodes: Vec<TopologyNode> = Vec::new();
    let mut edges: Vec<TopologyEdge> = Vec::new();
    nodes.push(
        new_node(
            owned("teaching:focus"),
            focus.clone(),
            focus.clone(),
            shown.clone(),
            owned("selected value or access path"),
            "projected_place",
            "inline",
            if str_eq(phase, "conflict") {
                owned("alive; requested operation blocked")
            } else {
                owned("available")
            },
            owned("compiler_type"),
            TopologyColumn::Local,
            range,
        ),
    );
    let ghost focus_view = focus_node_view(focus@, shown@, phase@, range);
    assert(node_views(nodes@) =~= seq![focus_view]);
    let mut l: usize = 0;
    assert(lv.take(0) =~= Seq::<LayerView>::empty());
    while l < layers.len()
        invariant
            l <= layers.len(),
            lv == views(layers@),
            node_views(nodes@) == seq![focus_view] + lv.take(l as int).map_values(
                |x: LayerView| layer_node_view(x, focus@, phase@, range),
            ),
            edge_views(edges@) == lv.take(l as int).map_values(|x: LayerView| layer_edge_view(x, range)),
        decreases layers.len() - l,
    {
        let node = layer_node(&layers[l], focus, phase, range);
        let edge = layer_edge(&layers[l], range);
        let ghost nb = node_views(nodes@);
        let ghost eb = edge_views(edges@);
        nodes.push(node);
        edges.push(edge);
        proof {
            assert(lv.take(l + 1) =~= lv.take(l as int).push(lv[l as int]));
            assert(node_views(nodes@) =~= nb.push(node@));
            assert(edge_views(edges@) =~= eb.push(edge@));
            assert(lv.take(l + 1).map_values(|x: LayerView| layer_node_view(x, focus@, phase@, range))
                =~= lv.take(l as int).map_values(|x: LayerView| layer_node_view(x, focus@, phase@, range)).push(
                layer_node_view(lv[l as int], focus@, phase@, range),
            ));
            assert(lv.take(l + 1).map_values(|x: LayerView| layer_edge_view(x, range))
                =~= lv.take(l as int).map_values(|x: LayerView| layer_edge_view(x, range)).push(
                layer_edge_view(lv[l as int], range),
            ));
        }
        l += 1;
    }
    assert(lv.take(layers.len() as int) =~= lv);
    let element = match first_id_with_kind(&nodes, "element") {
        Some(id) => id,
        None => match first_id_with_kind(&nodes, "buffer") {
            Some(id) => id,
            None => owned("teaching:focus"),
        },
    };
    push_conflict_part(&mut nodes, &mut edges, model, step, &element, phase);
    push_access_part(&mut nodes, &mut edges, model, problem, phase);
    push_operation_part(&mut nodes, &mut edges, op, shown.as_str(), focus, phase);
    (nodes, edges)
}

} // verus!
