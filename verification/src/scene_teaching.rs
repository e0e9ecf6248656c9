//! The teaching scene: the focused place expanded into the storage layers
//! of its type, joined by the conflict's roles, the access a blocked
//! mutation has, and the explained operation with what it may allocate.
use vstd::prelude::*;

use crate::keyed::{first_of_its_key, is_first_occurrence, sorted_by_key_first};
use crate::panel::{readable_access, spec_readable_access};
use crate::protocol::{OwnershipModel, OwnershipOperationInsight, OwnershipProblem};
use crate::scene_graph::{
    at_most, derive_ownership_topology_scene_with_limits, first_edges_sorted, graph_scene_for,
    has_graph,
    lemma_sorted_firsts_views_e,
};
use crate::scene_layout::{layout_topology_scene, placed_node, routed_edge, spec_row_y};
use crate::scene_walk::{id_texts, name_texts, semantic_node_order, spec_roots, walk_result};
use crate::teaching::{
    opt_problem, selected_phase_kind, selected_teaching_operation, spec_phase_kind,
    spec_teaching_family, spec_teaching_focus, spec_teaching_moments, spec_teaching_operation,
    spec_teaching_summary, spec_teaching_title, teaching_diagram_family, teaching_focus,
    teaching_moments, teaching_op, teaching_scene_summary, teaching_title, problem_category,
    TeachingDiagramFamily,
};
use crate::text::{
    concat3, has_substring, has_suffix, lemma_seq_lt_total, lemma_seq_lt_transitive, owned,
    seq_contains, seq_lt, ends_with, str_eq, str_lt,
};
use crate::topology::{
    edge_views, moment_views, node_views, EdgeView, NodeView, OwnershipTopologyScene,
    TopologyEdge, TopologyNode,
};
use crate::teaching_parts::{build_teaching_candidates, teaching_candidates};

verus! {

/// Where a node of the teaching scene is listed: owners, the focus,
/// wrappers, gates, real allocations, elements, other bindings, the
/// operation, conceptual layers, anything else.
pub open spec fn teaching_priority(n: NodeView) -> int {
    let k = n.kind;
    let conceptual = seq_contains(n.provenance, "conceptual"@);
    if k == "binding"@ && ends_with(n.id, ":owner"@) {
        0
    } else if k == "projected_place"@ {
        1
    } else if k == "handle"@ || k == "wrapper"@ {
        2
    } else if k == "borrow_flag"@ || k == "lock_state"@ || k == "gate"@ || k == "metadata"@ {
        3
    } else if (k == "heap_allocation"@ || k == "control_block"@ || k == "buffer"@) && !conceptual {
        4
    } else if k == "element"@ || k == "inline_value"@ || k == "borrowed_view"@ {
        5
    } else if k == "reference_binding"@ || k == "binding"@ {
        6
    } else if k == "operation"@ {
        7
    } else if conceptual {
        8
    } else {
        9
    }
}

fn node_priority(n: &TopologyNode) -> (r: u8)
    ensures
        r as int == teaching_priority(n@),
{
    let k = n.kind.as_str();
    let conceptual = has_substring(n.provenance.as_str(), "conceptual");
    if str_eq(k, "binding") && has_suffix(n.id.as_str(), ":owner") {
        0
    } else if str_eq(k, "projected_place") {
        1
    } else if str_eq(k, "handle") || str_eq(k, "wrapper") {
        2
    } else if str_eq(k, "borrow_flag") || str_eq(k, "lock_state") || str_eq(k, "gate") || str_eq(
        k,
        "metadata",
    ) {
        3
    } else if (str_eq(k, "heap_allocation") || str_eq(k, "control_block") || str_eq(k, "buffer"))
        && !conceptual {
        4
    } else if str_eq(k, "element") || str_eq(k, "inline_value") || str_eq(k, "borrowed_view") {
        5
    } else if str_eq(k, "reference_binding") || str_eq(k, "binding") {
        6
    } else if str_eq(k, "operation") {
        7
    } else if conceptual {
        8
    } else {
        9
    }
}

/// `v` is one of the nodes in `nodes`.
pub open spec fn node_in(nodes: Seq<NodeView>, v: NodeView) -> bool {
    exists|k: int| 0 <= k < nodes.len() && #[trigger] nodes[k] == v
}

/// `e` is one of the edges in `edges`.
pub open spec fn edge_in(edges: Seq<EdgeView>, e: EdgeView) -> bool {
    exists|k: int| 0 <= k < edges.len() && #[trigger] edges[k] == e
}

/// The node `n` is one of the candidates, placed on row `row`.
pub open spec fn placed_candidate_node(cands: Seq<NodeView>, n: NodeView, row: int) -> bool {
    exists|k: int| 0 <= k < cands.len() && n == placed_node(#[trigger] cands[k], row)
}

/// The edge `e` is one of the candidates, routed between `nodes`.
pub open spec fn routed_candidate_edge(cands: Seq<EdgeView>, e: EdgeView, nodes: Seq<NodeView>) -> bool {
    exists|k: int| 0 <= k < cands.len() && e == routed_edge(#[trigger] cands[k], nodes)
}

/// The listing order of the teaching scene: by priority, then by id.
pub open spec fn teaching_le(a: NodeView, b: NodeView) -> bool {
    let pa = teaching_priority(a);
    let pb = teaching_priority(b);
    pa < pb || (pa == pb && !seq_lt(b.id, a.id))
}

/// `x` put into `s` just before the first node it may come before.
pub open spec fn teaching_insert(s: Seq<NodeView>, x: NodeView) -> Seq<NodeView>
    decreases s.len(),
{
    if s.len() == 0 {
        seq![x]
    } else if teaching_le(x, s[0]) {
        seq![x] + s
    } else {
        seq![s[0]] + teaching_insert(s.drop_first(), x)
    }
}

/// The nodes in listing order; nodes that tie keep their order.
pub open spec fn teaching_order(s: Seq<NodeView>) -> Seq<NodeView>
    decreases s.len(),
{
    if s.len() == 0 {
        Seq::empty()
    } else {
        teaching_insert(teaching_order(s.drop_first()), s[0])
    }
}

/// `s` without each node whose id is the id of the node kept just before it.
pub open spec fn drop_repeated_ids(s: Seq<NodeView>) -> Seq<NodeView>
    decreases s.len(),
{
    if s.len() == 0 {
        Seq::empty()
    } else {
        let kept = drop_repeated_ids(s.drop_last());
        if kept.len() > 0 && kept.last().id == s.last().id {
            kept
        } else {
            kept.push(s.last())
        }
    }
}

proof fn lemma_teaching_insert(s: Seq<NodeView>, pos: int, x: NodeView)
    requires
        0 <= pos <= s.len(),
        forall|c: int| 0 <= c < pos ==> !teaching_le(x, #[trigger] s[c]),
        pos < s.len() ==> teaching_le(x, s[pos]),
    ensures
        s.insert(pos, x) == teaching_insert(s, x),
    decreases s.len(),
{
    if s.len() == 0 {
        assert(s.insert(pos, x) =~= seq![x]);
    } else if pos == 0 {
        assert(s.insert(pos, x) =~= seq![x] + s);
    } else {
        assert(!teaching_le(x, s[0]));
        let t = s.drop_first();
        assert forall|c: int| 0 <= c < pos - 1 implies !teaching_le(x, #[trigger] t[c]) by {
            assert(t[c] == s[c + 1]);
        }
        lemma_teaching_insert(t, pos - 1, x);
        assert(s.insert(pos, x) =~= seq![s[0]] + t.insert(pos - 1, x));
    }
}

proof fn lemma_teaching_le_transitive(a: NodeView, b: NodeView, c: NodeView)
    requires
        teaching_le(a, b),
        teaching_le(b, c),
    ensures
        teaching_le(a, c),
{
    if teaching_priority(a) == teaching_priority(c) {
        lemma_seq_lt_total(a.id, b.id);
        lemma_seq_lt_total(b.id, c.id);
        lemma_seq_lt_total(a.id, c.id);
        if seq_lt(c.id, a.id) {
            if a.id != b.id && b.id != c.id {
                lemma_seq_lt_transitive(a.id, b.id, c.id);
            }
        }
    }
}

fn node_before(a: &TopologyNode, b: &TopologyNode) -> (r: bool)
    ensures
        r == !teaching_le(b@, a@),
{
    let pa = node_priority(a);
    let pb = node_priority(b);
    if pa != pb {
        pa < pb
    } else {
        str_lt(a.id.as_str(), b.id.as_str())
    }
}

/// The nodes in listing order; nodes that tie keep their order.
fn sort_teaching_nodes(nodes: Vec<TopologyNode>) -> (r: Vec<TopologyNode>)
    ensures
        r.len() == nodes.len(),
        forall|a: int, b: int| 0 <= a < b < r.len() ==> teaching_le(#[trigger] r@[a]@, #[trigger] r@[b]@),
        forall|o: int| 0 <= o < r.len() ==> node_in(node_views(nodes@), #[trigger] r@[o]@),
        node_views(r@) == teaching_order(node_views(nodes@)),
{
    let ghost input = node_views(nodes@);
    let mut rest = nodes;
    let mut out: Vec<TopologyNode> = Vec::new();
    let ghost total = rest.len();
    assert(node_views(out@) =~= teaching_order(input.skip(total as int)));
    while rest.len() > 0
        invariant
            out.len() + rest.len() == total,
            total == input.len(),
            node_views(rest@) == input.take(rest.len() as int),
            node_views(out@) == teaching_order(input.skip(rest.len() as int)),
            forall|o: int| 0 <= o < out.len() ==> node_in(input, #[trigger] out@[o]@),
            forall|a: int, b: int| 0 <= a < b < out.len() ==> teaching_le(#[trigger] out@[a]@, #[trigger] out@[b]@),
        decreases rest.len(),
    {
        let ghost l = rest.len() as int;
        let x = rest.pop().unwrap();
        proof {
            assert(input.take(l)[l - 1] == x@);
            assert(input[l - 1] == x@);
            assert(node_views(rest@) =~= input.take(l - 1));
        }
        let mut pos: usize = 0;
        while pos < out.len() && node_before(&out[pos], &x)
            invariant
                pos <= out.len(),
                forall|c: int| 0 <= c < pos ==> teaching_le(#[trigger] out@[c]@, x@),
                forall|c: int| 0 <= c < pos ==> !teaching_le(x@, #[trigger] out@[c]@),
            decreases out.len() - pos,
        {
            proof {
                lemma_seq_lt_total(x@.id, out@[pos as int]@.id);
            }
            pos += 1;
        }
        let ghost before = out@;
        proof {
            let bv = node_views(before);
            assert forall|c: int| 0 <= c < pos implies !teaching_le(x@, #[trigger] bv[c]) by {
                assert(bv[c] == before[c]@);
            }
            if pos < out.len() {
                lemma_seq_lt_total(x@.id, out@[pos as int]@.id);
                assert(bv[pos as int] == before[pos as int]@);
            }
            lemma_teaching_insert(bv, pos as int, x@);
            assert(input.skip(l - 1).drop_first() =~= input.skip(l));
            assert(input.skip(l - 1)[0] == x@);
        }
        out.insert(pos, x);
        proof {
            assert(node_views(out@) =~= node_views(before).insert(pos as int, x@));
            assert forall|a: int, b: int| 0 <= a < b < out.len() implies teaching_le(
                #[trigger] out@[a]@,
                #[trigger] out@[b]@,
            ) by {
                if b < pos {
                    assert(out@[a] == before[a] && out@[b] == before[b]);
                } else if b == pos {
                    assert(out@[a] == before[a]);
                } else if a < pos {
                    assert(out@[a] == before[a] && out@[b] == before[b - 1]);
                    lemma_teaching_le_transitive(before[a]@, x@, before[pos as int]@);
                    if b - 1 > pos {
                        lemma_teaching_le_transitive(before[a]@, before[pos as int]@, before[b - 1]@);
                    }
                } else if a == pos {
                    assert(out@[b] == before[b - 1]);
                    if b - 1 > pos {
                        lemma_teaching_le_transitive(x@, before[pos as int]@, before[b - 1]@);
                    }
                } else {
                    assert(out@[a] == before[a - 1] && out@[b] == before[b - 1]);
                }
            }
            assert forall|o: int| 0 <= o < out.len() implies node_in(input, #[trigger] out@[o]@) by {
                if o < pos {
                    assert(out@[o] == before[o]);
                } else if o == pos {
                    assert(input[l - 1] == out@[o]@);
                } else {
                    assert(out@[o] == before[o - 1]);
                }
            }
        }
    }
    assert(input.skip(0) =~= input);
    out
}

/// Drops each node whose id is the id of the node kept just before it.
fn dedup_adjacent_ids(nodes: Vec<TopologyNode>) -> (r: Vec<TopologyNode>)
    ensures
        r.len() <= nodes.len(),
        (forall|a: int, b: int| 0 <= a < b < nodes.len() ==> teaching_le(#[trigger] nodes@[a]@, #[trigger] nodes@[b]@))
            ==> (forall|a: int, b: int| 0 <= a < b < r.len() ==> teaching_le(#[trigger] r@[a]@, #[trigger] r@[b]@)),
        forall|o: int| 0 <= o < r.len() ==> node_in(node_views(nodes@), #[trigger] r@[o]@),
        node_views(r@) == drop_repeated_ids(node_views(nodes@)),
{
    let ghost input = nodes@;
    let ghost iv = node_views(nodes@);
    let mut rest = nodes;
    let mut reversed: Vec<TopologyNode> = Vec::new();
    while rest.len() > 0
        invariant
            rest.len() + reversed.len() == input.len(),
            rest@ == input.take(rest.len() as int),
            reversed@ =~= input.skip(rest.len() as int).reverse(),
        decreases rest.len(),
    {
        let ghost l = rest.len() as int;
        let x = rest.pop().unwrap();
        reversed.push(x);
        proof {
            assert(input.skip(l - 1) =~= seq![x] + input.skip(l));
            assert(input.skip(l - 1).reverse() =~= input.skip(l).reverse().push(x));
            assert(rest@ =~= input.take(l - 1));
        }
    }
    assert(input.skip(0) =~= input);
    let mut out: Vec<TopologyNode> = Vec::new();
    let ghost mut src: Seq<int> = Seq::empty();
    assert(node_views(out@) =~= drop_repeated_ids(iv.take(0)));
    while reversed.len() > 0
        invariant
            iv == node_views(input),
            node_views(out@) == drop_repeated_ids(iv.take(input.len() - reversed.len())),
            reversed@ =~= input.reverse().take(reversed.len() as int),
            reversed.len() <= input.len(),
            out.len() <= input.len() - reversed.len(),
            src.len() == out.len(),
            forall|o: int| 0 <= o < out.len() ==> 0 <= #[trigger] src[o] < input.len() - reversed.len() && out@[o] == input[src[o]],
            forall|a: int, b: int| 0 <= a < b < out.len() ==> #[trigger] src[a] < #[trigger] src[b],
        decreases reversed.len(),
    {
        let ghost i = input.len() - reversed.len();
        let x = reversed.pop().unwrap();
        proof {
            assert(input.reverse().take((reversed.len() + 1) as int).last() == x);
            assert(x == input[i]);
        }
        let ghost out_before = node_views(out@);
        proof {
            assert(iv.take(i + 1).drop_last() =~= iv.take(i));
            assert(iv.take(i + 1).last() == x@);
            if out.len() > 0 {
                assert(out_before.last() == out@[out.len() - 1]@);
            }
        }
        let keep = if out.len() == 0 {
            true
        } else {
            !str_eq(out[out.len() - 1].id.as_str(), x.id.as_str())
        };
        if keep {
            out.push(x);
            proof {
                src = src.push(i);
                assert(node_views(out@) =~= out_before.push(x@));
            }
        }
    }
    assert(iv.take(iv.len() as int) =~= iv);
    proof {
        assert forall|o: int| 0 <= o < out.len() implies node_in(node_views(input), #[trigger] out@[o]@) by {
            assert(node_views(input)[src[o]] == out@[o]@);
        }
        if forall|a: int, b: int| 0 <= a < b < input.len() ==> teaching_le(#[trigger] input[a]@, #[trigger] input[b]@) {
            assert forall|a: int, b: int| 0 <= a < b < out.len() implies teaching_le(#[trigger] out@[a]@, #[trigger] out@[b]@) by {
                assert(src[a] < src[b]);
                assert(teaching_le(input[src[a]]@, input[src[b]]@));
            }
        }
    }
    out
}

fn contains_id_text(ids: &Vec<String>, id: &str) -> (r: bool)
    ensures
        r == id_texts(ids@).contains(id@),
{
    let mut i: usize = 0;
    while i < ids.len()
        invariant
            i <= ids.len(),
            forall|k: int| 0 <= k < i ==> id_texts(ids@)[k] != id@,
        decreases ids.len() - i,
    {
        if str_eq(ids[i].as_str(), id) {
            assert(id_texts(ids@)[i as int] == id@);
            return true;
        }
        i += 1;
    }
    false
}

/// Filtering a prefix gives a prefix of the filtered whole.
proof fn lemma_filter_take_prefix<A>(s: Seq<A>, p: spec_fn(A) -> bool, e: int)
    requires
        0 <= e <= s.len(),
    ensures
        s.take(e).filter(p).len() <= s.filter(p).len(),
        s.filter(p).take(s.take(e).filter(p).len() as int) == s.take(e).filter(p),
    decreases s.len(),
{
    reveal(Seq::filter);
    if e == s.len() {
        assert(s.take(e) =~= s);
        assert(s.filter(p).take(s.filter(p).len() as int) =~= s.filter(p));
    } else {
        let s2 = s.drop_last();
        assert(s.take(e) =~= s2.take(e));
        lemma_filter_take_prefix(s2, p, e);
        let l = s2.take(e).filter(p).len() as int;
        if p(s.last()) {
            assert(s.filter(p) == s2.filter(p).push(s.last()));
            assert(s.filter(p).take(l) =~= s2.filter(p).take(l));
        } else {
            assert(s.filter(p) == s2.filter(p));
        }
    }
}

/// The teaching scene keeps, in listing order and at most twelve, the
/// candidate nodes the walk from the focused place keeps, and, up to twenty,
/// the edges between them in id order.
pub open spec fn teaching_kept(
    cands: Seq<NodeView>,
    cand_edges: Seq<EdgeView>,
    focus: Seq<char>,
    nodes: Seq<NodeView>,
    edges: Seq<EdgeView>,
) -> bool {
    let ns = drop_repeated_ids(teaching_order(cands));
    exists|es: Seq<EdgeView>, w: Seq<Seq<char>>|
        #[trigger] first_edges_sorted(cand_edges, es) && #[trigger] walk_result(
            es,
            12,
            spec_roots(ns, seq![focus]),
            w,
        ) && {
            let kept = ns.filter(|v: NodeView| w.contains(v.id));
            let between = at_most(
                es.filter(|e: EdgeView| w.contains(e.source) && w.contains(e.target)),
                20,
            );
            &&& nodes.len() == kept.len()
            &&& forall|i: int| 0 <= i < nodes.len() ==> nodes[i] == placed_node(#[trigger] kept[i], i)
            &&& edges.len() == between.len()
            &&& forall|j: int| 0 <= j < edges.len() ==> edges[j] == routed_edge(#[trigger] between[j], nodes)
        }
}

/// The type the teaching scene shows: the focused type, or for an async or
/// closure problem without a resolved type, the compiler-generated value.
pub open spec fn shown_type(family: TeachingDiagramFamily, type_text: Seq<char>) -> Seq<char> {
    if type_text == "value of unresolved type"@ {
        match family {
            TeachingDiagramFamily::Async => "generated Future state machine"@,
            TeachingDiagramFamily::Closure => "compiler-generated closure environment"@,
            _ => type_text,
        }
    } else {
        type_text
    }
}

/// The lines under the teaching scene: the shown type, and the explained
/// operation's contract.
pub open spec fn teaching_access_lines(shown: Seq<char>, op: Option<OwnershipOperationInsight>) -> Seq<Seq<char>> {
    let first = seq!["Selected type: `"@ + shown + "`"@];
    match op {
        Some(o) => first.push(
            "Call contract: `"@ + o.name@ + "` requires "@ + spec_readable_access(o.required_access@),
        ),
        None => first,
    }
}

/// There is a teaching scene when there is a focused place, unless there is
/// neither a problem nor an operation to explain while the memory graph has
/// nodes of its own.
pub open spec fn has_teaching_scene(problem: Option<OwnershipProblem>, model: OwnershipModel) -> bool {
    spec_teaching_focus(problem, model) is Some && !(problem is None && spec_teaching_operation(
        problem,
        model,
    ) is None && model.memory_graph.nodes@.len() > 0)
}

/// What the teaching scene for the focused place is: its title, summary,
/// moments, clamped step and access lines, and nodes and edges drawn from
/// the teaching candidates, ordered by teaching priority and laid out row by row.
pub open spec fn teaching_scene_for(
    p: Option<OwnershipProblem>,
    model: OwnershipModel,
    selected_step: usize,
    scene: OwnershipTopologyScene,
) -> bool {
    let focus = spec_teaching_focus(p, model)->0;
    let family = spec_teaching_family(problem_category(p), focus.1);
    let shown = shown_type(family, focus.1);
    let moments = spec_teaching_moments(p, model, family, focus.0, focus.2);
    &&& scene.title@ == spec_teaching_title(family, focus.0)
    &&& scene.summary@ == spec_teaching_summary(family, p, teaching_op(p, model), shown)
    &&& moment_views(scene.moments@) == moments
    &&& scene.selected_step == (if moments.len() == 0 {
        0
    } else if selected_step < moments.len() - 1 {
        selected_step as int
    } else {
        moments.len() - 1
    })
    &&& id_texts(scene.access_lines@) == teaching_access_lines(shown, teaching_op(p, model))
    &&& !scene.expanded && !scene.truncated && !scene.legacy_limited
    &&& scene.edges.len() <= 20
    &&& forall|i: int|
        0 <= i < scene.nodes.len() ==> #[trigger] placed_candidate_node(
            teaching_candidates(
                p,
                model,
                scene.selected_step,
                focus.0,
                shown,
                family,
                spec_phase_kind(moments, scene.selected_step),
                focus.2,
                teaching_op(p, model),
            ).0,
            scene.nodes@[i]@,
            i,
        )
    &&& forall|j: int|
        0 <= j < scene.edges.len() ==> #[trigger] routed_candidate_edge(
            teaching_candidates(
                p,
                model,
                scene.selected_step,
                focus.0,
                shown,
                family,
                spec_phase_kind(moments, scene.selected_step),
                focus.2,
                teaching_op(p, model),
            ).1,
            scene.edges@[j]@,
            node_views(scene.nodes@),
        )
    &&& teaching_kept(
        teaching_candidates(
            p,
            model,
            scene.selected_step,
            focus.0,
            shown,
            family,
            spec_phase_kind(moments, scene.selected_step),
            focus.2,
            teaching_op(p, model),
        ).0,
        teaching_candidates(
            p,
            model,
            scene.selected_step,
            focus.0,
            shown,
            family,
            spec_phase_kind(moments, scene.selected_step),
            focus.2,
            teaching_op(p, model),
        ).1,
        focus.0,
        node_views(scene.nodes@),
        edge_views(scene.edges@),
    )
    &&& forall|a: int, b: int|
        0 <= a < b < scene.nodes.len() ==> teaching_le(
            #[trigger] scene.nodes@[a]@,
            #[trigger] scene.nodes@[b]@,
        )
    &&& forall|i: int|
        0 <= i < scene.nodes.len() ==> (#[trigger] scene.nodes@[i]@).rect
            == crate::scene_layout::spec_node_rect(scene.nodes@[i]@.column, i)
    &&& scene.canvas_height == spec_row_y(
        if scene.nodes.len() > 1 {
            scene.nodes.len() as int
        } else {
            1
        },
    )
}

/// The teaching scene for the focused place at `selected_step`: the focus,
/// the storage layers of its type, the conflict's roles, the access a
/// blocked mutation has and the explained operation, listed by priority and
/// id, kept to the twelve nodes nearest the focus and twenty edges, and laid
/// out on the canvas.
#[verifier::rlimit(60)]
pub fn derive_teaching_topology_scene(
    problem: Option<&OwnershipProblem>,
    model: &OwnershipModel,
    selected_step: usize,
) -> (r: Option<OwnershipTopologyScene>)
    ensures
        r is Some <==> has_teaching_scene(opt_problem(problem), *model),
        r matches Some(scene) ==> teaching_scene_for(opt_problem(problem), *model, selected_step, scene),
{
    let (focus, type_text, focus_range) = match teaching_focus(problem, model) {
        Some(f) => f,
        None => {
            return None;
        },
    };
    let op_index = selected_teaching_operation(problem, model);
    if problem.is_none() && op_index.is_none() && model.memory_graph.nodes.len() > 0 {
        return None;
    }
    let family = teaching_diagram_family(problem, type_text.as_str());
    let shown = if str_eq(type_text.as_str(), "value of unresolved type") {
        match family {
            TeachingDiagramFamily::Async => owned("generated Future state machine"),
            TeachingDiagramFamily::Closure => owned("compiler-generated closure environment"),
            _ => type_text.clone(),
        }
    } else {
        type_text.clone()
    };
    let moments = teaching_moments(problem, model, family, focus.as_str(), focus_range);
    let last_step: usize = if moments.len() > 0 {
        moments.len() - 1
    } else {
        0
    };
    let step = if selected_step < last_step {
        selected_step
    } else {
        last_step
    };
    let phase = selected_phase_kind(&moments, step);
    let operation_ref = match op_index {
        Some(i) => Some(&model.operations[i]),
        None => None,
    };
    let (nodes, edges) = build_teaching_candidates(
        problem,
        model,
        step,
        &focus,
        &shown,
        family,
        phase,
        focus_range,
        operation_ref,
    );
    let ghost cand_nodes = node_views(nodes@);
    let ghost cand_edges = edge_views(edges@);
    let sorted = sort_teaching_nodes(nodes);
    let ghost sorted_views = node_views(sorted@);
    let nodes = dedup_adjacent_ids(sorted);
    proof {
        assert forall|o: int| 0 <= o < nodes.len() implies node_in(cand_nodes, #[trigger] nodes@[o]@) by {
            assert(node_in(sorted_views, nodes@[o]@));
            let k = choose|k: int| 0 <= k < sorted_views.len() && #[trigger] sorted_views[k] == nodes@[o]@;
            assert(node_in(cand_nodes, sorted@[k]@));
        }
    }
    let ghost edges_in = edges@;
    let edges = sorted_by_key_first(edges);
    proof {
        assert forall|o: int| 0 <= o < edges.len() implies edge_in(cand_edges, #[trigger] edges@[o]@) by {
            assert(first_of_its_key(edges_in, edges@[o]));
            let i = choose|i: int| 0 <= i < edges_in.len() && edges_in[i] == edges@[o] && #[trigger] is_first_occurrence(edges_in, i);
            assert(cand_edges[i] == edges@[o]@);
        }
    }
    let ghost ns = node_views(nodes@);
    let ghost es = edge_views(edges@);
    proof {
        assert(ns == drop_repeated_ids(teaching_order(cand_nodes)));
        lemma_sorted_firsts_views_e(edges_in, edges@);
        assert(edge_views(edges_in) == cand_edges);
    }
    let mut names: Vec<&str> = Vec::new();
    names.push(focus.as_str());
    assert(name_texts(names@) =~= seq![focus@]);
    let retained = semantic_node_order(&nodes, &edges, names.as_slice(), 12);
    let ghost w = id_texts(retained@);
    let mut kept_nodes: Vec<TopologyNode> = Vec::new();
    let ghost mut src: Seq<int> = Seq::empty();
    let mut n: usize = 0;
    proof {
        reveal(Seq::filter);
        assert(ns.take(0).filter(|v: NodeView| w.contains(v.id)) =~= Seq::<NodeView>::empty());
        assert(node_views(kept_nodes@) =~= Seq::<NodeView>::empty());
    }
    while n < nodes.len()
        invariant
            n <= nodes.len(),
            ns == node_views(nodes@),
            w == id_texts(retained@),
            node_views(kept_nodes@) == ns.take(n as int).filter(|v: NodeView| w.contains(v.id)),
            src.len() == kept_nodes.len(),
            forall|o: int| 0 <= o < kept_nodes.len() ==> 0 <= #[trigger] src[o] < n && kept_nodes@[o]@ == nodes@[src[o]]@,
            forall|a: int, b: int| 0 <= a < b < kept_nodes.len() ==> #[trigger] src[a] < #[trigger] src[b],
            forall|o: int| 0 <= o < nodes.len() ==> node_in(cand_nodes, #[trigger] nodes@[o]@),
        decreases nodes.len() - n,
    {
        let ghost kept_before = node_views(kept_nodes@);
        proof {
            reveal(Seq::filter);
            assert(ns.take(n + 1).drop_last() =~= ns.take(n as int));
            assert(ns.take(n + 1).last() == nodes@[n as int]@);
        }
        if contains_id_text(&retained, nodes[n].id.as_str()) {
            kept_nodes.push(nodes[n].clone());
            proof {
                src = src.push(n as int);
                assert(node_views(kept_nodes@) =~= kept_before.push(nodes@[n as int]@));
            }
        }
        n += 1;
    }
    assert(ns.take(nodes.len() as int) =~= ns);
    proof {
        assert forall|a: int, b: int| 0 <= a < b < kept_nodes.len() implies teaching_le(
            #[trigger] kept_nodes@[a]@,
            #[trigger] kept_nodes@[b]@,
        ) by {
            assert(src[a] < src[b]);
            assert(teaching_le(nodes@[src[a]]@, nodes@[src[b]]@));
        }
    }
    let mut kept_edges: Vec<TopologyEdge> = Vec::new();
    let mut e: usize = 0;
    let ghost between_all = es.filter(|x: EdgeView| w.contains(x.source) && w.contains(x.target));
    proof {
        reveal(Seq::filter);
        assert(es.take(0).filter(|x: EdgeView| w.contains(x.source) && w.contains(x.target)) =~= Seq::<EdgeView>::empty());
        assert(edge_views(kept_edges@) =~= Seq::<EdgeView>::empty());
    }
    while e < edges.len() && kept_edges.len() < 20
        invariant
            e <= edges.len(),
            kept_edges.len() <= 20,
            es == edge_views(edges@),
            w == id_texts(retained@),
            edge_views(kept_edges@) == es.take(e as int).filter(
                |x: EdgeView| w.contains(x.source) && w.contains(x.target),
            ),
            forall|o: int| 0 <= o < edges.len() ==> edge_in(cand_edges, #[trigger] edges@[o]@),
            forall|o: int| 0 <= o < kept_edges.len() ==> edge_in(cand_edges, #[trigger] kept_edges@[o]@),
        decreases edges.len() - e,
    {
        let ghost kept_before = edge_views(kept_edges@);
        proof {
            reveal(Seq::filter);
            assert(es.take(e + 1).drop_last() =~= es.take(e as int));
            assert(es.take(e + 1).last() == edges@[e as int]@);
        }
        if contains_id_text(&retained, edges[e].source.as_str()) && contains_id_text(
            &retained,
            edges[e].target.as_str(),
        ) {
            kept_edges.push(edges[e].clone());
            proof {
                assert(edge_views(kept_edges@) =~= kept_before.push(edges@[e as int]@));
            }
        }
        e += 1;
    }
    proof {
        let pred = |x: EdgeView| w.contains(x.source) && w.contains(x.target);
        lemma_filter_take_prefix(es, pred, e as int);
        if e == edges.len() {
            assert(es.take(e as int) =~= es);
        } else {
            assert(kept_edges.len() == 20);
        }
        assert(edge_views(kept_edges@) == at_most(between_all, 20));
    }
    let ghost before_layout = node_views(kept_nodes@);
    let ghost edges_before_layout = edge_views(kept_edges@);
    let canvas_height = layout_topology_scene(&mut kept_nodes, &mut kept_edges);
    proof {
        assert forall|i: int| 0 <= i < kept_nodes.len() implies #[trigger] placed_candidate_node(
            cand_nodes,
            kept_nodes@[i]@,
            i,
        ) by {
            assert(node_views(kept_nodes@)[i] == placed_node(before_layout[i], i));
            assert(before_layout[i] == nodes@[src[i]]@);
            assert(node_in(cand_nodes, nodes@[src[i]]@));
            let k = choose|k: int| 0 <= k < cand_nodes.len() && #[trigger] cand_nodes[k] == nodes@[src[i]]@;
            assert(cand_nodes[k] == before_layout[i]);
        }
        assert forall|j: int| 0 <= j < kept_edges.len() implies #[trigger] routed_candidate_edge(
            cand_edges,
            kept_edges@[j]@,
            node_views(kept_nodes@),
        ) by {
            assert(edge_views(kept_edges@)[j] == routed_edge(edges_before_layout[j], before_layout));
            crate::scene_layout::lemma_routed_edge_ignores_rects(
                edges_before_layout[j],
                before_layout,
                node_views(kept_nodes@),
            );
            assert(edge_in(cand_edges, edges_before_layout[j]));
            let k = choose|k: int| 0 <= k < cand_edges.len() && #[trigger] cand_edges[k] == edges_before_layout[j];
            assert(cand_edges[k] == edges_before_layout[j]);
        }
    }
    proof {
        assert forall|a: int, b: int| 0 <= a < b < kept_nodes.len() implies teaching_le(
            #[trigger] kept_nodes@[a]@,
            #[trigger] kept_nodes@[b]@,
        ) by {
            assert(node_views(kept_nodes@)[a] == placed_node(before_layout[a], a));
            assert(node_views(kept_nodes@)[b] == placed_node(before_layout[b], b));
        }
        assert forall|i: int| 0 <= i < kept_nodes.len() implies (#[trigger] kept_nodes@[i]@).rect
            == crate::scene_layout::spec_node_rect(kept_nodes@[i]@.column, i) by {
            assert(node_views(kept_nodes@)[i] == placed_node(before_layout[i], i));
        }
        let kept = ns.filter(|v: NodeView| w.contains(v.id));
        let between = at_most(between_all, 20);
        assert forall|i: int| 0 <= i < kept_nodes.len() implies node_views(kept_nodes@)[i] == placed_node(
            #[trigger] kept[i],
            i,
        ) by {
            assert(node_views(kept_nodes@)[i] == placed_node(before_layout[i], i));
        }
        assert forall|k2: int| 0 <= k2 < before_layout.len() implies #[trigger] node_views(kept_nodes@)[k2].id
            == before_layout[k2].id && node_views(kept_nodes@)[k2].column == before_layout[k2].column by {
            assert(node_views(kept_nodes@)[k2] == placed_node(before_layout[k2], k2));
        }
        assert forall|j: int| 0 <= j < kept_edges.len() implies edge_views(kept_edges@)[j] == routed_edge(
            #[trigger] between[j],
            node_views(kept_nodes@),
        ) by {
            assert(edge_views(kept_edges@)[j] == routed_edge(edges_before_layout[j], before_layout));
            crate::scene_layout::lemma_routed_edge_ignores_rects(
                edges_before_layout[j],
                before_layout,
                node_views(kept_nodes@),
            );
        }
        assert(first_edges_sorted(cand_edges, es));
        assert(walk_result(es, 12, spec_roots(ns, seq![focus@]), w));
        assert(teaching_kept(cand_nodes, cand_edges, focus@, node_views(kept_nodes@), edge_views(kept_edges@)));
    }
    let mut access_lines: Vec<String> = Vec::new();
    access_lines.push(concat3("Selected type: `", shown.as_str(), "`"));
    if let Some(i) = op_index {
        let operation = &model.operations[i];
        let mut line = concat3("Call contract: `", operation.name.as_str(), "` requires ");
        line.append(readable_access(operation.required_access.as_str()));
        access_lines.push(line);
    }
    let operation = match op_index {
        Some(i) => Some(&model.operations[i]),
        None => None,
    };
    let summary = teaching_scene_summary(family, problem, operation, shown.as_str());
    let title = teaching_title(family, focus.as_str());
    proof {
        let p = opt_problem(problem);
        assert(id_texts(access_lines@) =~= teaching_access_lines(shown@, teaching_op(p, *model)));
    }
    Some(OwnershipTopologyScene {
        title,
        summary,
        nodes: kept_nodes,
        edges: kept_edges,
        moments,
        selected_step: step,
        access_lines,
        canvas_height,
        expanded: false,
        truncated: false,
        legacy_limited: false,
    })
}

/// The teaching scene when there is one, else the compiler graph scene with
/// twelve nodes and twenty edges.
pub fn derive_ownership_topology_scene(
    problem: Option<&OwnershipProblem>,
    model: &OwnershipModel,
    selected_step: usize,
) -> (r: Option<OwnershipTopologyScene>)
    ensures
        r is Some <==> (has_teaching_scene(opt_problem(problem), *model) || has_graph(*model)),
        has_teaching_scene(opt_problem(problem), *model) ==> (r matches Some(scene)
            && teaching_scene_for(opt_problem(problem), *model, selected_step, scene)),
        !has_teaching_scene(opt_problem(problem), *model) ==> (r matches Some(scene)
            ==> graph_scene_for(opt_problem(problem), *model, selected_step, 12, 20, false, scene)),
{
    match derive_teaching_topology_scene(problem, model, selected_step) {
        Some(scene) => Some(scene),
        None => derive_ownership_topology_scene_with_limits(problem, model, selected_step, 12, 20, false),
    }
}

} // verus!
