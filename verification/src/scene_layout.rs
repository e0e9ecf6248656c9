//! Placing a scene on the canvas: one row per node, indented by column, and
//! an elbow route for every edge between placed nodes. Coordinates saturate
//! at the largest `u16` instead of overflowing.
use vstd::prelude::*;

use crate::topology::{
    edge_views, node_views, EdgeView, NodeView, TopologyColumn, TopologyEdge, TopologyNode,
    TopologyRect,
};

verus! {

/// The canvas width.
pub const TOPOLOGY_CANVAS_WIDTH: u16 = 420;

/// The height of a node's box.
pub const TOPOLOGY_NODE_HEIGHT: u16 = 78;

/// The top of the first row.
pub const TOPOLOGY_ROW_START: u16 = 8;

/// The distance between the tops of two rows.
pub const TOPOLOGY_ROW_STRIDE: u16 = 102;

/// `v` held in a `u16`, saturating at its largest value.
pub open spec fn sat16(v: int) -> u16 {
    if v > u16::MAX {
        u16::MAX
    } else if v < 0 {
        0
    } else {
        v as u16
    }
}

/// The top of row `row`.
pub open spec fn spec_row_y(row: int) -> u16 {
    let r = if row > u16::MAX {
        u16::MAX as int
    } else {
        row
    };
    sat16(sat16(r * TOPOLOGY_ROW_STRIDE) + TOPOLOGY_ROW_START)
}

/// The box of a node drawn in `column` on row `row`.
pub open spec fn spec_node_rect(column: TopologyColumn, row: int) -> TopologyRect {
    let (x, width) = match column {
        TopologyColumn::Local => (8u16, 404u16),
        TopologyColumn::Wrapper => (36u16, 376u16),
        TopologyColumn::Target => (64u16, 348u16),
    };
    TopologyRect { x, y: spec_row_y(row), width, height: TOPOLOGY_NODE_HEIGHT }
}

/// The route of an edge from box `s` to box `t`, and where its label goes:
/// downward edges leave the bottom of `s` and enter the top of `t` with an
/// elbow halfway; other edges run along the right side of the canvas.
pub open spec fn spec_edge_route(s: TopologyRect, t: TopologyRect) -> (Seq<(u16, u16)>, (u16, u16)) {
    let sx = sat16(s.x + s.width / 2);
    let tx = sat16(t.x + t.width / 2);
    if s.y < t.y {
        let start = (sx, sat16(s.y + s.height));
        let end = (tx, t.y);
        let middle = sat16(start.1 + sat16(end.1 - start.1) / 2);
        let left = if start.0 < end.0 {
            start.0
        } else {
            end.0
        };
        (
            seq![start, (start.0, middle), (end.0, middle), end],
            (sat16(left + 8), sat16(middle - 8)),
        )
    } else {
        let side = sat16(TOPOLOGY_CANVAS_WIDTH - 2);
        let start = (sat16(s.x + s.width), sat16(s.y + s.height / 2));
        let end = (sat16(t.x + t.width), sat16(t.y + t.height / 2));
        let top = if start.1 < end.1 {
            start.1
        } else {
            end.1
        };
        (seq![start, (side, start.1), (side, end.1), end], (sat16(side - 104), sat16(top + 8)))
    }
}

/// The position of the last node with id `id`.
pub open spec fn last_with_id(nodes: Seq<NodeView>, id: Seq<char>) -> Option<int>
    decreases nodes.len(),
{
    if nodes.len() == 0 {
        None
    } else if nodes.last().id == id {
        Some(nodes.len() - 1)
    } else {
        last_with_id(nodes.drop_last(), id)
    }
}

/// The node `n` placed on row `row`.
pub open spec fn placed_node(n: NodeView, row: int) -> NodeView {
    NodeView { rect: spec_node_rect(n.column, row), ..n }
}

/// The edge `e` routed between the placed nodes `nodes`, when both of its
/// ends are among them.
pub open spec fn routed_edge(e: EdgeView, nodes: Seq<NodeView>) -> EdgeView {
    match (last_with_id(nodes, e.source), last_with_id(nodes, e.target)) {
        (Some(a), Some(b)) => {
            let (route, label_position) = spec_edge_route(
                spec_node_rect(nodes[a].column, a),
                spec_node_rect(nodes[b].column, b),
            );
            EdgeView { route, label_position, ..e }
        },
        _ => e,
    }
}

proof fn lemma_last_with_id_bounds(nodes: Seq<NodeView>, id: Seq<char>)
    ensures
        last_with_id(nodes, id) matches Some(k) ==> 0 <= k < nodes.len() && nodes[k].id == id,
    decreases nodes.len(),
{
    if nodes.len() > 0 && nodes.last().id != id {
        lemma_last_with_id_bounds(nodes.drop_last(), id);
    }
}

fn clamp16(v: u32) -> (r: u16)
    ensures
        r == sat16(v as int),
{
    if v > 65535 {
        65535
    } else {
        v as u16
    }
}

fn row_y(row: usize) -> (r: u16)
    ensures
        r == spec_row_y(row as int),
{
    let r: u32 = if row > 65535 {
        65535
    } else {
        row as u32
    };
    let scaled = clamp16(r * 102);
    clamp16(scaled as u32 + 8)
}

fn node_rect(column: TopologyColumn, row: usize) -> (r: TopologyRect)
    ensures
        r == spec_node_rect(column, row as int),
{
    let (x, width): (u16, u16) = match column {
        TopologyColumn::Local => (8, 404),
        TopologyColumn::Wrapper => (36, 376),
        TopologyColumn::Target => (64, 348),
    };
    TopologyRect { x, y: row_y(row), width, height: TOPOLOGY_NODE_HEIGHT }
}

fn edge_route(s: TopologyRect, t: TopologyRect) -> (r: (Vec<(u16, u16)>, (u16, u16)))
    ensures
        (r.0@, r.1) == spec_edge_route(s, t),
{
    let sx = clamp16(s.x as u32 + (s.width / 2) as u32);
    let tx = clamp16(t.x as u32 + (t.width / 2) as u32);
    if s.y < t.y {
        let start = (sx, clamp16(s.y as u32 + s.height as u32));
        let end = (tx, t.y);
        let gap: u16 = if end.1 >= start.1 {
            end.1 - start.1
        } else {
            0
        };
        let middle = clamp16(start.1 as u32 + (gap / 2) as u32);
        let left = if start.0 < end.0 {
            start.0
        } else {
            end.0
        };
        let label_y: u16 = if middle >= 8 {
            middle - 8
        } else {
            0
        };
        let route = vec![start, (start.0, middle), (end.0, middle), end];
        assert(route@ =~= seq![start, (start.0, middle), (end.0, middle), end]);
        (route, (clamp16(left as u32 + 8), label_y))
    } else {
        let side: u16 = 418;
        let start = (
            clamp16(s.x as u32 + s.width as u32),
            clamp16(s.y as u32 + (s.height / 2) as u32),
        );
        let end = (clamp16(t.x as u32 + t.width as u32), clamp16(t.y as u32 + (t.height / 2) as u32));
        let top = if start.1 < end.1 {
            start.1
        } else {
            end.1
        };
        let route = vec![start, (side, start.1), (side, end.1), end];
        assert(route@ =~= seq![start, (side, start.1), (side, end.1), end]);
        (route, (314, clamp16(top as u32 + 8)))
    }
}

/// The position of the last node with id `id`.
fn find_last_node(nodes: &Vec<TopologyNode>, id: &str) -> (r: Option<usize>)
    ensures
        match r {
            Some(k) => last_with_id(node_views(nodes@), id@) == Some(k as int),
            None => last_with_id(node_views(nodes@), id@) is None,
        },
{
    let ghost all = node_views(nodes@);
    let mut i = nodes.len();
    assert(all.take(i as int) =~= all);
    while i > 0
        invariant
            i <= nodes.len(),
            all == node_views(nodes@),
            last_with_id(all, id@) == last_with_id(all.take(i as int), id@),
        decreases i,
    {
        assert(all.take(i as int).drop_last() =~= all.take(i - 1));
        if crate::text::str_eq(nodes[i - 1].id.as_str(), id) {
            return Some(i - 1);
        }
        i -= 1;
    }
    None
}

/// Places every node on its own row and routes every edge whose two ends
/// were placed; gives the height the canvas needs.
pub fn layout_topology_scene(nodes: &mut Vec<TopologyNode>, edges: &mut Vec<TopologyEdge>) -> (r:
    u16)
    ensures
        final(nodes).len() == old(nodes).len(),
        forall|i: int|
            0 <= i < old(nodes).len() ==> node_views(final(nodes)@)[i] == placed_node(
                node_views(old(nodes)@)[i],
                i,
            ),
        final(edges).len() == old(edges).len(),
        forall|j: int|
            0 <= j < old(edges).len() ==> edge_views(final(edges)@)[j] == routed_edge(
                edge_views(old(edges)@)[j],
                node_views(old(nodes)@),
            ),
        r == spec_row_y(if old(nodes).len() > 1 {
            old(nodes).len() as int
        } else {
            1
        }),
{
    let ghost original = node_views(nodes@);
    let mut i: usize = 0;
    while i < nodes.len()
        invariant
            i <= nodes.len(),
            nodes.len() == original.len(),
            forall|k: int| 0 <= k < i ==> node_views(nodes@)[k] == placed_node(original[k], k),
            forall|k: int| i <= k < nodes.len() ==> node_views(nodes@)[k] == original[k],
        decreases nodes.len() - i,
    {
        let ghost before = node_views(nodes@);
        let mut node = nodes[i].clone();
        node.rect = node_rect(node.column, i);
        nodes.set(i, node);
        assert(node_views(nodes@) =~= before.update(i as int, placed_node(original[i as int], i as int)));
        i += 1;
    }
    assert forall|k: int| 0 <= k < nodes.len() implies #[trigger] node_views(nodes@)[k].id
        == original[k].id by {
        assert(node_views(nodes@)[k] == placed_node(original[k], k));
    }
    proof {
        lemma_same_ids_same_last(original, node_views(nodes@));
    }
    let ghost original_edges = edge_views(edges@);
    let mut j: usize = 0;
    while j < edges.len()
        invariant
            j <= edges.len(),
            edges.len() == original_edges.len(),
            nodes.len() == original.len(),
            forall|k: int| 0 <= k < nodes.len() ==> node_views(nodes@)[k] == placed_node(original[k], k),
            forall|id: Seq<char>| last_with_id(original, id) == last_with_id(node_views(nodes@), id),
            forall|k: int| 0 <= k < j ==> edge_views(edges@)[k] == routed_edge(original_edges[k], original),
            forall|k: int| j <= k < edges.len() ==> edge_views(edges@)[k] == original_edges[k],
        decreases edges.len() - j,
    {
        let source = find_last_node(nodes, edges[j].source.as_str());
        let target = find_last_node(nodes, edges[j].target.as_str());
        match (source, target) {
            (Some(a), Some(b)) => {
                proof {
                    lemma_last_with_id_bounds(original, original_edges[j as int].source);
                    lemma_last_with_id_bounds(original, original_edges[j as int].target);
                }
                assert(node_views(nodes@)[a as int] == placed_node(original[a as int], a as int));
                assert(node_views(nodes@)[b as int] == placed_node(original[b as int], b as int));
                let (route, label_position) = edge_route(nodes[a].rect, nodes[b].rect);
                let ghost before = edge_views(edges@);
                let mut edge = edges[j].clone();
                edge.route = route;
                edge.label_position = label_position;
                edges.set(j, edge);
                assert(edge_views(edges@) =~= before.update(
                    j as int,
                    routed_edge(original_edges[j as int], original),
                ));
            },
            _ => {
                assert(routed_edge(original_edges[j as int], original) == original_edges[j as int]);
            },
        }
        j += 1;
    }
    row_y(if nodes.len() > 1 {
        nodes.len()
    } else {
        1
    })
}

pub proof fn lemma_same_ids_same_last(a: Seq<NodeView>, b: Seq<NodeView>)
    requires
        a.len() == b.len(),
        forall|k: int| 0 <= k < a.len() ==> #[trigger] b[k].id == a[k].id,
    ensures
        forall|id: Seq<char>| last_with_id(a, id) == last_with_id(b, id),
    decreases a.len(),
{
    if a.len() > 0 {
        lemma_same_ids_same_last(a.drop_last(), b.drop_last());
        assert(b.last().id == a.last().id);
        assert forall|id: Seq<char>| last_with_id(a, id) == last_with_id(b, id) by {
            assert(last_with_id(a.drop_last(), id) == last_with_id(b.drop_last(), id));
        }
    } else {
        assert forall|id: Seq<char>| last_with_id(a, id) == last_with_id(b, id) by {}
    }
}

/// Routing an edge reads only the ids and columns of the nodes.
pub proof fn lemma_routed_edge_ignores_rects(e: EdgeView, a: Seq<NodeView>, b: Seq<NodeView>)
    requires
        a.len() == b.len(),
        forall|k: int| 0 <= k < a.len() ==> #[trigger] b[k].id == a[k].id && b[k].column == a[k].column,
    ensures
        routed_edge(e, a) == routed_edge(e, b),
{
    lemma_same_ids_same_last(a, b);
    assert(last_with_id(a, e.source) == last_with_id(b, e.source));
    assert(last_with_id(a, e.target) == last_with_id(b, e.target));
    lemma_last_with_id_bounds(a, e.source);
    lemma_last_with_id_bounds(a, e.target);
    if let Some(x) = last_with_id(a, e.source) {
        assert(b[x].id == a[x].id);
    }
    if let Some(y) = last_with_id(a, e.target) {
        assert(b[y].id == a[y].id);
    }
}

/// Rows are a stride apart until the canvas runs out of room; from then on
/// every row sits at the largest coordinate, so no layout overflows.
pub proof fn rows_saturate_instead_of_overflowing(row: int)
    requires
        row >= 0,
    ensures
        row < 642 ==> spec_row_y(row + 1) == spec_row_y(row) + TOPOLOGY_ROW_STRIDE,
        row >= 643 ==> spec_row_y(row) == u16::MAX,
{
}

/// The point `p` lies on the box `r`, edges included.
pub open spec fn on_box(p: (u16, u16), r: TopologyRect) -> bool {
    r.x <= p.0 <= r.x + r.width && r.y <= p.1 <= r.y + r.height
}

/// An edge's route runs from its source box to its target box: it starts on
/// the source and ends on the target. A downward edge leaves the middle of
/// the source's bottom side and enters the middle of the target's top side;
/// any other edge leaves the middle of the source's right side and enters the
/// middle of the target's right side.
pub proof fn routes_run_from_source_to_target(s: TopologyRect, t: TopologyRect)
    ensures
        ({
            let route = spec_edge_route(s, t).0;
            &&& route.len() == 4
            &&& on_box(route[0], s)
            &&& on_box(route[3], t)
            &&& (s.y < t.y && s.x + s.width <= u16::MAX && s.y + s.height <= u16::MAX && t.x + t.width
                <= u16::MAX) ==> route[0] == ((s.x + s.width / 2) as u16, (s.y + s.height) as u16)
                && route[3] == ((t.x + t.width / 2) as u16, t.y)
            &&& (s.y >= t.y && s.x + s.width <= u16::MAX && s.y + s.height <= u16::MAX && t.x
                + t.width <= u16::MAX && t.y + t.height <= u16::MAX) ==> route[0] == (
                (s.x + s.width) as u16,
                (s.y + s.height / 2) as u16,
            ) && route[3] == ((t.x + t.width) as u16, (t.y + t.height / 2) as u16)
        }),
{
}

/// In a laid-out scene, an edge whose two ends were placed starts on the box
/// its source node was placed in and ends on the box of its target node;
/// an edge with an end missing keeps its route.
pub proof fn laid_out_edges_run_from_source_to_target(e: EdgeView, nodes: Seq<NodeView>)
    ensures
        match (last_with_id(nodes, e.source), last_with_id(nodes, e.target)) {
            (Some(a), Some(b)) => {
                &&& 0 <= a < nodes.len() && nodes[a].id == e.source
                &&& 0 <= b < nodes.len() && nodes[b].id == e.target
                &&& routed_edge(e, nodes).route.len() == 4
                &&& on_box(routed_edge(e, nodes).route[0], placed_node(nodes[a], a).rect)
                &&& on_box(routed_edge(e, nodes).route[3], placed_node(nodes[b], b).rect)
            },
            _ => routed_edge(e, nodes) == e,
        },
{
    lemma_last_with_id_bounds(nodes, e.source);
    lemma_last_with_id_bounds(nodes, e.target);
    if let (Some(a), Some(b)) = (last_with_id(nodes, e.source), last_with_id(nodes, e.target)) {
        routes_run_from_source_to_target(spec_node_rect(nodes[a].column, a), spec_node_rect(nodes[b].column, b));
    }
}

} // verus!
