//! The scene the ownership diagram draws: nodes in three columns, the edges
//! between them and the moments of the story, and the reader-facing words
//! each part is shown with.
use vstd::prelude::*;

use crate::protocol::{OwnershipMemoryNode, Range};
use crate::text::{
    ascii_lower, ascii_lowercased, concat2, concat3, decimal, decimal_string, has_prefix,
    has_substring, joined, owned, replace_char, replaced_char, seq_contains, starts_with, str_eq,
};

verus! {

/// The column of the diagram a node is drawn in.
#[derive(Clone, Copy, Debug, PartialEq, Eq, Structural)]
pub enum TopologyColumn {
    Local,
    Wrapper,
    Target,
}

/// Where a node is drawn.
#[derive(Clone, Copy, Debug, Default, PartialEq, Eq, Structural)]
pub struct TopologyRect {
    pub x: u16,
    pub y: u16,
    pub width: u16,
    pub height: u16,
}

/// One box of the diagram.
#[derive(Debug)]
pub struct TopologyNode {
    pub id: String,
    pub place: String,
    pub label: String,
    pub type_text: String,
    pub detail: String,
    pub kind: String,
    pub storage: String,
    pub state: String,
    pub provenance: String,
    pub column: TopologyColumn,
    pub range: Option<Range>,
    pub rect: TopologyRect,
}

/// The text and placement of a node.
pub struct NodeView {
    pub id: Seq<char>,
    pub place: Seq<char>,
    pub label: Seq<char>,
    pub type_text: Seq<char>,
    pub detail: Seq<char>,
    pub kind: Seq<char>,
    pub storage: Seq<char>,
    pub state: Seq<char>,
    pub provenance: Seq<char>,
    pub column: TopologyColumn,
    pub range: Option<Range>,
    pub rect: TopologyRect,
}

impl View for TopologyNode {
    type V = NodeView;

    open spec fn view(&self) -> NodeView {
        NodeView {
            id: self.id@,
            place: self.place@,
            label: self.label@,
            type_text: self.type_text@,
            detail: self.detail@,
            kind: self.kind@,
            storage: self.storage@,
            state: self.state@,
            provenance: self.provenance@,
            column: self.column,
            range: self.range,
            rect: self.rect,
        }
    }
}

impl Clone for TopologyNode {
    fn clone(&self) -> (r: Self)
        ensures
            r@ == self@,
    {
        TopologyNode {
            id: self.id.clone(),
            place: self.place.clone(),
            label: self.label.clone(),
            type_text: self.type_text.clone(),
            detail: self.detail.clone(),
            kind: self.kind.clone(),
            storage: self.storage.clone(),
            state: self.state.clone(),
            provenance: self.provenance.clone(),
            column: self.column,
            range: self.range,
            rect: self.rect,
        }
    }
}

/// One arrow of the diagram.
#[derive(Debug)]
pub struct TopologyEdge {
    pub id: String,
    pub source: String,
    pub target: String,
    pub label: String,
    pub provenance: String,
    pub active: bool,
    pub range: Option<Range>,
    pub route: Vec<(u16, u16)>,
    pub label_position: (u16, u16),
}

/// The text and placement of an edge.
pub struct EdgeView {
    pub id: Seq<char>,
    pub source: Seq<char>,
    pub target: Seq<char>,
    pub label: Seq<char>,
    pub provenance: Seq<char>,
    pub active: bool,
    pub range: Option<Range>,
    pub route: Seq<(u16, u16)>,
    pub label_position: (u16, u16),
}

impl View for TopologyEdge {
    type V = EdgeView;

    open spec fn view(&self) -> EdgeView {
        EdgeView {
            id: self.id@,
            source: self.source@,
            target: self.target@,
            label: self.label@,
            provenance: self.provenance@,
            active: self.active,
            range: self.range,
            route: self.route@,
            label_position: self.label_position,
        }
    }
}

impl Clone for TopologyEdge {
    fn clone(&self) -> (r: Self)
        ensures
            r@ == self@,
    {
        TopologyEdge {
            id: self.id.clone(),
            source: self.source.clone(),
            target: self.target.clone(),
            label: self.label.clone(),
            provenance: self.provenance.clone(),
            active: self.active,
            range: self.range,
            route: copy_points(&self.route),
            label_position: self.label_position,
        }
    }
}

fn copy_points(points: &Vec<(u16, u16)>) -> (r: Vec<(u16, u16)>)
    ensures
        r@ == points@,
{
    let mut r: Vec<(u16, u16)> = Vec::new();
    let mut i: usize = 0;
    while i < points.len()
        invariant
            i <= points.len(),
            r@ =~= points@.take(i as int),
        decreases points.len() - i,
    {
        r.push(points[i]);
        i += 1;
    }
    assert(points@.take(points.len() as int) =~= points@);
    r
}

/// One step of the story the diagram tells.
#[derive(Debug)]
pub struct TopologyMoment {
    pub title: String,
    pub explanation: String,
    pub range: Range,
    pub path_marker: Option<String>,
}

/// The text of a moment.
pub struct MomentView {
    pub title: Seq<char>,
    pub explanation: Seq<char>,
    pub range: Range,
    pub path_marker: Option<Seq<char>>,
}

impl View for TopologyMoment {
    type V = MomentView;

    open spec fn view(&self) -> MomentView {
        MomentView {
            title: self.title@,
            explanation: self.explanation@,
            range: self.range,
            path_marker: match self.path_marker {
                Some(m) => Some(m@),
                None => None,
            },
        }
    }
}

/// Everything the ownership diagram shows.
#[derive(Debug)]
pub struct OwnershipTopologyScene {
    pub title: String,
    pub summary: String,
    pub nodes: Vec<TopologyNode>,
    pub edges: Vec<TopologyEdge>,
    pub moments: Vec<TopologyMoment>,
    pub selected_step: usize,
    pub access_lines: Vec<String>,
    pub canvas_height: u16,
    pub expanded: bool,
    pub truncated: bool,
    pub legacy_limited: bool,
}

/// The views of nodes, in order.
pub open spec fn node_views(nodes: Seq<TopologyNode>) -> Seq<NodeView> {
    nodes.map_values(|n: TopologyNode| n@)
}

/// The views of edges, in order.
pub open spec fn edge_views(edges: Seq<TopologyEdge>) -> Seq<EdgeView> {
    edges.map_values(|e: TopologyEdge| e@)
}

/// The views of moments, in order.
pub open spec fn moment_views(moments: Seq<TopologyMoment>) -> Seq<MomentView> {
    moments.map_values(|m: TopologyMoment| m@)
}

/// The column a node of `kind` stored in `storage` is drawn in: heap and
/// allocation layers right, inline wrappers in the middle, locals left.
pub open spec fn spec_topology_column(kind: Seq<char>, storage: Seq<char>) -> TopologyColumn {
    if storage == "heap"@ || kind == "heap_allocation"@ || kind == "allocation"@ || kind
        == "buffer"@ || kind == "control_block"@ {
        TopologyColumn::Target
    } else if kind == "handle"@ || kind == "wrapper"@ || kind == "inline_value"@ || kind
        == "borrow_flag"@ || kind == "lock_state"@ || kind == "guard"@ || kind == "metadata"@
        || kind == "wrapper_state"@ || kind == "gate"@ || storage == "inline"@ {
        TopologyColumn::Wrapper
    } else {
        TopologyColumn::Local
    }
}

pub fn topology_column(kind: &str, storage: &str) -> (r: TopologyColumn)
    ensures
        r == spec_topology_column(kind@, storage@),
{
    if str_eq(storage, "heap") || str_eq(kind, "heap_allocation") || str_eq(kind, "allocation")
        || str_eq(kind, "buffer") || str_eq(kind, "control_block") {
        TopologyColumn::Target
    } else if str_eq(kind, "handle") || str_eq(kind, "wrapper") || str_eq(kind, "inline_value")
        || str_eq(kind, "borrow_flag") || str_eq(kind, "lock_state") || str_eq(kind, "guard")
        || str_eq(kind, "metadata") || str_eq(kind, "wrapper_state") || str_eq(kind, "gate")
        || str_eq(storage, "inline") {
        TopologyColumn::Wrapper
    } else {
        TopologyColumn::Local
    }
}

/// The heading of a column.
pub open spec fn spec_topology_column_title(column: TopologyColumn) -> Seq<char> {
    match column {
        TopologyColumn::Local => "VARIABLE"@,
        TopologyColumn::Wrapper => "INLINE WRAPPER"@,
        TopologyColumn::Target => "HEAP / TARGET"@,
    }
}

pub fn topology_column_title(column: TopologyColumn) -> (r: &'static str)
    ensures
        r@ == spec_topology_column_title(column),
{
    match column {
        TopologyColumn::Local => "VARIABLE",
        TopologyColumn::Wrapper => "INLINE WRAPPER",
        TopologyColumn::Target => "HEAP / TARGET",
    }
}

/// The tone a node's state is drawn in.
#[derive(Clone, Copy, Debug, PartialEq, Eq, Structural)]
pub enum NodeTone {
    Error,
    Info,
    Warning,
    Success,
}

/// Rejected or blocked states are errors, borrowed or read-only ones
/// informational, moved or dropped ones warnings, and the rest fine.
pub open spec fn spec_topology_node_tone(state: Seq<char>) -> NodeTone {
    if seq_contains(state, "blocked"@) || seq_contains(state, "reject"@) || seq_contains(
        state,
        "invalid"@,
    ) {
        NodeTone::Error
    } else if seq_contains(state, "borrow"@) || seq_contains(state, "read-only"@) {
        NodeTone::Info
    } else if seq_contains(state, "move"@) || seq_contains(state, "drop"@) {
        NodeTone::Warning
    } else {
        NodeTone::Success
    }
}

pub fn topology_node_tone(state: &str) -> (r: NodeTone)
    ensures
        r == spec_topology_node_tone(state@),
{
    if has_substring(state, "blocked") || has_substring(state, "reject") || has_substring(
        state,
        "invalid",
    ) {
        NodeTone::Error
    } else if has_substring(state, "borrow") || has_substring(state, "read-only") {
        NodeTone::Info
    } else if has_substring(state, "move") || has_substring(state, "drop") {
        NodeTone::Warning
    } else {
        NodeTone::Success
    }
}

/// The role printed above a node: what kind of box it is, else its column.
pub open spec fn spec_node_role(node: NodeView) -> Seq<char> {
    if node.kind == "binding"@ {
        "VARIABLE"@
    } else if node.kind == "handle"@ {
        "HANDLE"@
    } else if node.kind == "wrapper"@ {
        "WRAPPER"@
    } else if node.storage == "heap"@ {
        "HEAP"@
    } else {
        spec_topology_column_title(node.column)
    }
}

pub fn node_role(node: &TopologyNode) -> (r: &'static str)
    ensures
        r@ == spec_node_role(node@),
{
    if str_eq(node.kind.as_str(), "binding") {
        "VARIABLE"
    } else if str_eq(node.kind.as_str(), "handle") {
        "HANDLE"
    } else if str_eq(node.kind.as_str(), "wrapper") {
        "WRAPPER"
    } else if str_eq(node.storage.as_str(), "heap") {
        "HEAP"
    } else {
        topology_column_title(node.column)
    }
}

/// How early an edge of `relation` is followed when walking a scene:
/// storing first, then wrapping, owning, containing, pointing, borrowing,
/// moving, and anything else last.
pub open spec fn spec_relation_priority(relation: Seq<char>) -> u8 {
    if relation == "stores"@ {
        0
    } else if relation == "wraps"@ {
        1
    } else if relation == "owns"@ || relation == "shares_allocation"@ || relation
        == "weak_reference"@ {
        2
    } else if relation == "contains"@ || relation == "guards_access"@ {
        3
    } else if relation == "owns_buffer"@ || relation == "points_to"@ {
        4
    } else if relation == "borrow_shared"@ || relation == "borrow_mutable"@ || relation
        == "reborrow"@ {
        5
    } else if relation == "moved_to"@ {
        6
    } else {
        7
    }
}

pub fn relation_priority(relation: &str) -> (r: u8)
    ensures
        r == spec_relation_priority(relation@),
{
    if str_eq(relation, "stores") {
        0
    } else if str_eq(relation, "wraps") {
        1
    } else if str_eq(relation, "owns") || str_eq(relation, "shares_allocation") || str_eq(
        relation,
        "weak_reference",
    ) {
        2
    } else if str_eq(relation, "contains") || str_eq(relation, "guards_access") {
        3
    } else if str_eq(relation, "owns_buffer") || str_eq(relation, "points_to") {
        4
    } else if str_eq(relation, "borrow_shared") || str_eq(relation, "borrow_mutable") || str_eq(
        relation,
        "reborrow",
    ) {
        5
    } else if str_eq(relation, "moved_to") {
        6
    } else {
        7
    }
}

/// The first position at or after `i` that does not hold `*`.
pub open spec fn skip_stars(s: Seq<char>, i: int) -> int
    decreases s.len() - i,
{
    if 0 <= i < s.len() && s[i] == '*' {
        skip_stars(s, i + 1)
    } else {
        i
    }
}

/// The first position at or after `i` that holds `.` or `[`, or the end.
pub open spec fn next_projection(s: Seq<char>, i: int) -> int
    decreases s.len() - i,
{
    if 0 <= i < s.len() && s[i] != '.' && s[i] != '[' {
        next_projection(s, i + 1)
    } else {
        i
    }
}

/// The variable a place starts from: the place without its leading `*`s,
/// up to its first field or index projection.
pub open spec fn spec_place_root(place: Seq<char>) -> Seq<char> {
    let start = skip_stars(place, 0);
    place.subrange(start, next_projection(place, start))
}

proof fn lemma_skip_stars_bounds(s: Seq<char>, i: int)
    requires
        0 <= i <= s.len(),
    ensures
        i <= skip_stars(s, i) <= s.len(),
    decreases s.len() - i,
{
    if i < s.len() && s[i] == '*' {
        lemma_skip_stars_bounds(s, i + 1);
    }
}

proof fn lemma_next_projection_bounds(s: Seq<char>, i: int)
    requires
        0 <= i <= s.len(),
    ensures
        i <= next_projection(s, i) <= s.len(),
    decreases s.len() - i,
{
    if i < s.len() && s[i] != '.' && s[i] != '[' {
        lemma_next_projection_bounds(s, i + 1);
    }
}

pub fn place_root(place: &str) -> (r: &str)
    ensures
        r@ == spec_place_root(place@),
{
    let chars = crate::text::chars_of(place);
    let mut start: usize = 0;
    while start < chars.len() && chars[start] == '*'
        invariant
            chars@ == place@,
            start <= chars.len(),
            skip_stars(place@, start as int) == skip_stars(place@, 0),
        decreases chars.len() - start,
    {
        start += 1;
    }
    let mut end = start;
    proof {
        lemma_skip_stars_bounds(place@, 0);
    }
    while end < chars.len() && chars[end] != '.' && chars[end] != '['
        invariant
            chars@ == place@,
            start <= end <= chars.len(),
            start == skip_stars(place@, 0),
            next_projection(place@, end as int) == next_projection(place@, start as int),
        decreases chars.len() - end,
    {
        end += 1;
    }
    place.substring_char(start, end)
}

/// How a beginner is told what kind of layer a node is.
pub open spec fn spec_beginner_memory_role(node: NodeView) -> Seq<char> {
    let kind = node.kind;
    if kind == "binding"@ {
        "Local variable"@
    } else if kind == "handle"@ {
        "Inline owner handle"@
    } else if kind == "control_block"@ {
        "Shared heap allocation"@
    } else if kind == "borrow_flag"@ || kind == "gate"@ {
        "Runtime borrow gate"@
    } else if kind == "buffer"@ {
        "Heap element buffer"@
    } else if kind == "lock_state"@ {
        "Runtime lock state"@
    } else if kind == "guard"@ {
        "Temporary access guard"@
    } else if kind == "wrapper"@ && (seq_contains(node.label, "Vec"@) || starts_with(
        node.type_text,
        "Vec<"@,
    )) {
        "Inline collection header"@
    } else if kind == "wrapper"@ {
        "Inline wrapper"@
    } else if kind == "heap_allocation"@ || kind == "allocation"@ {
        "Heap allocation"@
    } else if node.storage == "heap"@ {
        "Heap value"@
    } else if node.storage == "inline"@ {
        "Inline value"@
    } else {
        "Value layer"@
    }
}

pub fn beginner_memory_role(node: &TopologyNode) -> (r: &'static str)
    ensures
        r@ == spec_beginner_memory_role(node@),
{
    let kind = node.kind.as_str();
    if str_eq(kind, "binding") {
        "Local variable"
    } else if str_eq(kind, "handle") {
        "Inline owner handle"
    } else if str_eq(kind, "control_block") {
        "Shared heap allocation"
    } else if str_eq(kind, "borrow_flag") || str_eq(kind, "gate") {
        "Runtime borrow gate"
    } else if str_eq(kind, "buffer") {
        "Heap element buffer"
    } else if str_eq(kind, "lock_state") {
        "Runtime lock state"
    } else if str_eq(kind, "guard") {
        "Temporary access guard"
    } else if str_eq(kind, "wrapper") && (has_substring(node.label.as_str(), "Vec") || has_prefix(
        node.type_text.as_str(),
        "Vec<",
    )) {
        "Inline collection header"
    } else if str_eq(kind, "wrapper") {
        "Inline wrapper"
    } else if str_eq(kind, "heap_allocation") || str_eq(kind, "allocation") {
        "Heap allocation"
    } else if str_eq(node.storage.as_str(), "heap") {
        "Heap value"
    } else if str_eq(node.storage.as_str(), "inline") {
        "Inline value"
    } else {
        "Value layer"
    }
}

/// How a beginner is told what an edge of `relation` does; an unknown
/// relation is shown with spaces for its underscores.
pub open spec fn spec_beginner_relation_label(relation: Seq<char>) -> Seq<char> {
    if relation == "stores"@ {
        "holds this handle"@
    } else if relation == "wraps"@ {
        "wraps"@
    } else if relation == "owns"@ {
        "owns"@
    } else if relation == "shares_allocation"@ {
        "shares ownership of"@
    } else if relation == "weak_reference"@ {
        "weakly observes"@
    } else if relation == "contains"@ {
        "contains"@
    } else if relation == "guards_access"@ {
        "controls access to"@
    } else if relation == "owns_buffer"@ {
        "owns the element storage"@
    } else if relation == "points_to"@ {
        "points to"@
    } else if relation == "borrow_shared"@ {
        "temporarily reads"@
    } else if relation == "borrow_mutable"@ {
        "temporarily edits"@
    } else if relation == "reborrow"@ {
        "borrows again from"@
    } else if relation == "moved_to"@ {
        "transferred control to"@
    } else {
        replace_char(relation, '_', ' ')
    }
}

pub fn beginner_relation_label(relation: &str) -> (r: String)
    ensures
        r@ == spec_beginner_relation_label(relation@),
{
    if str_eq(relation, "stores") {
        owned("holds this handle")
    } else if str_eq(relation, "wraps") {
        owned("wraps")
    } else if str_eq(relation, "owns") {
        owned("owns")
    } else if str_eq(relation, "shares_allocation") {
        owned("shares ownership of")
    } else if str_eq(relation, "weak_reference") {
        owned("weakly observes")
    } else if str_eq(relation, "contains") {
        owned("contains")
    } else if str_eq(relation, "guards_access") {
        owned("controls access to")
    } else if str_eq(relation, "owns_buffer") {
        owned("owns the element storage")
    } else if str_eq(relation, "points_to") {
        owned("points to")
    } else if str_eq(relation, "borrow_shared") {
        owned("temporarily reads")
    } else if str_eq(relation, "borrow_mutable") {
        owned("temporarily edits")
    } else if str_eq(relation, "reborrow") {
        owned("borrows again from")
    } else if str_eq(relation, "moved_to") {
        owned("transferred control to")
    } else {
        replaced_char(relation, '_', ' ')
    }
}

/// How a beginner is told the state a layer is in.
pub open spec fn spec_beginner_memory_state(state: Seq<char>) -> Seq<char> {
    if seq_contains(state, "reject"@) || seq_contains(state, "invalid"@) || seq_contains(
        state,
        "blocked"@,
    ) {
        "Operation blocked here"@
    } else if seq_contains(state, "mutable"@) || seq_contains(state, "exclusive"@) {
        "Exclusive edit access is active"@
    } else if seq_contains(state, "borrow"@) || seq_contains(state, "read-only"@) {
        "Temporary read access is active"@
    } else if seq_contains(state, "move"@) || seq_contains(state, "unavailable"@) {
        "Control moved to another place"@
    } else if seq_contains(state, "drop"@) || seq_contains(state, "dead"@) {
        "This layer has been cleaned up"@
    } else if seq_contains(state, "available"@) || seq_contains(state, "alive"@) {
        "Available to use"@
    } else {
        "Current state: "@ + replace_char(state, '_', ' ')
    }
}

pub fn beginner_memory_state(state: &str) -> (r: String)
    ensures
        r@ == spec_beginner_memory_state(state@),
{
    if has_substring(state, "reject") || has_substring(state, "invalid") || has_substring(
        state,
        "blocked",
    ) {
        owned("Operation blocked here")
    } else if has_substring(state, "mutable") || has_substring(state, "exclusive") {
        owned("Exclusive edit access is active")
    } else if has_substring(state, "borrow") || has_substring(state, "read-only") {
        owned("Temporary read access is active")
    } else if has_substring(state, "move") || has_substring(state, "unavailable") {
        owned("Control moved to another place")
    } else if has_substring(state, "drop") || has_substring(state, "dead") {
        owned("This layer has been cleaned up")
    } else if has_substring(state, "available") || has_substring(state, "alive") {
        owned("Available to use")
    } else {
        concat2("Current state: ", replaced_char(state, '_', ' ').as_str())
    }
}

/// What a moment of `kind` at `place` tells the reader.
pub open spec fn spec_moment_explanation(kind: Seq<char>, place: Seq<char>) -> Seq<char> {
    if kind == "move"@ || kind == "partial_move"@ {
        "Ownership leaves `"@ + place + "` here; its destination becomes the usable owner."@
    } else if kind == "clone"@ {
        "A new handle is created from `"@ + place
            + "`; shared allocations are not duplicated."@
    } else if kind == "borrow_shared"@ {
        "A read-only loan from `"@ + place + "` starts here."@
    } else if kind == "borrow_mutable"@ || kind == "borrow_activate"@ {
        "An exclusive mutable loan from `"@ + place + "` becomes active here."@
    } else if kind == "borrow_end"@ {
        "The loan from `"@ + place + "` ends after its final use."@
    } else if kind == "invalid_use"@ || kind == "conflict"@ {
        "Rust rejects this operation because `"@ + place + "` lacks the required access."@
    } else if kind == "reinitialize"@ {
        "A new value makes `"@ + place + "` usable again."@
    } else if kind == "drop"@ {
        "The value owned through `"@ + place + "` is destroyed here."@
    } else {
        "The ownership state of `"@ + place + "` changes here."@
    }
}

pub fn topology_moment_explanation(kind: &str, place: &str) -> (r: String)
    ensures
        r@ == spec_moment_explanation(kind@, place@),
{
    if str_eq(kind, "move") || str_eq(kind, "partial_move") {
        concat3("Ownership leaves `", place, "` here; its destination becomes the usable owner.")
    } else if str_eq(kind, "clone") {
        concat3("A new handle is created from `", place, "`; shared allocations are not duplicated.")
    } else if str_eq(kind, "borrow_shared") {
        concat3("A read-only loan from `", place, "` starts here.")
    } else if str_eq(kind, "borrow_mutable") || str_eq(kind, "borrow_activate") {
        concat3("An exclusive mutable loan from `", place, "` becomes active here.")
    } else if str_eq(kind, "borrow_end") {
        concat3("The loan from `", place, "` ends after its final use.")
    } else if str_eq(kind, "invalid_use") || str_eq(kind, "conflict") {
        concat3("Rust rejects this operation because `", place, "` lacks the required access.")
    } else if str_eq(kind, "reinitialize") {
        concat3("A new value makes `", place, "` usable again.")
    } else if str_eq(kind, "drop") {
        concat3("The value owned through `", place, "` is destroyed here.")
    } else {
        concat3("The ownership state of `", place, "` changes here.")
    }
}

/// The storage and layout line of a memory node: `storage · size B · align
/// align`, `storage · size B`, or `storage · layout unknown`.
pub open spec fn spec_topology_detail(node: OwnershipMemoryNode) -> Seq<char> {
    let layout = match (node.size, node.align) {
        (Some(size), Some(align)) => decimal(size as nat) + " B · align "@ + decimal(
            align as nat,
        ),
        (Some(size), None) => decimal(size as nat) + " B"@,
        _ => "layout unknown"@,
    };
    replace_char(node.storage@, '_', ' ') + " · "@ + layout
}

pub fn topology_detail(node: &OwnershipMemoryNode) -> (r: String)
    ensures
        r@ == spec_topology_detail(*node),
{
    let layout = match (node.size, node.align) {
        (Some(size), Some(align)) => {
            let mut s = decimal_string(size);
            s.append(" B · align ");
            s.append(decimal_string(align).as_str());
            s
        },
        (Some(size), None) => {
            let mut s = decimal_string(size);
            s.append(" B");
            s
        },
        _ => owned("layout unknown"),
    };
    let mut r = replaced_char(node.storage.as_str(), '_', ' ');
    r.append(" · ");
    r.append(layout.as_str());
    r
}

/// One stop of the value-flow line: the node's role in lower case (roles
/// are ASCII words) and its label.
pub open spec fn flow_stop(node: NodeView) -> Seq<char> {
    ascii_lower(spec_node_role(node)) + " "@ + node.label
}

/// The value-flow line under a diagram: every node's stop, in order,
/// joined by arrows.
pub open spec fn spec_value_flow(nodes: Seq<NodeView>) -> Seq<char> {
    joined(nodes.map_values(|n: NodeView| flow_stop(n)), " → "@)
}

pub fn value_flow(nodes: &Vec<TopologyNode>) -> (r: String)
    ensures
        r@ == spec_value_flow(node_views(nodes@)),
{
    let ghost stops = node_views(nodes@).map_values(|n: NodeView| flow_stop(n));
    let mut out = String::new();
    let mut i: usize = 0;
    assert(stops.take(0) =~= Seq::<Seq<char>>::empty());
    while i < nodes.len()
        invariant
            i <= nodes.len(),
            stops == node_views(nodes@).map_values(|n: NodeView| flow_stop(n)),
            out@ == joined(stops.take(i as int), " → "@),
        decreases nodes.len() - i,
    {
        if i > 0 {
            out.append(" → ");
        }
        let role = ascii_lowercased(node_role(&nodes[i]));
        out.append(role.as_str());
        out.append(" ");
        out.append(nodes[i].label.as_str());
        proof {
            assert(stops[i as int] == flow_stop(nodes@[i as int]@));
            assert(stops.take(i + 1).drop_last() =~= stops.take(i as int));
            assert(stops.take(i + 1).last() == stops[i as int]);
            if i == 0 {
                assert(stops.take(1) =~= seq![stops[0]]);
            }
        }
        i += 1;
    }
    assert(stops.take(nodes.len() as int) =~= stops);
    out
}

/// The label of the first node with `id`, `?` when no node has it.
pub open spec fn node_label_of(nodes: Seq<NodeView>, id: Seq<char>) -> Seq<char>
    decreases nodes.len(),
{
    if nodes.len() == 0 {
        "?"@
    } else if nodes[0].id == id {
        nodes[0].label
    } else {
        node_label_of(nodes.drop_first(), id)
    }
}

proof fn lemma_node_label_of_skip(nodes: Seq<NodeView>, id: Seq<char>, i: int)
    requires
        0 <= i <= nodes.len(),
        forall|k: int| 0 <= k < i ==> nodes[k].id != id,
    ensures
        node_label_of(nodes, id) == node_label_of(nodes.skip(i), id),
    decreases i,
{
    if i > 0 {
        assert(nodes.skip(1) =~= nodes.drop_first());
        assert forall|k: int| 0 <= k < i - 1 implies nodes.drop_first()[k].id != id by {
            assert(nodes.drop_first()[k] == nodes[k + 1]);
        }
        lemma_node_label_of_skip(nodes.drop_first(), id, i - 1);
        assert(nodes.drop_first().skip(i - 1) =~= nodes.skip(i));
    } else {
        assert(nodes.skip(0) =~= nodes);
    }
}

fn node_label(nodes: &Vec<TopologyNode>, id: &str) -> (r: String)
    ensures
        r@ == node_label_of(node_views(nodes@), id@),
{
    let ghost views = node_views(nodes@);
    let mut i: usize = 0;
    while i < nodes.len()
        invariant
            i <= nodes.len(),
            views == node_views(nodes@),
            forall|k: int| 0 <= k < i ==> views[k].id != id@,
        decreases nodes.len() - i,
    {
        if str_eq(nodes[i].id.as_str(), id) {
            proof {
                lemma_node_label_of_skip(views, id@, i as int);
                assert(views.skip(i as int)[0] == views[i as int]);
            }
            return owned(nodes[i].label.as_str());
        }
        i += 1;
    }
    proof {
        lemma_node_label_of_skip(views, id@, nodes.len() as int);
        assert(views.skip(nodes.len() as int).len() == 0);
    }
    owned("?")
}

/// What a relation says in words: its two ends by label, its kind and its
/// provenance, underscores read as spaces.
pub open spec fn spec_relation_summary(nodes: Seq<NodeView>, edge: EdgeView) -> Seq<char> {
    "`"@ + node_label_of(nodes, edge.source) + "` "@ + replace_char(edge.label, '_', ' ') + " `"@
        + node_label_of(nodes, edge.target) + "`. Provenance: "@ + replace_char(edge.provenance, '_', ' ')
        + "."@
}

pub fn relation_summary(nodes: &Vec<TopologyNode>, edge: &TopologyEdge) -> (r: String)
    ensures
        r@ == spec_relation_summary(node_views(nodes@), edge@),
{
    let source = node_label(nodes, edge.source.as_str());
    let target = node_label(nodes, edge.target.as_str());
    let mut out = concat3("`", source.as_str(), "` ");
    out.append(replaced_char(edge.label.as_str(), '_', ' ').as_str());
    out.append(" `");
    out.append(target.as_str());
    out.append("`. Provenance: ");
    out.append(replaced_char(edge.provenance.as_str(), '_', ' ').as_str());
    out.append(".");
    out
}

/// The button of a relation: a filled dot when it is active, then its
/// source, kind and target.
pub open spec fn spec_relation_button(nodes: Seq<NodeView>, edge: EdgeView) -> Seq<char> {
    (if edge.active { "●"@ } else { "○"@ }) + " "@ + node_label_of(nodes, edge.source) + " · "@
        + replace_char(edge.label, '_', ' ') + " · "@ + node_label_of(nodes, edge.target)
}

pub fn relation_button(nodes: &Vec<TopologyNode>, edge: &TopologyEdge) -> (r: String)
    ensures
        r@ == spec_relation_button(node_views(nodes@), edge@),
{
    let source = node_label(nodes, edge.source.as_str());
    let target = node_label(nodes, edge.target.as_str());
    let mut out = owned(if edge.active { "●" } else { "○" });
    out.append(" ");
    out.append(source.as_str());
    out.append(" · ");
    out.append(replaced_char(edge.label.as_str(), '_', ' ').as_str());
    out.append(" · ");
    out.append(target.as_str());
    out
}

} // verus!
