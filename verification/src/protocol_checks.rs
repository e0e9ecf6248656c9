//! The checks every rust-analyzer ownership response passes before it is
//! shown: known statuses, supported schemas, bounded sizes, unique ids and
//! well-ordered ranges.
use vstd::prelude::*;

use crate::protocol::{
    OwnershipAccessPath, OwnershipConflictNode, OwnershipEvent, OwnershipJourneyFrame,
    OwnershipMemoryEdge, OwnershipMemoryGraph, OwnershipMemoryNode, OwnershipMemorySnapshot,
    OwnershipModel, OwnershipProblem, OwnershipProblemCluster, OwnershipProblemRelated,
    OwnershipProblems, OwnershipRepair, OwnershipValueTraceStep, OwnershipBody, OwnershipBlock,
    OwnershipBinding, OwnershipLoan, OwnershipOperationInsight, OwnershipConflictSnapshot,
    OwnershipWorkspaceGuide, OwnershipWorkspaceSite, Range,
};
use crate::selection::pos_lt;
use crate::text::str_eq;

verus! {

pub const MAX_OWNERSHIP_PROBLEMS: usize = 512;

pub const MAX_OWNERSHIP_EVENTS: usize = 256;

pub const MAX_OWNERSHIP_BODIES: usize = 512;

pub const MAX_OWNERSHIP_BINDINGS: usize = 64;

pub const MAX_OWNERSHIP_LOANS: usize = 64;

pub const MAX_OWNERSHIP_OPERATIONS: usize = 64;

pub const MAX_OWNERSHIP_REPAIRS: usize = 16;

pub const MAX_OWNERSHIP_GRAPH_NODES: usize = 128;

pub const MAX_OWNERSHIP_GRAPH_EDGES: usize = 256;

pub const MAX_OWNERSHIP_SNAPSHOTS: usize = 256;

pub const MAX_OWNERSHIP_ACCESS_PATHS: usize = 64;

pub const MAX_OWNERSHIP_WORKSPACE_CLUSTERS: usize = 64;

pub const MAX_OWNERSHIP_TEXT_BYTES: usize = 262144;

/// Why a response was refused.
#[derive(Clone, Copy, Debug, PartialEq, Eq, Structural)]
pub enum ProtocolError {
    UnknownStatus,
    SchemaOmitted,
    SchemaTooNew,
    TooManyItems,
    EmptyId,
    DuplicateId,
    InvertedRange,
    TextTooLong,
}

/// A range whose start does not come after its end.
pub open spec fn range_ok(range: Range) -> bool {
    !pos_lt(range.end, range.start)
}

pub open spec fn opt_range_ok(range: Option<Range>) -> bool {
    match range {
        Some(r) => range_ok(r),
        None => true,
    }
}

/// Text within the workbench's byte budget.
pub open spec fn text_ok(text: String) -> bool {
    (vstd::utf8::encode_utf8(text@).len() as usize) <= MAX_OWNERSHIP_TEXT_BYTES
}

/// A schema the client supports; an unavailable server may omit it.
pub open spec fn schema_ok(schema_version: u32, maximum: u32, unavailable: bool) -> bool {
    (unavailable && schema_version == 0) || (schema_version > 0 && schema_version <= maximum)
}

/// Every id is non-empty and no id occurs twice.
pub open spec fn ids_ok(ids: Seq<Seq<char>>) -> bool {
    &&& forall|i: int| 0 <= i < ids.len() ==> (#[trigger] ids[i]).len() > 0
    &&& forall|i: int, j: int| 0 <= i < j < ids.len() ==> ids[i] != ids[j]
}

/// The result a check gives for the first refusal it finds, if any.
pub open spec fn as_result(e: Option<ProtocolError>) -> Result<(), ProtocolError> {
    match e {
        Some(x) => Err(x),
        None => Ok(()),
    }
}

/// The first refusal: `a`'s, or else `b`'s.
pub open spec fn or_else(a: Option<ProtocolError>, b: Option<ProtocolError>) -> Option<ProtocolError> {
    if a is Some {
        a
    } else {
        b
    }
}

/// The refusal of the first item that has one.
pub open spec fn first_error<T>(items: Seq<T>, check: spec_fn(T) -> Option<ProtocolError>) -> Option<
    ProtocolError,
>
    decreases items.len(),
{
    if items.len() == 0 {
        None
    } else if check(items[0]) is Some {
        check(items[0])
    } else {
        first_error(items.drop_first(), check)
    }
}

/// Checking one more item: the first refusal among the first `i + 1` items.
pub proof fn lemma_first_error_step<T>(items: Seq<T>, check: spec_fn(T) -> Option<ProtocolError>, i: int)
    requires
        0 <= i < items.len(),
        first_error(items.take(i), check) is None,
    ensures
        check(items[i]) is Some ==> first_error(items, check) == check(items[i]),
        check(items[i]) is None ==> first_error(items.take(i + 1), check) is None,
    decreases i,
{
    if i == 0 {
        assert(items.take(1).drop_first() =~= Seq::<T>::empty());
        assert(first_error(Seq::<T>::empty(), check) is None);
        assert(items.take(1)[0] == items[0]);
    } else {
        let rest = items.drop_first();
        assert(items.take(i)[0] == items[0]);
        assert(items.take(i).drop_first() =~= rest.take(i - 1));
        assert(rest[i - 1] == items[i]);
        lemma_first_error_step(rest, check, i - 1);
        assert(items.take(i + 1).drop_first() =~= rest.take(i));
        assert(items.take(i + 1)[0] == items[0]);
    }
}

/// No item is refused.
pub proof fn lemma_first_error_done<T>(items: Seq<T>, check: spec_fn(T) -> Option<ProtocolError>)
    requires
        first_error(items.take(items.len() as int), check) is None,
    ensures
        first_error(items, check) is None,
{
    assert(items.take(items.len() as int) =~= items);
}

/// Why a range is refused.
pub open spec fn range_error(range: Range) -> Option<ProtocolError> {
    if range_ok(range) {
        None
    } else {
        Some(ProtocolError::InvertedRange)
    }
}

pub open spec fn opt_range_error(range: Option<Range>) -> Option<ProtocolError> {
    if opt_range_ok(range) {
        None
    } else {
        Some(ProtocolError::InvertedRange)
    }
}

/// Why a text is refused.
pub open spec fn text_error(text: String) -> Option<ProtocolError> {
    if text_ok(text) {
        None
    } else {
        Some(ProtocolError::TextTooLong)
    }
}

/// A refusal when `too_many` holds.
pub open spec fn count_error(too_many: bool) -> Option<ProtocolError> {
    if too_many {
        Some(ProtocolError::TooManyItems)
    } else {
        None
    }
}

/// Why a schema version is refused.
pub open spec fn schema_error(schema_version: u32, maximum: u32, unavailable: bool) -> Option<
    ProtocolError,
> {
    if unavailable && schema_version == 0 {
        None
    } else if schema_version == 0 {
        Some(ProtocolError::SchemaOmitted)
    } else if schema_version > maximum {
        Some(ProtocolError::SchemaTooNew)
    } else {
        None
    }
}

/// The refusal of the first id from position `i` on that is empty or
/// repeats an earlier one.
pub open spec fn id_error_from(ids: Seq<Seq<char>>, i: int) -> Option<ProtocolError>
    decreases ids.len() - i,
{
    if i < 0 || i >= ids.len() {
        None
    } else if ids[i].len() == 0 {
        Some(ProtocolError::EmptyId)
    } else if ids.take(i).contains(ids[i]) {
        Some(ProtocolError::DuplicateId)
    } else {
        id_error_from(ids, i + 1)
    }
}

/// Why a list of ids is refused: its first empty or repeated id.
pub open spec fn id_error(ids: Seq<Seq<char>>) -> Option<ProtocolError> {
    id_error_from(ids, 0)
}

pub fn validate_range(range: &Range) -> (r: Result<(), ProtocolError>)
    ensures
        r is Ok <==> range_ok(*range),
        r is Err ==> r == Err::<(), ProtocolError>(ProtocolError::InvertedRange),
        r == as_result(range_error(*range)),
{
    if range.end.line < range.start.line || (range.end.line == range.start.line
        && range.end.character < range.start.character) {
        Err(ProtocolError::InvertedRange)
    } else {
        Ok(())
    }
}

fn validate_opt_range(range: &Option<Range>) -> (r: Result<(), ProtocolError>)
    ensures
        r is Ok <==> opt_range_ok(*range),
        r is Err ==> r == Err::<(), ProtocolError>(ProtocolError::InvertedRange),
        r == as_result(opt_range_error(*range)),
{
    match range {
        Some(range) => validate_range(range),
        None => Ok(()),
    }
}

pub fn validate_text(text: &String) -> (r: Result<(), ProtocolError>)
    ensures
        r is Ok <==> text_ok(*text),
        r is Err ==> r == Err::<(), ProtocolError>(ProtocolError::TextTooLong),
        r == as_result(text_error(*text)),
{
    if text.as_str().len() <= MAX_OWNERSHIP_TEXT_BYTES {
        Ok(())
    } else {
        Err(ProtocolError::TextTooLong)
    }
}

pub fn validate_schema(schema_version: u32, maximum: u32, unavailable: bool) -> (r: Result<
    (),
    ProtocolError,
>)
    ensures
        r is Ok <==> schema_ok(schema_version, maximum, unavailable),
        r == Err::<(), ProtocolError>(ProtocolError::SchemaOmitted) <==> (!(unavailable
            && schema_version == 0) && schema_version == 0),
        r == Err::<(), ProtocolError>(ProtocolError::SchemaTooNew) <==> schema_version > maximum,
        r == as_result(schema_error(schema_version, maximum, unavailable)),
{
    if unavailable && schema_version == 0 {
        return Ok(());
    }
    if schema_version == 0 {
        return Err(ProtocolError::SchemaOmitted);
    }
    if schema_version > maximum {
        return Err(ProtocolError::SchemaTooNew);
    }
    Ok(())
}

/// Values that carry an identifier.
pub trait Identified {
    spec fn spec_id(&self) -> Seq<char>;

    fn id_text(&self) -> (r: &str)
        ensures
            r@ == self.spec_id(),
    ;
}

pub open spec fn id_seq<T: Identified>(items: Seq<T>) -> Seq<Seq<char>> {
    items.map_values(|item: T| item.spec_id())
}

/// Every item has a non-empty id and no two items share one.
pub fn validate_unique_ids<T: Identified>(items: &Vec<T>) -> (r: Result<(), ProtocolError>)
    ensures
        r is Ok <==> ids_ok(id_seq(items@)),
        r is Err ==> r == Err::<(), ProtocolError>(ProtocolError::EmptyId) || r == Err::<
            (),
            ProtocolError,
        >(ProtocolError::DuplicateId),
        r == as_result(id_error(id_seq(items@))),
{
    let ghost ids = id_seq(items@);
    let mut i: usize = 0;
    while i < items.len()
        invariant
            ids == id_seq(items@),
            i <= items.len(),
            ids_ok(ids.take(i as int)),
            id_error(ids) == id_error_from(ids, i as int),
        decreases items.len() - i,
    {
        let id = items[i].id_text();
        assert(id@ == ids[i as int]);
        if id.is_empty() {
            assert(!ids_ok(ids)) by {
                assert(ids[i as int].len() == 0);
            }
            return Err(ProtocolError::EmptyId);
        }
        let mut j: usize = 0;
        while j < i
            invariant
                ids == id_seq(items@),
                i < items.len(),
                j <= i,
                id@ == ids[i as int],
                ids[i as int].len() != 0,
                id_error(ids) == id_error_from(ids, i as int),
                forall|k: int| 0 <= k < j ==> ids[k] != ids[i as int],
            decreases i - j,
        {
            if str_eq(items[j].id_text(), id) {
                assert(!ids_ok(ids)) by {
                    assert(ids[j as int] == ids[i as int]);
                }
                assert(ids.take(i as int)[j as int] == ids[i as int]);
                assert(ids.take(i as int).contains(ids[i as int]));
                assert(ids[i as int].len() != 0);
                assert(id_error_from(ids, i as int) == Some(ProtocolError::DuplicateId));
                return Err(ProtocolError::DuplicateId);
            }
            j += 1;
        }
        assert(!ids.take(i as int).contains(ids[i as int])) by {
            if ids.take(i as int).contains(ids[i as int]) {
                let k = choose|k: int| 0 <= k < i && ids.take(i as int)[k] == ids[i as int];
                assert(ids[k] != ids[i as int]);
            }
        }
        assert(ids_ok(ids.take(i + 1))) by {
            assert forall|a: int, b: int| 0 <= a < b < i + 1 implies #[trigger] ids.take(i + 1)[a]
                != #[trigger] ids.take(i + 1)[b] by {
                if b < i {
                    assert(ids.take(i as int)[a] != ids.take(i as int)[b]);
                }
            }
            assert forall|a: int| 0 <= a < i + 1 implies (#[trigger] ids.take(i + 1)[a]).len()
                > 0 by {
                if a < i {
                    assert(ids.take(i as int)[a].len() > 0);
                }
            }
        }
        i += 1;
    }
    assert(ids.take(items.len() as int) =~= ids);
    Ok(())
}

impl Identified for OwnershipProblem {
    open spec fn spec_id(&self) -> Seq<char> {
        self.id@
    }

    fn id_text(&self) -> (r: &str) {
        self.id.as_str()
    }
}

impl Identified for OwnershipEvent {
    open spec fn spec_id(&self) -> Seq<char> {
        self.event_id@
    }

    fn id_text(&self) -> (r: &str) {
        self.event_id.as_str()
    }
}

impl Identified for OwnershipRepair {
    open spec fn spec_id(&self) -> Seq<char> {
        self.id@
    }

    fn id_text(&self) -> (r: &str) {
        self.id.as_str()
    }
}

impl Identified for OwnershipMemoryNode {
    open spec fn spec_id(&self) -> Seq<char> {
        self.id@
    }

    fn id_text(&self) -> (r: &str) {
        self.id.as_str()
    }
}

impl Identified for OwnershipMemoryEdge {
    open spec fn spec_id(&self) -> Seq<char> {
        self.id@
    }

    fn id_text(&self) -> (r: &str) {
        self.id.as_str()
    }
}

impl Identified for OwnershipMemorySnapshot {
    open spec fn spec_id(&self) -> Seq<char> {
        self.id@
    }

    fn id_text(&self) -> (r: &str) {
        self.id.as_str()
    }
}

impl Identified for OwnershipAccessPath {
    open spec fn spec_id(&self) -> Seq<char> {
        self.id@
    }

    fn id_text(&self) -> (r: &str) {
        self.id.as_str()
    }
}

impl Identified for OwnershipProblemCluster {
    open spec fn spec_id(&self) -> Seq<char> {
        self.id@
    }

    fn id_text(&self) -> (r: &str) {
        self.id.as_str()
    }
}

impl Identified for OwnershipJourneyFrame {
    open spec fn spec_id(&self) -> Seq<char> {
        self.id@
    }

    fn id_text(&self) -> (r: &str) {
        self.id.as_str()
    }
}

impl Identified for OwnershipConflictNode {
    open spec fn spec_id(&self) -> Seq<char> {
        self.id@
    }

    fn id_text(&self) -> (r: &str) {
        self.id.as_str()
    }
}

// ---------------------------------------------------------------------------
// Memory graphs
// ---------------------------------------------------------------------------
/// A memory graph within every bound, with unique ids and ordered ranges.
pub open spec fn memory_graph_ok(graph: OwnershipMemoryGraph) -> bool {
    &&& graph.nodes.len() <= MAX_OWNERSHIP_GRAPH_NODES
    &&& graph.edges.len() <= MAX_OWNERSHIP_GRAPH_EDGES
    &&& graph.snapshots.len() <= MAX_OWNERSHIP_SNAPSHOTS
    &&& graph.access_paths.len() <= MAX_OWNERSHIP_ACCESS_PATHS
    &&& ids_ok(id_seq(graph.nodes@))
    &&& ids_ok(id_seq(graph.edges@))
    &&& ids_ok(id_seq(graph.snapshots@))
    &&& ids_ok(id_seq(graph.access_paths@))
    &&& forall|i: int| 0 <= i < graph.nodes.len() ==> opt_range_ok(#[trigger] graph.nodes@[i].range)
    &&& forall|i: int| 0 <= i < graph.edges.len() ==> opt_range_ok(#[trigger] graph.edges@[i].range)
    &&& forall|i: int|
        0 <= i < graph.snapshots.len() ==> range_ok((#[trigger] graph.snapshots@[i]).range)
            && graph.snapshots@[i].deltas.len() <= MAX_OWNERSHIP_GRAPH_NODES
    &&& forall|i: int|
        0 <= i < graph.access_paths.len() ==> (#[trigger] graph.access_paths@[i]).steps.len()
            <= 32
}

/// Why a memory node is refused.
pub open spec fn memory_node_error(n: OwnershipMemoryNode) -> Option<ProtocolError> {
    opt_range_error(n.range)
}

/// Why a memory edge is refused.
pub open spec fn memory_edge_error(e: OwnershipMemoryEdge) -> Option<ProtocolError> {
    opt_range_error(e.range)
}

/// Why a memory snapshot is refused.
pub open spec fn memory_snapshot_error(s: OwnershipMemorySnapshot) -> Option<ProtocolError> {
    or_else(range_error(s.range), count_error(s.deltas.len() > MAX_OWNERSHIP_GRAPH_NODES))
}

/// Why an access path is refused.
pub open spec fn access_path_error(a: OwnershipAccessPath) -> Option<ProtocolError> {
    count_error(a.steps.len() > 32)
}

/// Why a memory graph is refused: the first failing check, in the order
/// sizes, unique ids, then each node, edge, snapshot and access path.
pub open spec fn memory_graph_error(graph: OwnershipMemoryGraph) -> Option<ProtocolError> {
    or_else(
        count_error(
            graph.nodes.len() > MAX_OWNERSHIP_GRAPH_NODES || graph.edges.len() > MAX_OWNERSHIP_GRAPH_EDGES
                || graph.snapshots.len() > MAX_OWNERSHIP_SNAPSHOTS || graph.access_paths.len()
                > MAX_OWNERSHIP_ACCESS_PATHS,
        ),
        or_else(
            id_error(id_seq(graph.nodes@)),
            or_else(
                id_error(id_seq(graph.edges@)),
                or_else(
                    id_error(id_seq(graph.snapshots@)),
                    or_else(
                        id_error(id_seq(graph.access_paths@)),
                        or_else(
                            first_error(graph.nodes@, |n: OwnershipMemoryNode| memory_node_error(n)),
                            or_else(
                                first_error(graph.edges@, |x: OwnershipMemoryEdge| memory_edge_error(x)),
                                or_else(
                                    first_error(
                                        graph.snapshots@,
                                        |s: OwnershipMemorySnapshot| memory_snapshot_error(s),
                                    ),
                                    first_error(
                                        graph.access_paths@,
                                        |a: OwnershipAccessPath| access_path_error(a),
                                    ),
                                ),
                            ),
                        ),
                    ),
                ),
            ),
        ),
    )
}

pub fn validate_memory_graph(graph: &OwnershipMemoryGraph) -> (r: Result<(), ProtocolError>)
    ensures
        r is Ok <==> memory_graph_ok(*graph),
        r == as_result(memory_graph_error(*graph)),
{
    if graph.nodes.len() > MAX_OWNERSHIP_GRAPH_NODES || graph.edges.len()
        > MAX_OWNERSHIP_GRAPH_EDGES || graph.snapshots.len() > MAX_OWNERSHIP_SNAPSHOTS
        || graph.access_paths.len() > MAX_OWNERSHIP_ACCESS_PATHS {
        return Err(ProtocolError::TooManyItems);
    }
    if let Err(e) = validate_unique_ids(&graph.nodes) {
        return Err(e);
    }
    if let Err(e) = validate_unique_ids(&graph.edges) {
        return Err(e);
    }
    if let Err(e) = validate_unique_ids(&graph.snapshots) {
        return Err(e);
    }
    if let Err(e) = validate_unique_ids(&graph.access_paths) {
        return Err(e);
    }
    let ghost node_check = |n: OwnershipMemoryNode| memory_node_error(n);
    let mut i: usize = 0;
    assert(graph.nodes@.take(0) =~= Seq::<OwnershipMemoryNode>::empty());
    while i < graph.nodes.len()
        invariant
            graph.nodes.len() <= MAX_OWNERSHIP_GRAPH_NODES && graph.edges.len() <= MAX_OWNERSHIP_GRAPH_EDGES
                && graph.snapshots.len() <= MAX_OWNERSHIP_SNAPSHOTS && graph.access_paths.len()
                <= MAX_OWNERSHIP_ACCESS_PATHS,
            id_error(id_seq(graph.nodes@)) is None && id_error(id_seq(graph.edges@)) is None
                && id_error(id_seq(graph.snapshots@)) is None && id_error(id_seq(graph.access_paths@))
                is None,
            i <= graph.nodes.len(),
            node_check == (|n: OwnershipMemoryNode| memory_node_error(n)),
            first_error(graph.nodes@.take(i as int), node_check) is None,
            forall|k: int| 0 <= k < i ==> opt_range_ok(#[trigger] graph.nodes@[k].range),
        decreases graph.nodes.len() - i,
    {
        proof {
            lemma_first_error_step(graph.nodes@, node_check, i as int);
        }
        if let Err(e) = validate_opt_range(&graph.nodes[i].range) {
            return Err(e);
        }
        i += 1;
    }
    proof {
        lemma_first_error_done(graph.nodes@, node_check);
    }
    let ghost edge_check = |x: OwnershipMemoryEdge| memory_edge_error(x);
    let mut i: usize = 0;
    assert(graph.edges@.take(0) =~= Seq::<OwnershipMemoryEdge>::empty());
    while i < graph.edges.len()
        invariant
            graph.nodes.len() <= MAX_OWNERSHIP_GRAPH_NODES && graph.edges.len() <= MAX_OWNERSHIP_GRAPH_EDGES
                && graph.snapshots.len() <= MAX_OWNERSHIP_SNAPSHOTS && graph.access_paths.len()
                <= MAX_OWNERSHIP_ACCESS_PATHS,
            id_error(id_seq(graph.nodes@)) is None && id_error(id_seq(graph.edges@)) is None
                && id_error(id_seq(graph.snapshots@)) is None && id_error(id_seq(graph.access_paths@))
                is None,
            i <= graph.edges.len(),
            node_check == (|n: OwnershipMemoryNode| memory_node_error(n)),
            edge_check == (|x: OwnershipMemoryEdge| memory_edge_error(x)),
            first_error(graph.nodes@, node_check) is None,
            first_error(graph.edges@.take(i as int), edge_check) is None,
            forall|k: int| 0 <= k < i ==> opt_range_ok(#[trigger] graph.edges@[k].range),
        decreases graph.edges.len() - i,
    {
        proof {
            lemma_first_error_step(graph.edges@, edge_check, i as int);
        }
        if let Err(e) = validate_opt_range(&graph.edges[i].range) {
            return Err(e);
        }
        i += 1;
    }
    proof {
        lemma_first_error_done(graph.edges@, edge_check);
    }
    let ghost snapshot_check = |s: OwnershipMemorySnapshot| memory_snapshot_error(s);
    let mut i: usize = 0;
    assert(graph.snapshots@.take(0) =~= Seq::<OwnershipMemorySnapshot>::empty());
    while i < graph.snapshots.len()
        invariant
            graph.nodes.len() <= MAX_OWNERSHIP_GRAPH_NODES && graph.edges.len() <= MAX_OWNERSHIP_GRAPH_EDGES
                && graph.snapshots.len() <= MAX_OWNERSHIP_SNAPSHOTS && graph.access_paths.len()
                <= MAX_OWNERSHIP_ACCESS_PATHS,
            id_error(id_seq(graph.nodes@)) is None && id_error(id_seq(graph.edges@)) is None
                && id_error(id_seq(graph.snapshots@)) is None && id_error(id_seq(graph.access_paths@))
                is None,
            i <= graph.snapshots.len(),
            node_check == (|n: OwnershipMemoryNode| memory_node_error(n)),
            edge_check == (|x: OwnershipMemoryEdge| memory_edge_error(x)),
            snapshot_check == (|s: OwnershipMemorySnapshot| memory_snapshot_error(s)),
            first_error(graph.nodes@, node_check) is None,
            first_error(graph.edges@, edge_check) is None,
            first_error(graph.snapshots@.take(i as int), snapshot_check) is None,
            forall|k: int|
                0 <= k < i ==> range_ok((#[trigger] graph.snapshots@[k]).range)
                    && graph.snapshots@[k].deltas.len() <= MAX_OWNERSHIP_GRAPH_NODES,
        decreases graph.snapshots.len() - i,
    {
        proof {
            lemma_first_error_step(graph.snapshots@, snapshot_check, i as int);
        }
        if let Err(e) = validate_range(&graph.snapshots[i].range) {
            return Err(e);
        }
        if graph.snapshots[i].deltas.len() > MAX_OWNERSHIP_GRAPH_NODES {
            return Err(ProtocolError::TooManyItems);
        }
        i += 1;
    }
    proof {
        lemma_first_error_done(graph.snapshots@, snapshot_check);
    }
    let ghost path_check = |a: OwnershipAccessPath| access_path_error(a);
    let mut i: usize = 0;
    assert(graph.access_paths@.take(0) =~= Seq::<OwnershipAccessPath>::empty());
    while i < graph.access_paths.len()
        invariant
            graph.nodes.len() <= MAX_OWNERSHIP_GRAPH_NODES && graph.edges.len() <= MAX_OWNERSHIP_GRAPH_EDGES
                && graph.snapshots.len() <= MAX_OWNERSHIP_SNAPSHOTS && graph.access_paths.len()
                <= MAX_OWNERSHIP_ACCESS_PATHS,
            id_error(id_seq(graph.nodes@)) is None && id_error(id_seq(graph.edges@)) is None
                && id_error(id_seq(graph.snapshots@)) is None && id_error(id_seq(graph.access_paths@))
                is None,
            i <= graph.access_paths.len(),
            node_check == (|n: OwnershipMemoryNode| memory_node_error(n)),
            edge_check == (|x: OwnershipMemoryEdge| memory_edge_error(x)),
            snapshot_check == (|s: OwnershipMemorySnapshot| memory_snapshot_error(s)),
            path_check == (|a: OwnershipAccessPath| access_path_error(a)),
            first_error(graph.nodes@, node_check) is None,
            first_error(graph.edges@, edge_check) is None,
            first_error(graph.snapshots@, snapshot_check) is None,
            first_error(graph.access_paths@.take(i as int), path_check) is None,
            forall|k: int|
                0 <= k < i ==> (#[trigger] graph.access_paths@[k]).steps.len() <= 32,
        decreases graph.access_paths.len() - i,
    {
        proof {
            lemma_first_error_step(graph.access_paths@, path_check, i as int);
        }
        if graph.access_paths[i].steps.len() > 32 {
            return Err(ProtocolError::TooManyItems);
        }
        i += 1;
    }
    proof {
        lemma_first_error_done(graph.access_paths@, path_check);
    }
    Ok(())
}

// ---------------------------------------------------------------------------
// Problem lists
// ---------------------------------------------------------------------------
pub open spec fn problems_status_known(status: Seq<char>) -> bool {
    status == "ready"@ || status == "waiting_for_compiler"@ || status
        == "rust_analyzer_unavailable"@
}

pub open spec fn problem_ok(problem: OwnershipProblem) -> bool {
    &&& range_ok(problem.primary_range)
    &&& range_ok(problem.binding_range)
    &&& problem.related_ranges.len() <= 64
    &&& problem.related.len() <= 64
    &&& forall|k: int|
        0 <= k < problem.related_ranges.len() ==> range_ok(#[trigger] problem.related_ranges@[k])
    &&& forall|k: int|
        0 <= k < problem.related.len() ==> range_ok((#[trigger] problem.related@[k]).range)
            && text_ok(problem.related@[k].message)
    &&& text_ok(problem.message)
}

/// A problem list that the panel may show.
pub open spec fn problems_ok(result: OwnershipProblems) -> bool {
    &&& problems_status_known(result.status@)
    &&& schema_ok(result.schema_version, 7, result.status@ == "rust_analyzer_unavailable"@)
    &&& result.problems.len() <= MAX_OWNERSHIP_PROBLEMS
    &&& ids_ok(id_seq(result.problems@))
    &&& forall|i: int| 0 <= i < result.problems.len() ==> problem_ok(#[trigger] result.problems@[i])
}

/// Why a related note is refused.
pub open spec fn related_error(x: OwnershipProblemRelated) -> Option<ProtocolError> {
    or_else(range_error(x.range), text_error(x.message))
}

/// Why a problem is refused: its ranges, its list sizes, each related range
/// and note, then its message.
pub open spec fn problem_error(problem: OwnershipProblem) -> Option<ProtocolError> {
    or_else(
        range_error(problem.primary_range),
        or_else(
            range_error(problem.binding_range),
            or_else(
                count_error(problem.related_ranges.len() > 64 || problem.related.len() > 64),
                or_else(
                    first_error(problem.related_ranges@, |x: Range| range_error(x)),
                    or_else(
                        first_error(problem.related@, |x: OwnershipProblemRelated| related_error(x)),
                        text_error(problem.message),
                    ),
                ),
            ),
        ),
    )
}

/// Why a problem list is refused: an unknown status, the schema, its size,
/// its ids, then each problem.
pub open spec fn problems_error(result: OwnershipProblems) -> Option<ProtocolError> {
    if !problems_status_known(result.status@) {
        Some(ProtocolError::UnknownStatus)
    } else {
        or_else(
            schema_error(result.schema_version, 7, result.status@ == "rust_analyzer_unavailable"@),
            or_else(
                count_error(result.problems.len() > MAX_OWNERSHIP_PROBLEMS),
                or_else(
                    id_error(id_seq(result.problems@)),
                    first_error(result.problems@, |p: OwnershipProblem| problem_error(p)),
                ),
            ),
        )
    }
}

fn validate_problem(problem: &OwnershipProblem) -> (r: Result<(), ProtocolError>)
    ensures
        r is Ok <==> problem_ok(*problem),
        r != Err::<(), ProtocolError>(ProtocolError::UnknownStatus),
        r == as_result(problem_error(*problem)),
{
    if let Err(e) = validate_range(&problem.primary_range) {
        return Err(e);
    }
    if let Err(e) = validate_range(&problem.binding_range) {
        return Err(e);
    }
    if problem.related_ranges.len() > 64 || problem.related.len() > 64 {
        return Err(ProtocolError::TooManyItems);
    }
    let ghost range_check = |x: Range| range_error(x);
    let mut k: usize = 0;
    assert(problem.related_ranges@.take(0) =~= Seq::<Range>::empty());
    while k < problem.related_ranges.len()
        invariant
            k <= problem.related_ranges.len(),
            range_check == (|x: Range| range_error(x)),
            range_ok(problem.primary_range) && range_ok(problem.binding_range),
            problem.related_ranges.len() <= 64 && problem.related.len() <= 64,
            first_error(problem.related_ranges@.take(k as int), range_check) is None,
            forall|m: int| 0 <= m < k ==> range_ok(#[trigger] problem.related_ranges@[m]),
        decreases problem.related_ranges.len() - k,
    {
        proof {
            lemma_first_error_step(problem.related_ranges@, range_check, k as int);
        }
        if let Err(e) = validate_range(&problem.related_ranges[k]) {
            return Err(e);
        }
        k += 1;
    }
    proof {
        lemma_first_error_done(problem.related_ranges@, range_check);
    }
    let ghost related_check = |x: OwnershipProblemRelated| related_error(x);
    let mut k: usize = 0;
    assert(problem.related@.take(0) =~= Seq::<OwnershipProblemRelated>::empty());
    while k < problem.related.len()
        invariant
            k <= problem.related.len(),
            range_check == (|x: Range| range_error(x)),
            related_check == (|x: OwnershipProblemRelated| related_error(x)),
            range_ok(problem.primary_range) && range_ok(problem.binding_range),
            problem.related_ranges.len() <= 64 && problem.related.len() <= 64,
            first_error(problem.related_ranges@, range_check) is None,
            forall|m: int| 0 <= m < problem.related_ranges.len() ==> range_ok(#[trigger] problem.related_ranges@[m]),
            first_error(problem.related@.take(k as int), related_check) is None,
            forall|m: int|
                0 <= m < k ==> range_ok((#[trigger] problem.related@[m]).range) && text_ok(
                    problem.related@[m].message,
                ),
        decreases problem.related.len() - k,
    {
        proof {
            lemma_first_error_step(problem.related@, related_check, k as int);
        }
        if let Err(e) = validate_range(&problem.related[k].range) {
            return Err(e);
        }
        if let Err(e) = validate_text(&problem.related[k].message) {
            return Err(e);
        }
        k += 1;
    }
    proof {
        lemma_first_error_done(problem.related@, related_check);
    }
    validate_text(&problem.message)
}

pub fn validate_ownership_problems(result: &OwnershipProblems) -> (r: Result<(), ProtocolError>)
    ensures
        r is Ok <==> problems_ok(*result),
        r == Err::<(), ProtocolError>(ProtocolError::UnknownStatus) <==> !problems_status_known(
            result.status@,
        ),
        r == as_result(problems_error(*result)),
{
    let unavailable = str_eq(result.status.as_str(), "rust_analyzer_unavailable");
    if !(str_eq(result.status.as_str(), "ready") || str_eq(
        result.status.as_str(),
        "waiting_for_compiler",
    ) || unavailable) {
        return Err(ProtocolError::UnknownStatus);
    }
    if let Err(e) = validate_schema(result.schema_version, 7, unavailable) {
        return Err(e);
    }
    if result.problems.len() > MAX_OWNERSHIP_PROBLEMS {
        return Err(ProtocolError::TooManyItems);
    }
    if let Err(e) = validate_unique_ids(&result.problems) {
        return Err(e);
    }
    let ghost problem_check = |p: OwnershipProblem| problem_error(p);
    let mut i: usize = 0;
    assert(result.problems@.take(0) =~= Seq::<OwnershipProblem>::empty());
    while i < result.problems.len()
        invariant
            i <= result.problems.len(),
            problem_check == (|p: OwnershipProblem| problem_error(p)),
            problems_status_known(result.status@),
            schema_error(result.schema_version, 7, result.status@ == "rust_analyzer_unavailable"@)
                is None,
            schema_ok(result.schema_version, 7, result.status@ == "rust_analyzer_unavailable"@),
            result.problems.len() <= MAX_OWNERSHIP_PROBLEMS,
            id_error(id_seq(result.problems@)) is None,
            ids_ok(id_seq(result.problems@)),
            first_error(result.problems@.take(i as int), problem_check) is None,
            forall|k: int| 0 <= k < i ==> problem_ok(#[trigger] result.problems@[k]),
        decreases result.problems.len() - i,
    {
        proof {
            lemma_first_error_step(result.problems@, problem_check, i as int);
        }
        if let Err(e) = validate_problem(&result.problems[i]) {
            return Err(e);
        }
        i += 1;
    }
    proof {
        lemma_first_error_done(result.problems@, problem_check);
    }
    Ok(())
}

// ---------------------------------------------------------------------------
// Workspace guides
// ---------------------------------------------------------------------------
pub open spec fn guide_status_known(status: Seq<char>) -> bool {
    status == "ready"@ || status == "ready_empty"@ || status == "refreshed"@ || status
        == "rust_analyzer_unavailable"@
}

pub open spec fn cluster_ok(cluster: OwnershipProblemCluster) -> bool {
    &&& cluster.impacts.len() <= 64
    &&& cluster.related_constraints.len() <= 64
    &&& range_ok(cluster.root.location.range)
    &&& forall|k: int|
        0 <= k < cluster.impacts.len() ==> range_ok(
            (#[trigger] cluster.impacts@[k]).location.range,
        )
    &&& forall|k: int|
        0 <= k < cluster.related_constraints.len() ==> range_ok(
            (#[trigger] cluster.related_constraints@[k]).location.range,
        )
}

/// A workspace guide that the panel may show.
pub open spec fn guide_ok(result: OwnershipWorkspaceGuide) -> bool {
    &&& guide_status_known(result.status@)
    &&& schema_ok(result.schema_version, 1, result.status@ == "rust_analyzer_unavailable"@)
    &&& result.clusters.len() <= MAX_OWNERSHIP_WORKSPACE_CLUSTERS
    &&& result.journey.len() <= 64
    &&& ids_ok(id_seq(result.clusters@))
    &&& ids_ok(id_seq(result.journey@))
    &&& forall|i: int| 0 <= i < result.clusters.len() ==> cluster_ok(#[trigger] result.clusters@[i])
    &&& forall|i: int|
        0 <= i < result.journey.len() ==> range_ok((#[trigger] result.journey@[i]).location.range)
    &&& match result.intent_question {
        Some(question) => question.choices.len() <= 16,
        None => true,
    }
}

/// Why a site is refused.
pub open spec fn site_error(s: OwnershipWorkspaceSite) -> Option<ProtocolError> {
    range_error(s.location.range)
}

/// Why a problem cluster is refused: its list sizes, its root, then each
/// impact and related constraint.
pub open spec fn cluster_error(c: OwnershipProblemCluster) -> Option<ProtocolError> {
    or_else(
        count_error(c.impacts.len() > 64 || c.related_constraints.len() > 64),
        or_else(
            range_error(c.root.location.range),
            or_else(
                first_error(c.impacts@, |s: OwnershipWorkspaceSite| site_error(s)),
                first_error(c.related_constraints@, |s: OwnershipWorkspaceSite| site_error(s)),
            ),
        ),
    )
}

/// Why a journey frame is refused.
pub open spec fn frame_error(f: OwnershipJourneyFrame) -> Option<ProtocolError> {
    range_error(f.location.range)
}

/// Why a workspace guide is refused: an unknown status, the schema, its
/// sizes, its ids, each cluster, each journey frame, then the question.
pub open spec fn guide_error(result: OwnershipWorkspaceGuide) -> Option<ProtocolError> {
    if !guide_status_known(result.status@) {
        Some(ProtocolError::UnknownStatus)
    } else {
        or_else(
            schema_error(result.schema_version, 1, result.status@ == "rust_analyzer_unavailable"@),
            or_else(
                count_error(
                    result.clusters.len() > MAX_OWNERSHIP_WORKSPACE_CLUSTERS || result.journey.len() > 64,
                ),
                or_else(
                    id_error(id_seq(result.clusters@)),
                    or_else(
                        id_error(id_seq(result.journey@)),
                        or_else(
                            first_error(result.clusters@, |c: OwnershipProblemCluster| cluster_error(c)),
                            or_else(
                                first_error(result.journey@, |f: OwnershipJourneyFrame| frame_error(f)),
                                match result.intent_question {
                                    Some(question) => count_error(question.choices.len() > 16),
                                    None => None,
                                },
                            ),
                        ),
                    ),
                ),
            ),
        )
    }
}

fn validate_sites(sites: &Vec<OwnershipWorkspaceSite>) -> (r: Result<(), ProtocolError>)
    ensures
        r != Err::<(), ProtocolError>(ProtocolError::UnknownStatus),
        r is Ok <==> forall|k: int|
            0 <= k < sites.len() ==> range_ok((#[trigger] sites@[k]).location.range),
        r == as_result(first_error(sites@, |s: OwnershipWorkspaceSite| site_error(s))),
{
    let ghost site_check = |s: OwnershipWorkspaceSite| site_error(s);
    let mut k: usize = 0;
    assert(sites@.take(0) =~= Seq::<OwnershipWorkspaceSite>::empty());
    while k < sites.len()
        invariant
            k <= sites.len(),
            site_check == (|s: OwnershipWorkspaceSite| site_error(s)),
            first_error(sites@.take(k as int), site_check) is None,
            forall|m: int| 0 <= m < k ==> range_ok((#[trigger] sites@[m]).location.range),
        decreases sites.len() - k,
    {
        proof {
            lemma_first_error_step(sites@, site_check, k as int);
        }
        if let Err(e) = validate_range(&sites[k].location.range) {
            return Err(e);
        }
        k += 1;
    }
    proof {
        lemma_first_error_done(sites@, site_check);
    }
    Ok(())
}

fn validate_cluster(cluster: &OwnershipProblemCluster) -> (r: Result<(), ProtocolError>)
    ensures
        r is Ok <==> cluster_ok(*cluster),
        r == as_result(cluster_error(*cluster)),
        r != Err::<(), ProtocolError>(ProtocolError::UnknownStatus),
{
    if cluster.impacts.len() > 64 || cluster.related_constraints.len() > 64 {
        return Err(ProtocolError::TooManyItems);
    }
    if let Err(e) = validate_range(&cluster.root.location.range) {
        return Err(e);
    }
    if let Err(e) = validate_sites(&cluster.impacts) {
        return Err(e);
    }
    validate_sites(&cluster.related_constraints)
}

pub fn validate_workspace_guide(result: &OwnershipWorkspaceGuide) -> (r: Result<(), ProtocolError>)
    ensures
        r is Ok <==> guide_ok(*result),
        r == Err::<(), ProtocolError>(ProtocolError::UnknownStatus) <==> !guide_status_known(
            result.status@,
        ),
        r == as_result(guide_error(*result)),
{
    let unavailable = str_eq(result.status.as_str(), "rust_analyzer_unavailable");
    if !(str_eq(result.status.as_str(), "ready") || str_eq(result.status.as_str(), "ready_empty")
        || str_eq(result.status.as_str(), "refreshed") || unavailable) {
        return Err(ProtocolError::UnknownStatus);
    }
    if let Err(e) = validate_schema(result.schema_version, 1, unavailable) {
        return Err(e);
    }
    if result.clusters.len() > MAX_OWNERSHIP_WORKSPACE_CLUSTERS || result.journey.len() > 64 {
        return Err(ProtocolError::TooManyItems);
    }
    if let Err(e) = validate_unique_ids(&result.clusters) {
        return Err(e);
    }
    if let Err(e) = validate_unique_ids(&result.journey) {
        return Err(e);
    }
    let ghost cluster_check = |c: OwnershipProblemCluster| cluster_error(c);
    let mut i: usize = 0;
    assert(result.clusters@.take(0) =~= Seq::<OwnershipProblemCluster>::empty());
    while i < result.clusters.len()
        invariant
            i <= result.clusters.len(),
            cluster_check == (|c: OwnershipProblemCluster| cluster_error(c)),
            guide_status_known(result.status@),
            schema_error(result.schema_version, 1, result.status@ == "rust_analyzer_unavailable"@)
                is None,
            schema_ok(result.schema_version, 1, result.status@ == "rust_analyzer_unavailable"@),
            result.clusters.len() <= MAX_OWNERSHIP_WORKSPACE_CLUSTERS && result.journey.len() <= 64,
            id_error(id_seq(result.clusters@)) is None && id_error(id_seq(result.journey@)) is None,
            ids_ok(id_seq(result.clusters@)) && ids_ok(id_seq(result.journey@)),
            first_error(result.clusters@.take(i as int), cluster_check) is None,
            forall|k: int| 0 <= k < i ==> cluster_ok(#[trigger] result.clusters@[k]),
        decreases result.clusters.len() - i,
    {
        proof {
            lemma_first_error_step(result.clusters@, cluster_check, i as int);
        }
        if let Err(e) = validate_cluster(&result.clusters[i]) {
            return Err(e);
        }
        i += 1;
    }
    proof {
        lemma_first_error_done(result.clusters@, cluster_check);
    }
    let ghost frame_check = |f: OwnershipJourneyFrame| frame_error(f);
    let mut i: usize = 0;
    assert(result.journey@.take(0) =~= Seq::<OwnershipJourneyFrame>::empty());
    while i < result.journey.len()
        invariant
            i <= result.journey.len(),
            cluster_check == (|c: OwnershipProblemCluster| cluster_error(c)),
            frame_check == (|f: OwnershipJourneyFrame| frame_error(f)),
            guide_status_known(result.status@),
            schema_error(result.schema_version, 1, result.status@ == "rust_analyzer_unavailable"@)
                is None,
            schema_ok(result.schema_version, 1, result.status@ == "rust_analyzer_unavailable"@),
            result.clusters.len() <= MAX_OWNERSHIP_WORKSPACE_CLUSTERS && result.journey.len() <= 64,
            id_error(id_seq(result.clusters@)) is None && id_error(id_seq(result.journey@)) is None,
            ids_ok(id_seq(result.clusters@)) && ids_ok(id_seq(result.journey@)),
            first_error(result.clusters@, cluster_check) is None,
            forall|k: int| 0 <= k < result.clusters.len() ==> cluster_ok(#[trigger] result.clusters@[k]),
            first_error(result.journey@.take(i as int), frame_check) is None,
            forall|k: int| 0 <= k < i ==> range_ok((#[trigger] result.journey@[k]).location.range),
        decreases result.journey.len() - i,
    {
        proof {
            lemma_first_error_step(result.journey@, frame_check, i as int);
        }
        if let Err(e) = validate_range(&result.journey[i].location.range) {
            return Err(e);
        }
        i += 1;
    }
    proof {
        lemma_first_error_done(result.journey@, frame_check);
    }
    if let Some(question) = &result.intent_question {
        if question.choices.len() > 16 {
            return Err(ProtocolError::TooManyItems);
        }
    }
    Ok(())
}

// ---------------------------------------------------------------------------
// Ownership models
// ---------------------------------------------------------------------------
pub open spec fn model_status_known(status: Seq<char>) -> bool {
    status == "ready"@ || status == "waiting_for_compiler"@ || status
        == "rust_analyzer_unavailable"@
}

/// Every list of the model within its bound.
pub open spec fn model_sizes_ok(m: OwnershipModel) -> bool {
    &&& m.events.len() <= MAX_OWNERSHIP_EVENTS
    &&& m.value_trace.len() <= 64
    &&& m.bodies.len() <= MAX_OWNERSHIP_BODIES
    &&& m.bindings.len() <= MAX_OWNERSHIP_BINDINGS
    &&& m.loans.len() <= MAX_OWNERSHIP_LOANS
    &&& m.operations.len() <= MAX_OWNERSHIP_OPERATIONS
    &&& m.repairs.len() <= MAX_OWNERSHIP_REPAIRS
}

/// Events, trace steps, bodies, bindings and loans are well formed.
pub open spec fn model_timeline_ok(m: OwnershipModel) -> bool {
    &&& forall|i: int|
        0 <= i < m.events.len() ==> range_ok((#[trigger] m.events@[i]).range) && range_ok(
            m.events@[i].binding_range,
        )
    &&& forall|i: int| 0 <= i < m.value_trace.len() ==> range_ok((#[trigger] m.value_trace@[i]).range)
    &&& forall|i: int|
        0 <= i < m.bodies.len() ==> {
            let body = #[trigger] m.bodies@[i];
            &&& range_ok(body.range)
            &&& body.blocks.len() <= 512
            &&& forall|k: int|
                0 <= k < body.blocks.len() ==> range_ok((#[trigger] body.blocks@[k]).range)
                    && body.blocks@[k].successors.len() <= 32
        }
    &&& forall|i: int|
        0 <= i < m.bindings.len() ==> range_ok((#[trigger] m.bindings@[i]).range)
            && m.bindings@[i].memory_layers.len() <= 32
    &&& forall|i: int|
        0 <= i < m.loans.len() ==> {
            let loan = #[trigger] m.loans@[i];
            &&& range_ok(loan.reserve.range)
            &&& match loan.activation {
                Some(a) => range_ok(a.range),
                None => true,
            }
            &&& loan.live_points.len() <= 512
            &&& loan.end_points.len() <= 512
        }
}

/// Operations and repairs are well formed.
pub open spec fn model_actions_ok(m: OwnershipModel) -> bool {
    &&& forall|i: int|
        0 <= i < m.operations.len() ==> {
            let op = #[trigger] m.operations@[i];
            &&& range_ok(op.range)
            &&& op.argument_flows.len() <= 32
            &&& op.effects.len() <= 64
            &&& op.effect_facts.len() <= 64
            &&& op.alternatives.len() <= 32
        }
    &&& forall|i: int|
        0 <= i < m.repairs.len() ==> {
            let repair = #[trigger] m.repairs@[i];
            &&& text_ok(repair.diff)
            &&& repair.affected_files.len() <= 64
            &&& match repair.preview_graph {
                Some(graph) => memory_graph_ok(graph),
                None => true,
            }
        }
}

/// The optional parts of the model are well formed.
pub open spec fn model_extras_ok(m: OwnershipModel) -> bool {
    &&& memory_graph_ok(m.memory_graph)
    &&& match m.conflict_graph {
        Some(graph) => {
            &&& graph.nodes.len() <= 64
            &&& graph.edges.len() <= 96
            &&& graph.snapshots.len() <= 64
            &&& ids_ok(id_seq(graph.nodes@))
            &&& forall|k: int|
                0 <= k < graph.nodes.len() ==> opt_range_ok((#[trigger] graph.nodes@[k]).range)
            &&& forall|k: int|
                0 <= k < graph.snapshots.len() ==> range_ok((#[trigger] graph.snapshots@[k]).range)
                    && graph.snapshots@[k].states.len() <= 64
        },
        None => true,
    }
    &&& match m.source_context {
        Some(context) => {
            &&& context.breadcrumbs.len() <= 64
            &&& context.call_paths.len() <= 64
            &&& context.related_types.len() <= 64
            &&& forall|k: int|
                0 <= k < context.call_paths.len() ==> (#[trigger] context.call_paths@[k]).len()
                    <= 32
        },
        None => true,
    }
    &&& match m.c_sketch {
        Some(sketch) => text_ok(sketch.code),
        None => true,
    }
}

/// An ownership model that the panel may show.
pub open spec fn model_ok(m: OwnershipModel) -> bool {
    &&& model_status_known(m.status@)
    &&& schema_ok(m.schema_version, 14, m.status@ == "rust_analyzer_unavailable"@)
    &&& m.compiler_schema_version <= 7
    &&& model_sizes_ok(m)
    &&& ids_ok(id_seq(m.events@))
    &&& ids_ok(id_seq(m.repairs@))
    &&& model_timeline_ok(m)
    &&& model_actions_ok(m)
    &&& model_extras_ok(m)
}

/// Why an event is refused.
pub open spec fn event_error(ev: OwnershipEvent) -> Option<ProtocolError> {
    or_else(range_error(ev.range), range_error(ev.binding_range))
}

/// Why a value trace step is refused.
pub open spec fn trace_error(step: OwnershipValueTraceStep) -> Option<ProtocolError> {
    range_error(step.range)
}

/// Why a block is refused.
pub open spec fn block_error(block: OwnershipBlock) -> Option<ProtocolError> {
    or_else(range_error(block.range), count_error(block.successors.len() > 32))
}

/// Why a body is refused: its range, its size, then each block.
pub open spec fn body_error(body: OwnershipBody) -> Option<ProtocolError> {
    or_else(
        range_error(body.range),
        or_else(
            count_error(body.blocks.len() > 512),
            first_error(body.blocks@, |b: OwnershipBlock| block_error(b)),
        ),
    )
}

/// Why a binding is refused.
pub open spec fn binding_error(binding: OwnershipBinding) -> Option<ProtocolError> {
    or_else(range_error(binding.range), count_error(binding.memory_layers.len() > 32))
}

/// Why a loan is refused.
pub open spec fn loan_error(loan: OwnershipLoan) -> Option<ProtocolError> {
    or_else(
        range_error(loan.reserve.range),
        or_else(
            match loan.activation {
                Some(a) => range_error(a.range),
                None => None,
            },
            count_error(loan.live_points.len() > 512 || loan.end_points.len() > 512),
        ),
    )
}

/// Why the model's timeline is refused: each event, trace step, body,
/// binding and loan, in that order.
pub open spec fn timeline_error(m: OwnershipModel) -> Option<ProtocolError> {
    or_else(
        first_error(m.events@, |x: OwnershipEvent| event_error(x)),
        or_else(
            first_error(m.value_trace@, |x: OwnershipValueTraceStep| trace_error(x)),
            or_else(
                first_error(m.bodies@, |x: OwnershipBody| body_error(x)),
                or_else(
                    first_error(m.bindings@, |x: OwnershipBinding| binding_error(x)),
                    first_error(m.loans@, |x: OwnershipLoan| loan_error(x)),
                ),
            ),
        ),
    )
}

/// Why an operation is refused.
pub open spec fn operation_error(op: OwnershipOperationInsight) -> Option<ProtocolError> {
    or_else(
        range_error(op.range),
        count_error(
            op.argument_flows.len() > 32 || op.effects.len() > 64 || op.effect_facts.len() > 64
                || op.alternatives.len() > 32,
        ),
    )
}

/// Why a repair is refused: its diff, its files, then its preview graph.
pub open spec fn repair_error(repair: OwnershipRepair) -> Option<ProtocolError> {
    or_else(
        text_error(repair.diff),
        or_else(
            count_error(repair.affected_files.len() > 64),
            match repair.preview_graph {
                Some(graph) => memory_graph_error(graph),
                None => None,
            },
        ),
    )
}

/// Why the model's operations and repairs are refused.
pub open spec fn actions_error(m: OwnershipModel) -> Option<ProtocolError> {
    or_else(
        first_error(m.operations@, |x: OwnershipOperationInsight| operation_error(x)),
        first_error(m.repairs@, |x: OwnershipRepair| repair_error(x)),
    )
}

/// Why a conflict node is refused.
pub open spec fn conflict_node_error(n: OwnershipConflictNode) -> Option<ProtocolError> {
    opt_range_error(n.range)
}

/// Why a conflict snapshot is refused.
pub open spec fn conflict_snapshot_error(s: OwnershipConflictSnapshot) -> Option<ProtocolError> {
    or_else(range_error(s.range), count_error(s.states.len() > 64))
}

/// Why a call path is refused.
pub open spec fn call_path_error(path: Vec<String>) -> Option<ProtocolError> {
    count_error(path.len() > 32)
}

/// Why the conflict graph is refused: its sizes, its node ids, then each
/// node and snapshot.
pub open spec fn conflict_graph_error(m: OwnershipModel) -> Option<ProtocolError> {
    match m.conflict_graph {
        Some(graph) => or_else(
            count_error(graph.nodes.len() > 64 || graph.edges.len() > 96 || graph.snapshots.len() > 64),
            or_else(
                id_error(id_seq(graph.nodes@)),
                or_else(
                    first_error(graph.nodes@, |x: OwnershipConflictNode| conflict_node_error(x)),
                    first_error(graph.snapshots@, |x: OwnershipConflictSnapshot| conflict_snapshot_error(x)),
                ),
            ),
        ),
        None => None,
    }
}

/// Why the optional parts of the model are refused: the memory graph, the
/// conflict graph, the source context, then the code sketch.
pub open spec fn extras_error(m: OwnershipModel) -> Option<ProtocolError> {
    or_else(
        memory_graph_error(m.memory_graph),
        or_else(
            conflict_graph_error(m),
            or_else(
                match m.source_context {
                    Some(context) => or_else(
                        count_error(
                            context.breadcrumbs.len() > 64 || context.call_paths.len() > 64
                                || context.related_types.len() > 64,
                        ),
                        first_error(context.call_paths@, |p: Vec<String>| call_path_error(p)),
                    ),
                    None => None,
                },
                match m.c_sketch {
                    Some(sketch) => text_error(sketch.code),
                    None => None,
                },
            ),
        ),
    )
}

/// Why an ownership model is refused: an unknown status, the schemas, its
/// sizes, its ids, its timeline, its actions, then its optional parts.
pub open spec fn model_error(m: OwnershipModel) -> Option<ProtocolError> {
    if !model_status_known(m.status@) {
        Some(ProtocolError::UnknownStatus)
    } else {
        or_else(
            schema_error(m.schema_version, 14, m.status@ == "rust_analyzer_unavailable"@),
            or_else(
                if m.compiler_schema_version > 7 {
                    Some(ProtocolError::SchemaTooNew)
                } else {
                    None
                },
                or_else(
                    count_error(!model_sizes_ok(m)),
                    or_else(
                        id_error(id_seq(m.events@)),
                        or_else(
                            id_error(id_seq(m.repairs@)),
                            or_else(timeline_error(m), or_else(actions_error(m), extras_error(m))),
                        ),
                    ),
                ),
            ),
        )
    }
}

fn validate_body(body: &OwnershipBody) -> (r: Result<(), ProtocolError>)
    ensures
        r == as_result(body_error(*body)),
        r != Err::<(), ProtocolError>(ProtocolError::UnknownStatus),
        r is Ok <==> {
            &&& range_ok(body.range)
            &&& body.blocks.len() <= 512
            &&& forall|b: int|
                0 <= b < body.blocks.len() ==> range_ok((#[trigger] body.blocks@[b]).range)
                    && body.blocks@[b].successors.len() <= 32
        },
{
    if let Err(e) = validate_range(&body.range) {
        return Err(e);
    }
    if body.blocks.len() > 512 {
        return Err(ProtocolError::TooManyItems);
    }
    let ghost check = |b: OwnershipBlock| block_error(b);
    let mut b: usize = 0;
    assert(body.blocks@.take(0) =~= Seq::<OwnershipBlock>::empty());
    while b < body.blocks.len()
        invariant
            b <= body.blocks.len(),
            check == (|x: OwnershipBlock| block_error(x)),
            range_ok(body.range) && body.blocks.len() <= 512,
            first_error(body.blocks@.take(b as int), check) is None,
            forall|c: int|
                0 <= c < b ==> range_ok((#[trigger] body.blocks@[c]).range)
                    && body.blocks@[c].successors.len() <= 32,
        decreases body.blocks.len() - b,
    {
        proof {
            lemma_first_error_step(body.blocks@, check, b as int);
        }
        if let Err(e) = validate_range(&body.blocks[b].range) {
            return Err(e);
        }
        if body.blocks[b].successors.len() > 32 {
            return Err(ProtocolError::TooManyItems);
        }
        b += 1;
    }
    proof {
        lemma_first_error_done(body.blocks@, check);
    }
    Ok(())
}

fn validate_model_timeline(m: &OwnershipModel) -> (r: Result<(), ProtocolError>)
    ensures
        r is Ok <==> model_timeline_ok(*m),
        r != Err::<(), ProtocolError>(ProtocolError::UnknownStatus),
        r == as_result(timeline_error(*m)),
{
    let ghost c1 = |x: OwnershipEvent| event_error(x);
    let ghost c2 = |x: OwnershipValueTraceStep| trace_error(x);
    let ghost c3 = |x: OwnershipBody| body_error(x);
    let ghost c4 = |x: OwnershipBinding| binding_error(x);
    let ghost c5 = |x: OwnershipLoan| loan_error(x);
    let mut i: usize = 0;
    assert(m.events@.take(0) =~= Seq::<OwnershipEvent>::empty());
    while i < m.events.len()
        invariant
            i <= m.events.len(),
            c1 == (|x: OwnershipEvent| event_error(x)),
            first_error(m.events@.take(i as int), c1) is None,
            forall|k: int|
                0 <= k < i ==> range_ok((#[trigger] m.events@[k]).range) && range_ok(
                    m.events@[k].binding_range,
                ),
        decreases m.events.len() - i,
    {
        proof {
            lemma_first_error_step(m.events@, c1, i as int);
        }
        if let Err(e) = validate_range(&m.events[i].range) {
            return Err(e);
        }
        if let Err(e) = validate_range(&m.events[i].binding_range) {
            return Err(e);
        }
        i += 1;
    }
    proof {
        lemma_first_error_done(m.events@, c1);
    }
    let mut i: usize = 0;
    assert(m.value_trace@.take(0) =~= Seq::<OwnershipValueTraceStep>::empty());
    while i < m.value_trace.len()
        invariant
            i <= m.value_trace.len(),
            c1 == (|x: OwnershipEvent| event_error(x)),
            c2 == (|x: OwnershipValueTraceStep| trace_error(x)),
            first_error(m.events@, c1) is None,
            forall|k: int|
                0 <= k < m.events.len() ==> range_ok((#[trigger] m.events@[k]).range) && range_ok(
                    m.events@[k].binding_range,
                ),
            first_error(m.value_trace@.take(i as int), c2) is None,
            forall|k: int| 0 <= k < i ==> range_ok((#[trigger] m.value_trace@[k]).range),
        decreases m.value_trace.len() - i,
    {
        proof {
            lemma_first_error_step(m.value_trace@, c2, i as int);
        }
        if let Err(e) = validate_range(&m.value_trace[i].range) {
            return Err(e);
        }
        i += 1;
    }
    proof {
        lemma_first_error_done(m.value_trace@, c2);
    }
    let mut i: usize = 0;
    assert(m.bodies@.take(0) =~= Seq::<OwnershipBody>::empty());
    while i < m.bodies.len()
        invariant
            i <= m.bodies.len(),
            c1 == (|x: OwnershipEvent| event_error(x)),
            c2 == (|x: OwnershipValueTraceStep| trace_error(x)),
            c3 == (|x: OwnershipBody| body_error(x)),
            first_error(m.events@, c1) is None,
            forall|k: int|
                0 <= k < m.events.len() ==> range_ok((#[trigger] m.events@[k]).range) && range_ok(
                    m.events@[k].binding_range,
                ),
            first_error(m.value_trace@, c2) is None,
            forall|k: int| 0 <= k < m.value_trace.len() ==> range_ok((#[trigger] m.value_trace@[k]).range),
            first_error(m.bodies@.take(i as int), c3) is None,
            forall|k: int|
                0 <= k < i ==> {
                    let body = #[trigger] m.bodies@[k];
                    &&& range_ok(body.range)
                    &&& body.blocks.len() <= 512
                    &&& forall|b: int|
                        0 <= b < body.blocks.len() ==> range_ok((#[trigger] body.blocks@[b]).range)
                            && body.blocks@[b].successors.len() <= 32
                },
        decreases m.bodies.len() - i,
    {
        proof {
            lemma_first_error_step(m.bodies@, c3, i as int);
        }
        if let Err(e) = validate_body(&m.bodies[i]) {
            return Err(e);
        }
        i += 1;
    }
    proof {
        lemma_first_error_done(m.bodies@, c3);
    }
    let mut i: usize = 0;
    assert(m.bindings@.take(0) =~= Seq::<OwnershipBinding>::empty());
    while i < m.bindings.len()
        invariant
            i <= m.bindings.len(),
            c1 == (|x: OwnershipEvent| event_error(x)),
            c2 == (|x: OwnershipValueTraceStep| trace_error(x)),
            c3 == (|x: OwnershipBody| body_error(x)),
            c4 == (|x: OwnershipBinding| binding_error(x)),
            first_error(m.events@, c1) is None,
            forall|k: int|
                0 <= k < m.events.len() ==> range_ok((#[trigger] m.events@[k]).range) && range_ok(
                    m.events@[k].binding_range,
                ),
            first_error(m.value_trace@, c2) is None,
            forall|k: int| 0 <= k < m.value_trace.len() ==> range_ok((#[trigger] m.value_trace@[k]).range),
            first_error(m.bodies@, c3) is None,
            forall|k: int|
                0 <= k < m.bodies.len() ==> {
                    let body = #[trigger] m.bodies@[k];
                    &&& range_ok(body.range)
                    &&& body.blocks.len() <= 512
                    &&& forall|b: int|
                        0 <= b < body.blocks.len() ==> range_ok((#[trigger] body.blocks@[b]).range)
                            && body.blocks@[b].successors.len() <= 32
                },
            first_error(m.bindings@.take(i as int), c4) is None,
            forall|k: int|
                0 <= k < i ==> range_ok((#[trigger] m.bindings@[k]).range)
                    && m.bindings@[k].memory_layers.len() <= 32,
        decreases m.bindings.len() - i,
    {
        proof {
            lemma_first_error_step(m.bindings@, c4, i as int);
        }
        if let Err(e) = validate_range(&m.bindings[i].range) {
            return Err(e);
        }
        if m.bindings[i].memory_layers.len() > 32 {
            return Err(ProtocolError::TooManyItems);
        }
        i += 1;
    }
    proof {
        lemma_first_error_done(m.bindings@, c4);
    }
    let mut i: usize = 0;
    assert(m.loans@.take(0) =~= Seq::<OwnershipLoan>::empty());
    while i < m.loans.len()
        invariant
            i <= m.loans.len(),
            c1 == (|x: OwnershipEvent| event_error(x)),
            c2 == (|x: OwnershipValueTraceStep| trace_error(x)),
            c3 == (|x: OwnershipBody| body_error(x)),
            c4 == (|x: OwnershipBinding| binding_error(x)),
            c5 == (|x: OwnershipLoan| loan_error(x)),
            first_error(m.events@, c1) is None,
            forall|k: int|
                0 <= k < m.events.len() ==> range_ok((#[trigger] m.events@[k]).range) && range_ok(
                    m.events@[k].binding_range,
                ),
            first_error(m.value_trace@, c2) is None,
            forall|k: int| 0 <= k < m.value_trace.len() ==> range_ok((#[trigger] m.value_trace@[k]).range),
            first_error(m.bodies@, c3) is None,
            forall|k: int|
                0 <= k < m.bodies.len() ==> {
                    let body = #[trigger] m.bodies@[k];
                    &&& range_ok(body.range)
                    &&& body.blocks.len() <= 512
                    &&& forall|b: int|
                        0 <= b < body.blocks.len() ==> range_ok((#[trigger] body.blocks@[b]).range)
                            && body.blocks@[b].successors.len() <= 32
                },
            first_error(m.bindings@, c4) is None,
            forall|k: int|
                0 <= k < m.bindings.len() ==> range_ok((#[trigger] m.bindings@[k]).range)
                    && m.bindings@[k].memory_layers.len() <= 32,
            first_error(m.loans@.take(i as int), c5) is None,
            forall|k: int|
                0 <= k < i ==> {
                    let loan = #[trigger] m.loans@[k];
                    &&& range_ok(loan.reserve.range)
                    &&& match loan.activation {
                        Some(a) => range_ok(a.range),
                        None => true,
                    }
                    &&& loan.live_points.len() <= 512
                    &&& loan.end_points.len() <= 512
                },
        decreases m.loans.len() - i,
    {
        proof {
            lemma_first_error_step(m.loans@, c5, i as int);
        }
        let loan = &m.loans[i];
        if let Err(e) = validate_range(&loan.reserve.range) {
            return Err(e);
        }
        if let Some(activation) = &loan.activation {
            if let Err(e) = validate_range(&activation.range) {
                return Err(e);
            }
        }
        if loan.live_points.len() > 512 || loan.end_points.len() > 512 {
            return Err(ProtocolError::TooManyItems);
        }
        i += 1;
    }
    proof {
        lemma_first_error_done(m.loans@, c5);
    }
    Ok(())
}

fn validate_repair(repair: &OwnershipRepair) -> (r: Result<(), ProtocolError>)
    ensures
        r == as_result(repair_error(*repair)),
        r is Ok <==> {
            &&& text_ok(repair.diff)
            &&& repair.affected_files.len() <= 64
            &&& match repair.preview_graph {
                Some(graph) => memory_graph_ok(graph),
                None => true,
            }
        },
{
    if let Err(e) = validate_text(&repair.diff) {
        return Err(e);
    }
    if repair.affected_files.len() > 64 {
        return Err(ProtocolError::TooManyItems);
    }
    if let Some(graph) = &repair.preview_graph {
        return validate_memory_graph(graph);
    }
    Ok(())
}

fn validate_model_actions(m: &OwnershipModel) -> (r: Result<(), ProtocolError>)
    ensures
        r is Ok <==> model_actions_ok(*m),
        r != Err::<(), ProtocolError>(ProtocolError::UnknownStatus),
        r == as_result(actions_error(*m)),
{
    let ghost c1 = |x: OwnershipOperationInsight| operation_error(x);
    let ghost c2 = |x: OwnershipRepair| repair_error(x);
    let mut i: usize = 0;
    assert(m.operations@.take(0) =~= Seq::<OwnershipOperationInsight>::empty());
    while i < m.operations.len()
        invariant
            i <= m.operations.len(),
            c1 == (|x: OwnershipOperationInsight| operation_error(x)),
            first_error(m.operations@.take(i as int), c1) is None,
            forall|k: int|
                0 <= k < i ==> {
                    let op = #[trigger] m.operations@[k];
                    &&& range_ok(op.range)
                    &&& op.argument_flows.len() <= 32
                    &&& op.effects.len() <= 64
                    &&& op.effect_facts.len() <= 64
                    &&& op.alternatives.len() <= 32
                },
        decreases m.operations.len() - i,
    {
        proof {
            lemma_first_error_step(m.operations@, c1, i as int);
        }
        let op = &m.operations[i];
        if let Err(e) = validate_range(&op.range) {
            return Err(e);
        }
        if op.argument_flows.len() > 32 || op.effects.len() > 64 || op.effect_facts.len() > 64
            || op.alternatives.len() > 32 {
            return Err(ProtocolError::TooManyItems);
        }
        i += 1;
    }
    proof {
        lemma_first_error_done(m.operations@, c1);
    }
    let mut i: usize = 0;
    assert(m.repairs@.take(0) =~= Seq::<OwnershipRepair>::empty());
    while i < m.repairs.len()
        invariant
            i <= m.repairs.len(),
            c1 == (|x: OwnershipOperationInsight| operation_error(x)),
            c2 == (|x: OwnershipRepair| repair_error(x)),
            first_error(m.operations@, c1) is None,
            forall|k: int|
                0 <= k < m.operations.len() ==> {
                    let op = #[trigger] m.operations@[k];
                    &&& range_ok(op.range)
                    &&& op.argument_flows.len() <= 32
                    &&& op.effects.len() <= 64
                    &&& op.effect_facts.len() <= 64
                    &&& op.alternatives.len() <= 32
                },
            first_error(m.repairs@.take(i as int), c2) is None,
            forall|k: int|
                0 <= k < i ==> {
                    let repair = #[trigger] m.repairs@[k];
                    &&& text_ok(repair.diff)
                    &&& repair.affected_files.len() <= 64
                    &&& match repair.preview_graph {
                        Some(graph) => memory_graph_ok(graph),
                        None => true,
                    }
                },
        decreases m.repairs.len() - i,
    {
        proof {
            lemma_first_error_step(m.repairs@, c2, i as int);
        }
        let outcome = validate_repair(&m.repairs[i]);
        if let Err(e) = outcome {
            proof {
                lemma_memory_graph_error_kind(m.repairs@[i as int]);
            }
            return Err(e);
        }
        i += 1;
    }
    proof {
        lemma_first_error_done(m.repairs@, c2);
    }
    Ok(())
}

/// A repair is never refused for an unknown status.
proof fn lemma_memory_graph_error_kind(repair: OwnershipRepair)
    ensures
        repair_error(repair) != Some(ProtocolError::UnknownStatus),
{
    if let Some(graph) = repair.preview_graph {
        lemma_graph_error_kind(graph);
    }
}

/// A memory graph is never refused for an unknown status or schema.
proof fn lemma_graph_error_kind(graph: OwnershipMemoryGraph)
    ensures
        memory_graph_error(graph) != Some(ProtocolError::UnknownStatus),
{
    let c = memory_graph_error(graph);
    if c == Some(ProtocolError::UnknownStatus) {
        lemma_first_error_kind(graph.nodes@, |n: OwnershipMemoryNode| memory_node_error(n));
        lemma_first_error_kind(graph.edges@, |x: OwnershipMemoryEdge| memory_edge_error(x));
        lemma_first_error_kind(graph.snapshots@, |s: OwnershipMemorySnapshot| memory_snapshot_error(s));
        lemma_first_error_kind(graph.access_paths@, |a: OwnershipAccessPath| access_path_error(a));
        lemma_id_error_kind(id_seq(graph.nodes@), 0);
        lemma_id_error_kind(id_seq(graph.edges@), 0);
        lemma_id_error_kind(id_seq(graph.snapshots@), 0);
        lemma_id_error_kind(id_seq(graph.access_paths@), 0);
    }
}

/// The first refusal is one of the items' refusals.
proof fn lemma_first_error_kind<T>(items: Seq<T>, check: spec_fn(T) -> Option<ProtocolError>)
    requires
        forall|x: T| #[trigger] check(x) != Some(ProtocolError::UnknownStatus),
    ensures
        first_error(items, check) != Some(ProtocolError::UnknownStatus),
    decreases items.len(),
{
    if items.len() > 0 {
        lemma_first_error_kind(items.drop_first(), check);
    }
}

proof fn lemma_id_error_kind(ids: Seq<Seq<char>>, i: int)
    ensures
        id_error_from(ids, i) != Some(ProtocolError::UnknownStatus),
    decreases ids.len() - i,
{
    if 0 <= i < ids.len() {
        lemma_id_error_kind(ids, i + 1);
    }
}

fn validate_model_extras(m: &OwnershipModel) -> (r: Result<(), ProtocolError>)
    ensures
        r is Ok <==> model_extras_ok(*m),
        r == as_result(extras_error(*m)),
{
    if let Err(e) = validate_memory_graph(&m.memory_graph) {
        return Err(e);
    }
    if let Some(graph) = &m.conflict_graph {
        if graph.nodes.len() > 64 || graph.edges.len() > 96 || graph.snapshots.len() > 64 {
            return Err(ProtocolError::TooManyItems);
        }
        if let Err(e) = validate_unique_ids(&graph.nodes) {
            return Err(e);
        }
        let ghost c1 = |x: OwnershipConflictNode| conflict_node_error(x);
        let ghost c2 = |x: OwnershipConflictSnapshot| conflict_snapshot_error(x);
        let mut k: usize = 0;
        assert(graph.nodes@.take(0) =~= Seq::<OwnershipConflictNode>::empty());
        while k < graph.nodes.len()
            invariant
                m.conflict_graph == Some(*graph),
                k <= graph.nodes.len(),
                c1 == (|x: OwnershipConflictNode| conflict_node_error(x)),
                memory_graph_error(m.memory_graph) is None,
                memory_graph_ok(m.memory_graph),
                graph.nodes.len() <= 64 && graph.edges.len() <= 96 && graph.snapshots.len() <= 64,
                id_error(id_seq(graph.nodes@)) is None,
                ids_ok(id_seq(graph.nodes@)),
                first_error(graph.nodes@.take(k as int), c1) is None,
                forall|c: int| 0 <= c < k ==> opt_range_ok((#[trigger] graph.nodes@[c]).range),
            decreases graph.nodes.len() - k,
        {
            proof {
                lemma_first_error_step(graph.nodes@, c1, k as int);
            }
            if let Err(e) = validate_opt_range(&graph.nodes[k].range) {
                return Err(e);
            }
            k += 1;
        }
        proof {
            lemma_first_error_done(graph.nodes@, c1);
        }
        let mut k: usize = 0;
        assert(graph.snapshots@.take(0) =~= Seq::<OwnershipConflictSnapshot>::empty());
        while k < graph.snapshots.len()
            invariant
                m.conflict_graph == Some(*graph),
                k <= graph.snapshots.len(),
                c1 == (|x: OwnershipConflictNode| conflict_node_error(x)),
                c2 == (|x: OwnershipConflictSnapshot| conflict_snapshot_error(x)),
                memory_graph_error(m.memory_graph) is None,
                memory_graph_ok(m.memory_graph),
                graph.nodes.len() <= 64 && graph.edges.len() <= 96 && graph.snapshots.len() <= 64,
                id_error(id_seq(graph.nodes@)) is None,
                ids_ok(id_seq(graph.nodes@)),
                first_error(graph.nodes@, c1) is None,
                forall|c: int| 0 <= c < graph.nodes.len() ==> opt_range_ok((#[trigger] graph.nodes@[c]).range),
                first_error(graph.snapshots@.take(k as int), c2) is None,
                forall|c: int|
                    0 <= c < k ==> range_ok((#[trigger] graph.snapshots@[c]).range)
                        && graph.snapshots@[c].states.len() <= 64,
            decreases graph.snapshots.len() - k,
        {
            proof {
                lemma_first_error_step(graph.snapshots@, c2, k as int);
            }
            if let Err(e) = validate_range(&graph.snapshots[k].range) {
                return Err(e);
            }
            if graph.snapshots[k].states.len() > 64 {
                return Err(ProtocolError::TooManyItems);
            }
            k += 1;
        }
        proof {
            lemma_first_error_done(graph.snapshots@, c2);
        }
    }
    let ghost conflict_part = conflict_graph_error(*m);
    assert(conflict_part is None);
    if let Some(context) = &m.source_context {
        if context.breadcrumbs.len() > 64 || context.call_paths.len() > 64
            || context.related_types.len() > 64 {
            return Err(ProtocolError::TooManyItems);
        }
        let ghost c3 = |p: Vec<String>| call_path_error(p);
        let mut k: usize = 0;
        assert(context.call_paths@.take(0) =~= Seq::<Vec<String>>::empty());
        while k < context.call_paths.len()
            invariant
                m.source_context == Some(*context),
                k <= context.call_paths.len(),
                c3 == (|p: Vec<String>| call_path_error(p)),
                memory_graph_error(m.memory_graph) is None,
                memory_graph_ok(m.memory_graph),
                conflict_part is None,
                conflict_part == conflict_graph_error(*m),
                model_extras_conflict_ok(*m),
                context.breadcrumbs.len() <= 64 && context.call_paths.len() <= 64
                    && context.related_types.len() <= 64,
                first_error(context.call_paths@.take(k as int), c3) is None,
                forall|c: int| 0 <= c < k ==> (#[trigger] context.call_paths@[c]).len() <= 32,
            decreases context.call_paths.len() - k,
        {
            proof {
                lemma_first_error_step(context.call_paths@, c3, k as int);
            }
            if context.call_paths[k].len() > 32 {
                return Err(ProtocolError::TooManyItems);
            }
            k += 1;
        }
        proof {
            lemma_first_error_done(context.call_paths@, c3);
        }
    }
    if let Some(sketch) = &m.c_sketch {
        return validate_text(&sketch.code);
    }
    Ok(())
}

/// The conflict graph part of `model_extras_ok`.
pub open spec fn model_extras_conflict_ok(m: OwnershipModel) -> bool {
    match m.conflict_graph {
        Some(graph) => {
            &&& graph.nodes.len() <= 64
            &&& graph.edges.len() <= 96
            &&& graph.snapshots.len() <= 64
            &&& ids_ok(id_seq(graph.nodes@))
            &&& forall|k: int|
                0 <= k < graph.nodes.len() ==> opt_range_ok((#[trigger] graph.nodes@[k]).range)
            &&& forall|k: int|
                0 <= k < graph.snapshots.len() ==> range_ok((#[trigger] graph.snapshots@[k]).range)
                    && graph.snapshots@[k].states.len() <= 64
        },
        None => true,
    }
}

pub fn validate_ownership_model(result: &OwnershipModel) -> (r: Result<(), ProtocolError>)
    ensures
        r is Ok <==> model_ok(*result),
        r == Err::<(), ProtocolError>(ProtocolError::UnknownStatus) <==> !model_status_known(
            result.status@,
        ),
        r == as_result(model_error(*result)),
{
    let unavailable = str_eq(result.status.as_str(), "rust_analyzer_unavailable");
    if !(str_eq(result.status.as_str(), "ready") || str_eq(
        result.status.as_str(),
        "waiting_for_compiler",
    ) || unavailable) {
        return Err(ProtocolError::UnknownStatus);
    }
    if let Err(e) = validate_schema(result.schema_version, 14, unavailable) {
        return Err(e);
    }
    if result.compiler_schema_version > 7 {
        return Err(ProtocolError::SchemaTooNew);
    }
    if result.events.len() > MAX_OWNERSHIP_EVENTS || result.value_trace.len() > 64
        || result.bodies.len() > MAX_OWNERSHIP_BODIES || result.bindings.len()
        > MAX_OWNERSHIP_BINDINGS || result.loans.len() > MAX_OWNERSHIP_LOANS
        || result.operations.len() > MAX_OWNERSHIP_OPERATIONS || result.repairs.len()
        > MAX_OWNERSHIP_REPAIRS {
        return Err(ProtocolError::TooManyItems);
    }
    if let Err(e) = validate_unique_ids(&result.events) {
        return Err(e);
    }
    if let Err(e) = validate_unique_ids(&result.repairs) {
        return Err(e);
    }
    if let Err(e) = validate_model_timeline(result) {
        return Err(e);
    }
    if let Err(e) = validate_model_actions(result) {
        return Err(e);
    }
    let outcome = validate_model_extras(result);
    proof {
        if outcome is Err {
            lemma_extras_error_kind(*result);
        }
    }
    outcome
}

/// The optional parts are never refused for an unknown status.
proof fn lemma_extras_error_kind(m: OwnershipModel)
    ensures
        extras_error(m) != Some(ProtocolError::UnknownStatus),
{
    lemma_graph_error_kind(m.memory_graph);
    if let Some(graph) = m.conflict_graph {
        lemma_id_error_kind(id_seq(graph.nodes@), 0);
        lemma_first_error_kind(graph.nodes@, |x: OwnershipConflictNode| conflict_node_error(x));
        lemma_first_error_kind(graph.snapshots@, |x: OwnershipConflictSnapshot| conflict_snapshot_error(x));
    }
    if let Some(context) = m.source_context {
        lemma_first_error_kind(context.call_paths@, |p: Vec<String>| call_path_error(p));
    }
}

} // verus!
