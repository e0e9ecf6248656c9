//! The ownership protocol exchanged with the patched rust-analyzer: request
//! names, response shapes, and the checks a response must pass before the
//! workbench shows it.
use vstd::prelude::*;

verus! {

/// A zero-based line/character position in a text document.
#[derive(Clone, Copy, Debug, Default, PartialEq, Eq, Structural)]
pub struct Position {
    pub line: u32,
    pub character: u32,
}

/// A half-open region between two positions.
#[derive(Clone, Copy, Debug, Default, PartialEq, Eq, Structural)]
pub struct Range {
    pub start: Position,
    pub end: Position,
}

impl Position {
    pub fn new(line: u32, character: u32) -> (p: Position)
        ensures
            p.line == line,
            p.character == character,
    {
        Position { line, character }
    }
}

impl Range {
    pub fn new(start: Position, end: Position) -> (r: Range)
        ensures
            r.start == start,
            r.end == end,
    {
        Range { start, end }
    }
}

/// A document identified by its URI.
#[derive(Clone, Debug, Default)]
pub struct TextDocumentIdentifier {
    pub uri: String,
}

/// A range inside a document.
#[derive(Clone, Debug, Default)]
pub struct Location {
    pub uri: String,
    pub range: Range,
}

/// Request for the ownership model at a cursor position.
pub struct OwnershipModelRequest;

impl OwnershipModelRequest {
    pub fn method() -> (m: &'static str)
        ensures
            m@ == "rust-analyzer/ownershipModel"@,
    {
        "rust-analyzer/ownershipModel"
    }
}

/// Request for every explainable ownership problem in a document.
pub struct OwnershipProblemsRequest;

impl OwnershipProblemsRequest {
    pub fn method() -> (m: &'static str)
        ensures
            m@ == "rust-analyzer/ownershipProblems"@,
    {
        "rust-analyzer/ownershipProblems"
    }
}

/// Request for the workspace-wide guide around a problem.
pub struct OwnershipWorkspaceGuideRequest;

impl OwnershipWorkspaceGuideRequest {
    pub fn method() -> (m: &'static str)
        ensures
            m@ == "rust-analyzer/ownershipWorkspaceGuide"@,
    {
        "rust-analyzer/ownershipWorkspaceGuide"
    }
}

/// Request for the code action of one repair.
pub struct OwnershipRepairRequest;

impl OwnershipRepairRequest {
    pub fn method() -> (m: &'static str)
        ensures
            m@ == "rust-analyzer/ownershipRepair"@,
    {
        "rust-analyzer/ownershipRepair"
    }
}

/// Request that asks the compiler to validate one repair.
pub struct OwnershipValidateRepairRequest;

impl OwnershipValidateRepairRequest {
    pub fn method() -> (m: &'static str)
        ensures
            m@ == "rust-analyzer/ownershipValidateRepair"@,
    {
        "rust-analyzer/ownershipValidateRepair"
    }
}

/// The validation state a repair has when the response omits it.
pub fn candidate_validation_state() -> (s: String)
    ensures
        s@ == "candidate"@,
{
    "candidate".to_owned()
}

pub struct OwnershipRepairParams {
    pub text_document: TextDocumentIdentifier,
    pub position: Position,
    pub repair_id: String,
    pub source_hash: String,
}

#[derive(Clone, Debug)]
pub struct OwnershipRepairValidationResult {
    pub status: String,
    pub message: String,
}

#[derive(Clone, Debug, Default)]
pub struct OwnershipProblems {
    pub schema_version: u32,
    pub status: String,
    pub source_hash: String,
    pub problems: Vec<OwnershipProblem>,
}

#[derive(Clone, Debug)]
pub struct OwnershipWorkspaceGuideParams {
    pub text_document: TextDocumentIdentifier,
    pub position: Position,
    pub selected_problem_id: Option<String>,
    pub expected_revision: Option<String>,
}

#[derive(Clone, Debug, Default)]
pub struct OwnershipWorkspaceGuide {
    pub schema_version: u32,
    pub status: String,
    pub revision: String,
    pub selected_cluster_id: Option<String>,
    pub clusters: Vec<OwnershipProblemCluster>,
    pub journey: Vec<OwnershipJourneyFrame>,
    pub intent_question: Option<OwnershipIntentQuestion>,
    pub truncated: bool,
}

#[derive(Clone, Debug)]
pub struct OwnershipProblemCluster {
    pub id: String,
    pub root_problem_id: String,
    pub title: String,
    pub summary: String,
    pub category: String,
    pub diagnostic_code: Option<String>,
    pub root: OwnershipWorkspaceSite,
    pub impacts: Vec<OwnershipWorkspaceSite>,
    pub related_constraints: Vec<OwnershipWorkspaceSite>,
    pub affected_files: usize,
    pub precision: String,
    pub truncated: bool,
}

#[derive(Clone, Debug)]
pub struct OwnershipWorkspaceSite {
    pub problem_id: Option<String>,
    pub role: String,
    pub location: Location,
    pub label: String,
    pub relationship: String,
    pub precision: String,
    pub selected: bool,
}

#[derive(Clone, Debug)]
pub struct OwnershipJourneyFrame {
    pub id: String,
    pub kind: String,
    pub location: Location,
    pub label: String,
    pub explanation: String,
    pub transfer: String,
    pub after: String,
    pub provenance: String,
}

#[derive(Clone, Debug)]
pub struct OwnershipIntentQuestion {
    pub id: String,
    pub prompt: String,
    pub choices: Vec<OwnershipIntentChoice>,
}

#[derive(Clone, Debug)]
pub struct OwnershipIntentChoice {
    pub id: String,
    pub label: String,
    pub consequence: String,
}

#[derive(Clone, Debug)]
pub struct OwnershipProblem {
    pub id: String,
    pub category: String,
    pub diagnostic_code: Option<String>,
    pub message: String,
    pub binding_name: String,
    pub primary_range: Range,
    pub binding_range: Range,
    pub related_ranges: Vec<Range>,
    pub related: Vec<OwnershipProblemRelated>,
    pub model_position: Position,
    pub precision: String,
}

#[derive(Clone, Debug)]
pub struct OwnershipProblemRelated {
    pub message: String,
    pub range: Range,
}

#[derive(Clone, Debug, Default)]
pub struct OwnershipModel {
    pub schema_version: u32,
    pub compiler_schema_version: u32,
    pub target_triple: String,
    pub precision: String,
    pub status: String,
    pub truncated: bool,
    pub source_hash: String,
    pub selected_problem_id: Option<String>,
    pub selected_place: Option<String>,
    pub events: Vec<OwnershipEvent>,
    pub value_trace: Vec<OwnershipValueTraceStep>,
    pub repairs: Vec<OwnershipRepair>,
    pub bodies: Vec<OwnershipBody>,
    pub bindings: Vec<OwnershipBinding>,
    pub loans: Vec<OwnershipLoan>,
    pub memory_graph: OwnershipMemoryGraph,
    pub operations: Vec<OwnershipOperationInsight>,
    pub mutation_requirement: Option<OwnershipMutationRequirement>,
    pub conflict_graph: Option<OwnershipConflictGraph>,
    pub source_context: Option<OwnershipSourceContext>,
    pub c_sketch: Option<OwnershipCSketch>,
}

#[derive(Clone, Debug)]
pub struct OwnershipSourceContext {
    pub file: String,
    pub breadcrumbs: Vec<OwnershipContextItem>,
    pub call_paths: Vec<Vec<String>>,
    pub related_types: Vec<String>,
    pub provenance: String,
    pub truncated: bool,
}

#[derive(Clone, Debug)]
pub struct OwnershipContextItem {
    pub kind: String,
    pub label: String,
    pub range: Option<Range>,
}

#[derive(Clone, Debug)]
pub struct OwnershipConflictGraph {
    pub title: String,
    pub summary: String,
    pub requested_access: String,
    pub nodes: Vec<OwnershipConflictNode>,
    pub edges: Vec<OwnershipConflictEdge>,
    pub snapshots: Vec<OwnershipConflictSnapshot>,
    pub provenance: String,
    pub truncated: bool,
}

#[derive(Clone, Debug)]
pub struct OwnershipConflictNode {
    pub id: String,
    pub label: String,
    pub type_text: Option<String>,
    pub role: String,
    pub memory: String,
    pub range: Option<Range>,
}

#[derive(Clone, Debug)]
pub struct OwnershipConflictEdge {
    pub from: String,
    pub to: String,
    pub kind: String,
    pub label: String,
    pub provenance: String,
}

#[derive(Clone, Debug)]
pub struct OwnershipConflictSnapshot {
    pub phase: String,
    pub title: String,
    pub explanation: String,
    pub range: Range,
    pub states: Vec<OwnershipConflictNodeState>,
}

#[derive(Clone, Debug)]
pub struct OwnershipConflictNodeState {
    pub node_id: String,
    pub state: String,
    pub explanation: String,
}

#[derive(Clone, Debug)]
pub struct OwnershipOperationInsight {
    pub id: String,
    pub range: Range,
    pub name: String,
    pub signature: String,
    pub receiver_type: Option<String>,
    pub required_access: String,
    pub available_access: String,
    pub why_required: String,
    pub documentation: Option<String>,
    pub effects: Vec<String>,
    pub effect_facts: Vec<OwnershipOperationEffect>,
    pub call_chain: Vec<String>,
    pub alternatives: Vec<OwnershipOperationAlternative>,
    pub provenance: String,
    pub truncated: bool,
    pub summary: String,
    pub ownership_relevant: bool,
    pub receiver_flow: Option<OwnershipOperationReceiver>,
    pub argument_flows: Vec<OwnershipOperationArgument>,
    pub return_flow: Option<OwnershipOperationReturn>,
}

#[derive(Clone, Debug)]
pub struct OwnershipOperationReceiver {
    pub expression: String,
    pub range: Range,
    pub transfer: String,
    pub after: String,
    pub provenance: String,
}

#[derive(Clone, Debug)]
pub struct OwnershipOperationArgument {
    pub index: usize,
    pub expression: String,
    pub range: Range,
    pub parameter_type: String,
    pub transfer: String,
    pub after: String,
    pub provenance: String,
}

#[derive(Clone, Debug)]
pub struct OwnershipOperationReturn {
    pub type_text: String,
    pub kind: String,
    pub borrowed_from: Option<String>,
    pub after: String,
    pub provenance: String,
}

#[derive(Clone, Debug)]
pub struct OwnershipMutationRequirement {
    pub target_place: String,
    pub access_source: String,
    pub available_access: String,
    pub required_access: String,
    pub operation_id: String,
    pub operation_name: String,
    pub explanation: String,
    pub provenance: String,
}

#[derive(Clone, Debug)]
pub struct OwnershipOperationEffect {
    pub kind: String,
    pub summary: String,
    pub certainty: String,
}

#[derive(Clone, Debug)]
pub struct OwnershipOperationAlternative {
    pub name: String,
    pub signature: String,
    pub access: String,
    pub behavior: String,
    pub difference: String,
}

#[derive(Clone, Debug)]
pub struct OwnershipBody {
    pub body_id: u64,
    pub name: String,
    pub range: Range,
    pub blocks: Vec<OwnershipBlock>,
    pub provenance: String,
}

#[derive(Clone, Debug)]
pub struct OwnershipBlock {
    pub basic_block: u32,
    pub range: Range,
    pub successors: Vec<u32>,
}

#[derive(Clone, Debug)]
pub struct OwnershipBinding {
    pub id: String,
    pub body_id: u64,
    pub name: String,
    pub range: Range,
    pub type_text: String,
    pub size: Option<u64>,
    pub align: Option<u64>,
    pub memory_layers: Vec<OwnershipMemoryLayer>,
    pub provenance: String,
}

#[derive(Clone, Debug)]
pub struct OwnershipMemoryLayer {
    pub kind: String,
    pub storage: String,
    pub label: String,
    pub type_text: String,
    pub size: Option<u64>,
    pub align: Option<u64>,
    pub provenance: String,
}

#[derive(Clone, Debug, Default)]
pub struct OwnershipMemoryGraph {
    pub nodes: Vec<OwnershipMemoryNode>,
    pub edges: Vec<OwnershipMemoryEdge>,
    pub snapshots: Vec<OwnershipMemorySnapshot>,
    pub access_paths: Vec<OwnershipAccessPath>,
    pub truncated: bool,
}

#[derive(Clone, Debug)]
pub struct OwnershipMemoryNode {
    pub id: String,
    pub body_id: u64,
    pub place: String,
    pub kind: String,
    pub storage: String,
    pub label: String,
    pub type_text: String,
    pub size: Option<u64>,
    pub align: Option<u64>,
    pub range: Option<Range>,
    pub state: String,
    pub provenance: String,
    pub physical_placement_note: String,
    pub truncated: bool,
}

#[derive(Clone, Debug)]
pub struct OwnershipMemoryEdge {
    pub id: String,
    pub source: String,
    pub target: String,
    pub relation: String,
    pub event_id: Option<String>,
    pub loan_id: Option<u32>,
    pub range: Option<Range>,
    pub provenance: String,
    pub path_marker: Option<String>,
}

#[derive(Clone, Debug)]
pub struct OwnershipStateDelta {
    pub node_id: String,
    pub from: Option<String>,
    pub to: String,
    pub relation_added: Option<String>,
    pub relation_removed: Option<String>,
}

#[derive(Clone, Debug)]
pub struct OwnershipMemorySnapshot {
    pub id: String,
    pub event_id: String,
    pub body_id: u64,
    pub basic_block: u32,
    pub statement_index: u32,
    pub kind: String,
    pub range: Range,
    pub place: String,
    pub loan_id: Option<u32>,
    pub path_marker: Option<String>,
    pub deltas: Vec<OwnershipStateDelta>,
    pub provenance: String,
}

#[derive(Clone, Debug)]
pub struct OwnershipAccessStep {
    pub kind: String,
    pub starting_type: String,
    pub result_type: String,
    pub mutability: String,
    pub explicitness: String,
    pub fallible: bool,
    pub may_panic: bool,
    pub requires_unsafe: bool,
    pub explanation: String,
    pub provenance: String,
}

#[derive(Clone, Debug)]
pub struct OwnershipAccessPath {
    pub id: String,
    pub body_id: u64,
    pub node_id: String,
    pub place: String,
    pub purpose: String,
    pub steps: Vec<OwnershipAccessStep>,
    pub provenance: String,
}

#[derive(Clone, Debug)]
pub struct OwnershipLoanPoint {
    pub basic_block: u32,
    pub statement_index: u32,
    pub range: Range,
}

#[derive(Clone, Debug)]
pub struct OwnershipLoan {
    pub body_id: u64,
    pub loan_id: u32,
    pub kind: String,
    pub name: String,
    pub place: String,
    pub reserve: OwnershipLoanPoint,
    pub activation: Option<OwnershipLoanPoint>,
    pub live_points: Vec<OwnershipLoanPoint>,
    pub end_points: Vec<OwnershipLoanPoint>,
    pub truncated: bool,
    pub provenance: String,
}

#[derive(Clone, Debug)]
pub struct OwnershipCSketch {
    pub title: String,
    pub code: String,
    pub warning: String,
    pub linked_event_ids: Vec<String>,
    pub provenance: String,
}

#[derive(Clone, Debug)]
pub struct OwnershipEvent {
    pub event_id: String,
    pub body_id: u64,
    pub basic_block: u32,
    pub statement_index: u32,
    pub kind: String,
    pub state: String,
    pub place: String,
    pub loan_id: Option<u32>,
    pub range: Range,
    pub binding_range: Range,
    pub detail: Option<String>,
    pub destination: Option<OwnershipEventDestination>,
}

#[derive(Clone, Debug)]
pub struct OwnershipEventDestination {
    pub kind: String,
    pub label: String,
    pub place: Option<String>,
    pub range: Option<Range>,
}

#[derive(Clone, Debug)]
pub struct OwnershipValueTraceStep {
    pub id: String,
    pub kind: String,
    pub range: Range,
    pub from_label: String,
    pub to_label: Option<String>,
    pub source_state: String,
    pub destination_state: Option<String>,
    pub allocation_effect: String,
    pub explanation: String,
    pub provenance: String,
    pub control_flow: Option<String>,
}

#[derive(Clone, Debug)]
pub struct OwnershipRepair {
    pub id: String,
    pub title: String,
    pub strategy: String,
    pub semantics: String,
    pub diff: String,
    pub affected_files: Vec<String>,
    pub preview_complete: bool,
    pub compiler_validated: bool,
    pub validation_state: String,
    pub effects: OwnershipRepairEffects,
    pub preview_graph: Option<OwnershipMemoryGraph>,
}

/// What a repair changes about ownership, mutation, threads, risk and cost.
#[derive(Clone, Debug, Default)]
pub struct OwnershipRepairEffects {
    pub ownership: String,
    pub mutation: String,
    pub thread_safety: String,
    pub runtime_risk: String,
    pub cost: String,
}

} // verus!
