//! The panel's decisions that do not depend on the editor: source hashing,
//! stale-response checks, status lines, font scaling and repair verification.
use vstd::prelude::*;

use crate::coach::{problem_story, spec_problem_story};
use crate::protocol::{
    OwnershipConflictGraph, OwnershipModel, OwnershipOperationInsight, OwnershipProblem,
    OwnershipProblems, OwnershipRepair,
};
use crate::text::{
    concat2, concat3, decimal, decimal_string, hex_fixed, hex_string, opt_str_eq, opt_text, owned,
    str_eq,
};

verus! {

pub const FNV_OFFSET_BASIS: u64 = 0xcbf29ce484222325;

pub const FNV_PRIME: u64 = 0x100000001b3;

pub const DEFAULT_PANEL_FONT_SCALE_PERCENT: u16 = 100;

pub const MIN_PANEL_FONT_SCALE_PERCENT: u16 = 80;

pub const MAX_PANEL_FONT_SCALE_PERCENT: u16 = 180;

pub const PANEL_FONT_SCALE_STEP_PERCENT: i16 = 10;

/// One FNV-1a step: mix in a byte, then multiply modulo 2^64.
pub open spec fn fnv_step(hash: u64, byte: u8) -> u64 {
    (((hash ^ (byte as u64)) as nat * FNV_PRIME as nat) % 0x1_0000_0000_0000_0000) as u64
}

/// The 64-bit FNV-1a hash of `bytes`.
pub open spec fn fnv1a(bytes: Seq<u8>) -> u64
    decreases bytes.len(),
{
    if bytes.len() == 0 {
        FNV_OFFSET_BASIS
    } else {
        fnv_step(fnv1a(bytes.drop_last()), bytes.last())
    }
}

/// The source hash that rust-analyzer reports with every response: FNV-1a of
/// the UTF-8 bytes, as sixteen lowercase hexadecimal digits.
pub open spec fn source_hash(source: Seq<char>) -> Seq<char> {
    hex_fixed(fnv1a(vstd::utf8::encode_utf8(source)) as nat, 16)
}

/// A response describes `source` when it carries its hash, or when
/// rust-analyzer was not running and there is nothing to be stale.
pub open spec fn describes_source(status: Seq<char>, hash: Seq<char>, source: Seq<char>) -> bool {
    status == "rust_analyzer_unavailable"@ || hash == source_hash(source)
}

pub fn ownership_source_hash(source: &str) -> (r: String)
    ensures
        r@ == source_hash(source@),
{
    let bytes = source.as_bytes();
    let mut hash: u64 = FNV_OFFSET_BASIS;
    let mut i: usize = 0;
    while i < bytes.len()
        invariant
            bytes@ == vstd::utf8::encode_utf8(source@),
            i <= bytes.len(),
            hash == fnv1a(bytes@.take(i as int)),
        decreases bytes.len() - i,
    {
        assert(bytes@.take(i + 1).drop_last() =~= bytes@.take(i as int));
        hash = hash ^ (bytes[i] as u64);
        hash = hash.wrapping_mul(FNV_PRIME);
        i += 1;
    }
    assert(bytes@.take(bytes.len() as int) =~= bytes@);
    hex_string(hash, 16)
}

pub fn ownership_model_matches_source(model: &OwnershipModel, source: &str) -> (r: bool)
    ensures
        r == describes_source(model.status@, model.source_hash@, source@),
{
    if str_eq(model.status.as_str(), "rust_analyzer_unavailable") {
        return true;
    }
    let hash = ownership_source_hash(source);
    str_eq(model.source_hash.as_str(), hash.as_str())
}

pub fn ownership_problems_match_source(problems: &OwnershipProblems, source: &str) -> (r: bool)
    ensures
        r == describes_source(problems.status@, problems.source_hash@, source@),
{
    if str_eq(problems.status.as_str(), "rust_analyzer_unavailable") {
        return true;
    }
    let hash = ownership_source_hash(source);
    str_eq(problems.source_hash.as_str(), hash.as_str())
}

/// A model answers the requested problem unless it predates schema eleven,
/// which did not echo the problem id.
pub fn ownership_model_matches_problem(model: &OwnershipModel, requested_problem_id: Option<&str>) -> (r:
    bool)
    ensures
        r == (requested_problem_id is None || model.schema_version < 11 || (
        model.selected_problem_id matches Some(id) && requested_problem_id matches Some(req)
            && id@ == req@)),
{
    match requested_problem_id {
        None => true,
        Some(requested) => {
            if model.schema_version < 11 {
                return true;
            }
            match &model.selected_problem_id {
                Some(id) => str_eq(id.as_str(), requested),
                None => false,
            }
        },
    }
}

/// The cursor position, in UTF-16 code units, that a model was requested for.
#[derive(Clone, Copy, Debug, PartialEq, Eq, Structural)]
pub struct PointUtf16 {
    pub row: u32,
    pub column: u32,
}

/// What a model request was made for; a response only counts while it
/// still describes the current selection.
#[derive(Clone, Debug)]
pub struct ModelRequestKey {
    pub source_hash: String,
    pub problem_id: Option<String>,
    pub position: PointUtf16,
    pub selection_epoch: u64,
}

pub open spec fn same_request(a: ModelRequestKey, b: ModelRequestKey) -> bool {
    &&& a.source_hash@ == b.source_hash@
    &&& opt_text(a.problem_id) == opt_text(b.problem_id)
    &&& a.position == b.position
    &&& a.selection_epoch == b.selection_epoch
}

/// A model response still counts: it answers the request the panel is
/// waiting for, made in the current selection epoch, for the problem that
/// is selected now.
pub open spec fn response_is_current(
    pending: Option<ModelRequestKey>,
    request: ModelRequestKey,
    selected_problem_id: Option<Seq<char>>,
    selection_epoch: u64,
) -> bool {
    &&& pending matches Some(p) && same_request(p, request)
    &&& selection_epoch == request.selection_epoch
    &&& selected_problem_id == opt_text(request.problem_id)
}

pub fn model_response_is_current(
    pending: Option<&ModelRequestKey>,
    request: &ModelRequestKey,
    selected_problem_id: Option<&str>,
    selection_epoch: u64,
) -> (r: bool)
    ensures
        r == response_is_current(
            match pending {
                Some(p) => Some(*p),
                None => None,
            },
            *request,
            match selected_problem_id {
                Some(s) => Some(s@),
                None => None,
            },
            selection_epoch,
        ),
{
    let pending_matches = match pending {
        Some(p) => str_eq(p.source_hash.as_str(), request.source_hash.as_str()) && opt_str_eq(
            &p.problem_id,
            &request.problem_id,
        ) && p.position.row == request.position.row && p.position.column
            == request.position.column && p.selection_epoch == request.selection_epoch,
        None => false,
    };
    if !pending_matches || selection_epoch != request.selection_epoch {
        return false;
    }
    match (selected_problem_id, &request.problem_id) {
        (None, None) => true,
        (Some(a), Some(b)) => str_eq(a, b.as_str()),
        _ => false,
    }
}

/// A repair counts as validated when the compiler says so, in either the old
/// flag or the newer validation state.
pub fn repair_is_compiler_validated(repair: &OwnershipRepair) -> (r: bool)
    ensures
        r == (repair.compiler_validated || repair.validation_state@ == "validated"@),
{
    repair.compiler_validated || str_eq(repair.validation_state.as_str(), "validated")
}

/// `current + delta`, held between the smallest and largest panel scale.
pub open spec fn spec_font_scale(current: u16, delta_percent: i16) -> int {
    let v = current + delta_percent;
    if v < MIN_PANEL_FONT_SCALE_PERCENT {
        MIN_PANEL_FONT_SCALE_PERCENT as int
    } else if v > MAX_PANEL_FONT_SCALE_PERCENT {
        MAX_PANEL_FONT_SCALE_PERCENT as int
    } else {
        v
    }
}

pub fn adjusted_panel_font_scale(current: u16, delta_percent: i16) -> (r: u16)
    ensures
        r == spec_font_scale(current, delta_percent),
        MIN_PANEL_FONT_SCALE_PERCENT <= r <= MAX_PANEL_FONT_SCALE_PERCENT,
{
    let v: i32 = current as i32 + delta_percent as i32;
    if v < MIN_PANEL_FONT_SCALE_PERCENT as i32 {
        MIN_PANEL_FONT_SCALE_PERCENT
    } else if v > MAX_PANEL_FONT_SCALE_PERCENT as i32 {
        MAX_PANEL_FONT_SCALE_PERCENT
    } else {
        v as u16
    }
}

/// A model computed for a source is never rejected as stale for that same
/// source; a different hash is rejected unless rust-analyzer was not running.
pub proof fn a_model_matches_the_source_it_was_computed_for(model: OwnershipModel, source: Seq<char>)
    ensures
        model.source_hash@ == source_hash(source) ==> describes_source(model.status@, model.source_hash@, source),
        model.status@ != "rust_analyzer_unavailable"@ && model.source_hash@ != source_hash(source)
            ==> !describes_source(model.status@, model.source_hash@, source),
{
}

/// A response from an earlier selection epoch, or for a problem other than
/// the selected one, never replaces what the panel shows.
pub proof fn late_responses_never_count(
    pending: Option<ModelRequestKey>,
    request: ModelRequestKey,
    selected_problem_id: Option<Seq<char>>,
    selection_epoch: u64,
)
    ensures
        selection_epoch != request.selection_epoch ==> !response_is_current(
            pending,
            request,
            selected_problem_id,
            selection_epoch,
        ),
        selected_problem_id != opt_text(request.problem_id) ==> !response_is_current(
            pending,
            request,
            selected_problem_id,
            selection_epoch,
        ),
{
}

/// Undoing a font step that stayed inside the limits restores the scale.
pub proof fn font_scale_step_undone(current: u16, delta_percent: i16)
    requires
        MIN_PANEL_FONT_SCALE_PERCENT <= current + delta_percent <= MAX_PANEL_FONT_SCALE_PERCENT,
        MIN_PANEL_FONT_SCALE_PERCENT <= current <= MAX_PANEL_FONT_SCALE_PERCENT,
        delta_percent > i16::MIN,
    ensures
        spec_font_scale(spec_font_scale(current, delta_percent) as u16, (-delta_percent) as i16)
            == current,
{
}

/// The diagnostic code of a problem, with `rustc` standing for a missing one.
pub open spec fn code_or_rustc(problem: OwnershipProblem) -> Seq<char> {
    match problem.diagnostic_code {
        Some(code) => code@,
        None => "rustc"@,
    }
}

/// `code|category|binding`: how a problem is recognised across rescans.
pub open spec fn problem_signature(problem: OwnershipProblem) -> Seq<char> {
    code_or_rustc(problem) + "|"@ + problem.category@ + "|"@ + problem.binding_name@
}

pub fn ownership_problem_signature(problem: &OwnershipProblem) -> (r: String)
    ensures
        r@ == problem_signature(*problem),
{
    let code = match &problem.diagnostic_code {
        Some(code) => code.as_str(),
        None => "rustc",
    };
    let mut r = concat3(code, "|", problem.category.as_str());
    r.append("|");
    r.append(problem.binding_name.as_str());
    r
}

/// The panel's one-line description of a problem scan.
pub open spec fn spec_problem_status(problems: OwnershipProblems) -> Seq<char> {
    if problems.status@ == "rust_analyzer_unavailable"@ {
        "The patched rust-analyzer is not running for this buffer."@
    } else if problems.status@ == "waiting_for_compiler"@ {
        "Waiting for Cargo check learning facts…"@
    } else if problems.problems.len() == 0 {
        "No supported Rust diagnostics in this file. Select a value to inspect valid ownership flow."@
    } else if problems.problems.len() == 1 {
        "One explainable Rust problem found."@
    } else {
        decimal(problems.problems.len() as nat) + " explainable Rust problems found."@
    }
}

pub fn ownership_problem_status(problems: &OwnershipProblems) -> (r: String)
    ensures
        r@ == spec_problem_status(*problems),
{
    if str_eq(problems.status.as_str(), "rust_analyzer_unavailable") {
        "The patched rust-analyzer is not running for this buffer.".to_owned()
    } else if str_eq(problems.status.as_str(), "waiting_for_compiler") {
        "Waiting for Cargo check learning facts…".to_owned()
    } else if problems.problems.len() == 0 {
        "No supported Rust diagnostics in this file. Select a value to inspect valid ownership flow.".to_owned()
    } else if problems.problems.len() == 1 {
        "One explainable Rust problem found.".to_owned()
    } else {
        let count = decimal_string(problems.problems.len() as u64);
        concat2(count.as_str(), " explainable Rust problems found.")
    }
}

/// The panel's one-line description of an ownership model.
pub open spec fn spec_model_status(model: OwnershipModel) -> Seq<char> {
    if model.status@ == "rust_analyzer_unavailable"@ {
        "The patched rust-analyzer is not running for this buffer."@
    } else if model.events.len() == 0 {
        if model.source_context is Some || model.operations.len() > 0 {
            "Compiler diagnostic context is ready; this error family has no ownership-event timeline."@
        } else {
            "Waiting for compiler facts. Save the file or run Cargo check."@
        }
    } else {
        let precision = if model.precision@ == "compiler_exact"@ {
            "Compiler exact"@
        } else {
            "Estimated"@
        };
        let bounded = if model.truncated {
            " · large result bounded for responsiveness"@
        } else {
            ""@
        };
        match model.selected_place {
            Some(place) => precision + " ownership timeline for "@ + place@ + bounded,
            None => precision + " ownership timeline"@ + bounded,
        }
    }
}

pub fn ownership_status(model: &OwnershipModel) -> (r: String)
    ensures
        r@ == spec_model_status(*model),
{
    if str_eq(model.status.as_str(), "rust_analyzer_unavailable") {
        return "The patched rust-analyzer is not running for this buffer.".to_owned();
    }
    if model.events.len() == 0 {
        if model.source_context.is_some() || model.operations.len() > 0 {
            return "Compiler diagnostic context is ready; this error family has no ownership-event timeline.".to_owned();
        }
        return "Waiting for compiler facts. Save the file or run Cargo check.".to_owned();
    }
    let precision = if str_eq(model.precision.as_str(), "compiler_exact") {
        "Compiler exact"
    } else {
        "Estimated"
    };
    let bounded = if model.truncated {
        " · large result bounded for responsiveness"
    } else {
        ""
    };
    match &model.selected_place {
        Some(place) => {
            let mut r = concat3(precision, " ownership timeline for ", place.as_str());
            r.append(bounded);
            r
        },
        None => concat3(precision, " ownership timeline", bounded),
    }
}

/// The reader-facing name of an access requirement.
pub open spec fn spec_readable_access(access: Seq<char>) -> Seq<char> {
    if access == "shared_borrow"@ {
        "shared borrow (&self / &T)"@
    } else if access == "mutable_borrow"@ {
        "exclusive mutable borrow (&mut self / &mut T)"@
    } else if access == "move"@ {
        "ownership (self / T)"@
    } else {
        "the declared parameter contracts"@
    }
}

pub fn readable_access(access: &str) -> (r: &'static str)
    ensures
        r@ == spec_readable_access(access@),
{
    if str_eq(access, "shared_borrow") {
        "shared borrow (&self / &T)"
    } else if str_eq(access, "mutable_borrow") {
        "exclusive mutable borrow (&mut self / &mut T)"
    } else if str_eq(access, "move") {
        "ownership (self / T)"
    } else {
        "the declared parameter contracts"
    }
}

/// The reader-facing name of the access a path actually provides.
pub open spec fn spec_readable_available_access(access: Seq<char>) -> Seq<char> {
    if access == "shared_borrow"@ {
        "shared access"@
    } else if access == "immutable_binding"@ {
        "an immutable binding"@
    } else if access == "shared_owner"@ {
        "shared-owner access"@
    } else if access == "mutable_receiver_with_blocked_path"@ {
        "a mutable receiver with a blocked inner path"@
    } else if access == "owned_receiver_with_blocked_path"@ {
        "an owned receiver with a blocked inner path"@
    } else {
        "insufficient mutable access"@
    }
}

pub fn readable_available_access(access: &str) -> (r: &'static str)
    ensures
        r@ == spec_readable_available_access(access@),
{
    if str_eq(access, "shared_borrow") {
        "shared access"
    } else if str_eq(access, "immutable_binding") {
        "an immutable binding"
    } else if str_eq(access, "shared_owner") {
        "shared-owner access"
    } else if str_eq(access, "mutable_receiver_with_blocked_path") {
        "a mutable receiver with a blocked inner path"
    } else if str_eq(access, "owned_receiver_with_blocked_path") {
        "an owned receiver with a blocked inner path"
    } else {
        "insufficient mutable access"
    }
}

/// A button label, marked with a bullet when selected.
pub fn selected_button_label(selected: bool, label: &str) -> (r: String)
    ensures
        r@ == if selected {
            "● "@ + label@
        } else {
            label@
        },
{
    if selected {
        concat2("● ", label)
    } else {
        label.to_owned()
    }
}

/// Collapsible sections of the panel.
#[derive(Clone, Copy, Debug, PartialEq, Eq, Structural)]
pub enum LearningSection {
    Advanced,
}

impl LearningSection {
    pub fn title(self) -> (r: &'static str)
        ensures
            r@ == "Explore deeper (optional)"@,
    {
        match self {
            LearningSection::Advanced => "Explore deeper (optional)",
        }
    }

    pub fn subtitle(self) -> (r: &'static str)
        ensures
            r@ == "Memory, lifetimes, resolved calls, MIR evidence, and the optional C comparison"@,
    {
        match self {
            LearningSection::Advanced => {
                "Memory, lifetimes, resolved calls, MIR evidence, and the optional C comparison"
            },
        }
    }
}

/// Where a repair's verification stands.
#[derive(Clone, Debug)]
pub enum RepairVerificationState {
    Applying,
    Checking,
    Resolved { remaining_file_problems: usize },
    IntroducedProblems { summaries: Vec<String> },
    StillPresent { current_line: u32 },
    Failed(String),
}

/// The problem a repair targeted, and the file's problems before the repair.
#[derive(Clone, Debug)]
pub struct RepairVerification {
    pub diagnostic_code: Option<String>,
    pub category: String,
    pub binding_name: String,
    pub original_line: u32,
    pub repair_title: String,
    pub baseline_problem_signatures: Vec<String>,
    pub state: RepairVerificationState,
}

/// `problem` has the code, category and binding the repair targeted.
pub open spec fn targets(verification: RepairVerification, problem: OwnershipProblem) -> bool {
    &&& problem.category@ == verification.category@
    &&& problem.binding_name@ == verification.binding_name@
    &&& opt_text(problem.diagnostic_code) == opt_text(verification.diagnostic_code)
}

pub open spec fn line_drift(verification: RepairVerification, problem: OwnershipProblem) -> u32 {
    crate::selection::abs_diff(problem.primary_range.start.line, verification.original_line)
}

pub open spec fn baseline_texts(verification: RepairVerification) -> Seq<Seq<char>> {
    verification.baseline_problem_signatures@.map_values(|s: String| s@)
}

/// The problems, in order, whose signature was not present before the repair.
pub open spec fn fresh_problems(problems: Seq<OwnershipProblem>, baseline: Seq<Seq<char>>) -> Seq<
    OwnershipProblem,
>
    decreases problems.len(),
{
    if problems.len() == 0 {
        Seq::empty()
    } else {
        let rest = fresh_problems(problems.drop_last(), baseline);
        if baseline.contains(problem_signature(problems.last())) {
            rest
        } else {
            rest.push(problems.last())
        }
    }
}

/// `E0502 on `self` at line 12`: how an introduced problem is reported
/// (lines counted from one).
pub open spec fn problem_summary(problem: OwnershipProblem) -> Seq<char> {
    code_or_rustc(problem) + " on `"@ + problem.binding_name@ + "` at line "@ + decimal(
        problem.primary_range.start.line as nat + 1,
    )
}

/// How a verification concludes once the file has been checked again.
pub open spec fn verification_concludes(
    verification: RepairVerification,
    problems: Seq<OwnershipProblem>,
    outcome: RepairVerificationState,
) -> bool {
    let near = exists|i: int|
        0 <= i < problems.len() && targets(verification, #[trigger] problems[i]) && line_drift(
            verification,
            problems[i],
        ) <= 8;
    let fresh = fresh_problems(problems, baseline_texts(verification));
    match outcome {
        RepairVerificationState::StillPresent { current_line } => {
            &&& near
            &&& exists|i: int|
                0 <= i < problems.len() && targets(verification, #[trigger] problems[i])
                    && current_line == problems[i].primary_range.start.line && (forall|j: int|
                    0 <= j < problems.len() && targets(verification, #[trigger] problems[j])
                        ==> line_drift(verification, problems[i]) <= line_drift(
                        verification,
                        problems[j],
                    ) && (j < i ==> line_drift(verification, problems[i]) < line_drift(
                        verification,
                        problems[j],
                    )))
        },
        RepairVerificationState::Resolved { remaining_file_problems } => {
            &&& !near
            &&& fresh.len() == 0
            &&& remaining_file_problems == problems.len()
        },
        RepairVerificationState::IntroducedProblems { summaries } => {
            &&& !near
            &&& fresh.len() > 0
            &&& summaries.len() == if fresh.len() < 5 {
                fresh.len()
            } else {
                5
            }
            &&& forall|k: int|
                0 <= k < summaries.len() ==> #[trigger] summaries@[k]@ == problem_summary(fresh[k])
        },
        _ => false,
    }
}

fn signature_in_baseline(verification: &RepairVerification, signature: &String) -> (r: bool)
    ensures
        r == baseline_texts(*verification).contains(signature@),
{
    let ghost texts = baseline_texts(*verification);
    let mut i: usize = 0;
    while i < verification.baseline_problem_signatures.len()
        invariant
            texts == baseline_texts(*verification),
            i <= verification.baseline_problem_signatures.len(),
            forall|k: int| 0 <= k < i ==> texts[k] != signature@,
        decreases verification.baseline_problem_signatures.len() - i,
    {
        if str_eq(verification.baseline_problem_signatures[i].as_str(), signature.as_str()) {
            assert(texts[i as int] == signature@);
            return true;
        }
        i += 1;
    }
    false
}

fn problem_summary_text(problem: &OwnershipProblem) -> (r: String)
    ensures
        r@ == problem_summary(*problem),
{
    let code = match &problem.diagnostic_code {
        Some(code) => code.as_str(),
        None => "rustc",
    };
    let mut r = concat3(code, " on `", problem.binding_name.as_str());
    r.append("` at line ");
    let line = decimal_string(problem.primary_range.start.line as u64 + 1);
    r.append(line.as_str());
    r
}

fn targets_problem(verification: &RepairVerification, problem: &OwnershipProblem) -> (r: bool)
    ensures
        r == targets(*verification, *problem),
{
    str_eq(problem.category.as_str(), verification.category.as_str()) && str_eq(
        problem.binding_name.as_str(),
        verification.binding_name.as_str(),
    ) && opt_str_eq(&problem.diagnostic_code, &verification.diagnostic_code)
}

/// After a repair and a new scan: the targeted problem is still there (within
/// eight lines), or the scan reports problems the file did not have before,
/// or the repair resolved it.
pub fn repair_verification_outcome(
    verification: &RepairVerification,
    problems: &OwnershipProblems,
) -> (r: RepairVerificationState)
    ensures
        verification_concludes(*verification, problems.problems@, r),
{
    let ps = &problems.problems;
    let mut best: Option<usize> = None;
    let mut best_drift: u32 = 0;
    let mut i: usize = 0;
    while i < ps.len()
        invariant
            i <= ps.len(),
            best is None <==> forall|j: int|
                0 <= j < i ==> !targets(*verification, #[trigger] ps@[j]),
            best matches Some(b) ==> {
                &&& b < i
                &&& targets(*verification, ps@[b as int])
                &&& best_drift == line_drift(*verification, ps@[b as int])
                &&& forall|j: int|
                    0 <= j < i && targets(*verification, #[trigger] ps@[j]) ==> best_drift
                        <= line_drift(*verification, ps@[j]) && (j < b ==> best_drift < line_drift(
                        *verification,
                        ps@[j],
                    ))
            },
        decreases ps.len() - i,
    {
        if targets_problem(verification, &ps[i]) {
            let line = ps[i].primary_range.start.line;
            let drift = if line >= verification.original_line {
                line - verification.original_line
            } else {
                verification.original_line - line
            };
            let better = match best {
                None => true,
                Some(_) => drift < best_drift,
            };
            if better {
                best = Some(i);
                best_drift = drift;
            }
        }
        i += 1;
    }
    if let Some(b) = best {
        if best_drift <= 8 {
            return RepairVerificationState::StillPresent {
                current_line: ps[b].primary_range.start.line,
            };
        }
    }
    let ghost baseline = baseline_texts(*verification);
    let mut summaries: Vec<String> = Vec::new();
    let mut fresh_count: usize = 0;
    let mut k: usize = 0;
    while k < ps.len()
        invariant
            k <= ps.len(),
            baseline == baseline_texts(*verification),
            fresh_count == fresh_problems(ps@.take(k as int), baseline).len(),
            fresh_count <= k,
            summaries.len() == if fresh_count < 5 {
                fresh_count
            } else {
                5
            },
            forall|m: int|
                0 <= m < summaries.len() ==> #[trigger] summaries@[m]@ == problem_summary(
                    fresh_problems(ps@.take(k as int), baseline)[m],
                ),
        decreases ps.len() - k,
    {
        let signature = ownership_problem_signature(&ps[k]);
        let known = signature_in_baseline(verification, &signature);
        proof {
            assert(ps@.take(k + 1).drop_last() =~= ps@.take(k as int));
            assert(ps@.take(k + 1).last() == ps@[k as int]);
        }
        if !known {
            if summaries.len() < 5 {
                let summary = problem_summary_text(&ps[k]);
                summaries.push(summary);
            }
            fresh_count = fresh_count + 1;
        }
        k += 1;
    }
    assert(ps@.take(ps.len() as int) =~= ps@);
    if summaries.len() == 0 {
        RepairVerificationState::Resolved { remaining_file_problems: ps.len() }
    } else {
        RepairVerificationState::IntroducedProblems { summaries }
    }
}

/// Concludes a repair check that is waiting for a fresh scan; a repair that
/// is not being checked is left as it is.
pub fn update_repair_verification(
    verification: &mut Option<RepairVerification>,
    problems: &OwnershipProblems,
)
    ensures
        match *old(verification) {
            Some(v) => if v.state is Checking {
                *final(verification) matches Some(w) && {
                    &&& w.diagnostic_code == v.diagnostic_code
                    &&& w.category == v.category
                    &&& w.binding_name == v.binding_name
                    &&& w.original_line == v.original_line
                    &&& w.repair_title == v.repair_title
                    &&& w.baseline_problem_signatures == v.baseline_problem_signatures
                    &&& verification_concludes(v, problems.problems@, w.state)
                }
            } else {
                *final(verification) == *old(verification)
            },
            None => *final(verification) == *old(verification),
        },
{
    let outcome = match verification {
        Some(v) => if matches!(v.state, RepairVerificationState::Checking) {
            Some(repair_verification_outcome(v, problems))
        } else {
            None
        },
        None => None,
    };
    if let Some(state) = outcome {
        match verification {
            Some(v) => {
                v.state = state;
            },
            None => {},
        }
    }
}

/// The headline and summary of a problem card: the conflict graph's when the
/// model has one, else the story told for the problem's category.
pub fn problem_headline(category: &str, name: &str, graph: &Option<OwnershipConflictGraph>) -> (r: (String, String))
    ensures
        match graph {
            Some(g) => r.0@ == g.title@ && r.1@ == g.summary@,
            None => r.0@ == spec_problem_story(category@, name@).0 && r.1@ == spec_problem_story(category@, name@).1,
        },
{
    match graph {
        Some(g) => (owned(g.title.as_str()), owned(g.summary.as_str())),
        None => {
            let story = problem_story(category, name);
            (story.0, story.1)
        },
    }
}

/// The snapshot a memory map draws at `step`: that step's, else the last
/// one, and none when the graph has no snapshots.
pub fn memory_map_snapshot(graph: &OwnershipConflictGraph, step: usize) -> (r: Option<usize>)
    ensures
        r == (if step < graph.snapshots.len() {
            Some(step)
        } else if graph.snapshots.len() > 0 {
            Some((graph.snapshots.len() - 1) as usize)
        } else {
            None
        }),
{
    let count = graph.snapshots.len();
    if step < count {
        Some(step)
    } else if count > 0 {
        Some(count - 1)
    } else {
        None
    }
}

/// How many of an operation's alternatives are listed: all of them when the
/// card is expanded, else at most three.
pub fn listed_alternatives(expanded: bool, alternative_count: usize) -> (r: usize)
    ensures
        r == (if expanded || alternative_count <= 3 { alternative_count } else { 3 }),
{
    let visible: usize = if expanded { alternative_count } else { 3 };
    if alternative_count < visible {
        alternative_count
    } else {
        visible
    }
}

/// Row `i` of an operation's effects as (kind, summary, evidence): its effect
/// facts when it has any, else each plain effect as a behavior whose
/// evidence is the operation's provenance.
pub open spec fn effect_row(op: OwnershipOperationInsight, i: int) -> (Seq<char>, Seq<char>, Seq<char>) {
    if op.effect_facts.len() == 0 {
        ("behavior"@, op.effects@[i]@, op.provenance@)
    } else {
        (op.effect_facts@[i].kind@, op.effect_facts@[i].summary@, op.effect_facts@[i].certainty@)
    }
}

/// How many effect rows an operation card shows.
pub open spec fn effect_row_count(op: OwnershipOperationInsight) -> int {
    if op.effect_facts.len() == 0 {
        op.effects.len() as int
    } else {
        op.effect_facts.len() as int
    }
}

pub fn operation_effect_rows(op: &OwnershipOperationInsight) -> (r: Vec<(String, String, String)>)
    ensures
        r.len() == effect_row_count(*op),
        forall|i: int| 0 <= i < r.len() ==> (#[trigger] r@[i].0@, r@[i].1@, r@[i].2@) == effect_row(*op, i),
{
    let mut rows: Vec<(String, String, String)> = Vec::new();
    if op.effect_facts.len() == 0 {
        let mut i: usize = 0;
        while i < op.effects.len()
            invariant
                op.effect_facts.len() == 0,
                i <= op.effects.len(),
                rows.len() == i,
                forall|k: int| 0 <= k < i ==> (#[trigger] rows@[k].0@, rows@[k].1@, rows@[k].2@) == effect_row(*op, k),
            decreases op.effects.len() - i,
        {
            rows.push((owned("behavior"), owned(op.effects[i].as_str()), owned(op.provenance.as_str())));
            i += 1;
        }
    } else {
        let mut i: usize = 0;
        while i < op.effect_facts.len()
            invariant
                op.effect_facts.len() > 0,
                i <= op.effect_facts.len(),
                rows.len() == i,
                forall|k: int| 0 <= k < i ==> (#[trigger] rows@[k].0@, rows@[k].1@, rows@[k].2@) == effect_row(*op, k),
            decreases op.effect_facts.len() - i,
        {
            let fact = &op.effect_facts[i];
            rows.push((owned(fact.kind.as_str()), owned(fact.summary.as_str()), owned(fact.certainty.as_str())));
            i += 1;
        }
    }
    rows
}

} // verus!
