use rust_workbench::coach::{
    generated_c_preview, guided_issue_facts, intent_recommendation, mutation_target_specificity,
    preferred_mutability_repair, resolved_problem_target, visual_moments, IntentAnswers,
};
use rust_workbench::focus::{display_focus_rows, problem_selection, visual_step_range, ProblemSelection};
use rust_workbench::panel::{update_repair_verification, RepairVerification, RepairVerificationState};
use rust_workbench::protocol::{
    OwnershipConflictGraph, OwnershipConflictSnapshot, OwnershipEvent, OwnershipModel,
    OwnershipMutationRequirement, OwnershipProblem, OwnershipProblems, OwnershipValueTraceStep,
    Position, Range,
};
use rust_workbench::rescan::{rescanned_selection, sort_problems};
use rust_workbench::selection::ownership_problem_sort_key;

fn range(start_line: u32, start_character: u32, end_line: u32, end_character: u32) -> Range {
    Range::new(
        Position::new(start_line, start_character),
        Position::new(end_line, end_character),
    )
}

fn problem(id: &str, category: &str, binding: &str, line: u32) -> OwnershipProblem {
    OwnershipProblem {
        id: id.to_owned(),
        category: category.to_owned(),
        diagnostic_code: Some("E0382".to_owned()),
        message: String::new(),
        binding_name: binding.to_owned(),
        primary_range: range(line, 4, line, 9),
        binding_range: range(line - 1, 8, line - 1, 12),
        related_ranges: vec![range(line + 3, 0, line + 4, 2)],
        related: Vec::new(),
        model_position: Position::new(line, 4),
        precision: "compiler_exact".to_owned(),
    }
}

fn event(kind: &str, place: &str, line: u32) -> OwnershipEvent {
    OwnershipEvent {
        event_id: format!("{kind}-{line}"),
        body_id: 0,
        basic_block: 0,
        statement_index: 0,
        kind: kind.to_owned(),
        state: "available".to_owned(),
        place: place.to_owned(),
        loan_id: None,
        range: range(line, 0, line, 5),
        binding_range: range(line, 0, line, 5),
        detail: None,
        destination: None,
    }
}

fn trace_step(to_label: Option<&str>, line: u32) -> OwnershipValueTraceStep {
    OwnershipValueTraceStep {
        id: format!("step-{line}"),
        kind: "move".to_owned(),
        range: range(line, 1, line, 2),
        from_label: "value".to_owned(),
        to_label: to_label.map(str::to_owned),
        source_state: "moved".to_owned(),
        destination_state: None,
        allocation_effect: String::new(),
        explanation: String::new(),
        provenance: "compiler_exact".to_owned(),
        control_flow: None,
    }
}

#[test]
fn intent_matrix_covers_threads_and_plain_mutation() {
    let threads = IntentAnswers { crosses_threads: Some(true), ..Default::default() };
    assert_eq!(intent_recommendation(threads), "Use Arc<T> for shared ownership across threads.");
    let mutation = IntentAnswers { mutation: Some(true), ..Default::default() };
    assert!(intent_recommendation(mutation).starts_with("Prefer an ordinary mutable borrow."));
    assert!(intent_recommendation(IntentAnswers::default()).starts_with("Borrow the value"));
}

#[test]
fn place_specificity_ignores_decoration() {
    assert_eq!(mutation_target_specificity("`self.events`"), (2, 11));
    assert_eq!(mutation_target_specificity("&self"), (0, 4));
    assert_eq!(mutation_target_specificity("(*current)"), (0, 7));
    assert_eq!(mutation_target_specificity("count"), (1, 5));
    assert_eq!(mutation_target_specificity("items[0]"), (2, 8));
    assert_eq!(mutation_target_specificity("  "), (0, 0));
}

#[test]
fn non_mutation_problems_keep_their_binding_as_target() {
    let p = problem("p", "use_after_move", "value", 5);
    let model = OwnershipModel { selected_place: Some("value.inner".to_owned()), ..Default::default() };
    assert_eq!(resolved_problem_target(&p, &model), "value");
}

#[test]
fn c_preview_keeps_short_code_whole_and_cuts_long_code() {
    assert_eq!(generated_c_preview("int x;".to_owned(), "out.c", 6), "int x;");
    assert_eq!(
        generated_c_preview("abc€def".to_owned(), "artifact.c", 4),
        "abc\n\n/* Rust Workbench truncated this preview. Open the full artifact at artifact.c. */"
    );
    assert_eq!(
        generated_c_preview("€€".to_owned(), "a.c", 2),
        "\n\n/* Rust Workbench truncated this preview. Open the full artifact at a.c. */"
    );
}

#[test]
fn moved_values_name_their_new_owner() {
    let p = problem("p", "use_after_move", "value", 5);
    let model = OwnershipModel {
        value_trace: vec![trace_step(None, 3), trace_step(Some("consumer"), 4)],
        ..Default::default()
    };
    let facts = guided_issue_facts(&p, &model);
    assert_eq!(facts.target, "value");
    assert_eq!(facts.headline, "`value` was used after its value moved");
    assert_eq!(
        facts.state_summary,
        "The old place `value` is unavailable after ownership transferred. The value now belongs to `consumer`."
    );
    assert_eq!(facts.access_route, None);
    assert_eq!(facts.operation, None);
    assert_eq!(facts.required_access, None);
}

#[test]
fn immutable_locals_are_declared_mutable() {
    let p = problem("p", "immutable_mutation", "count", 5);
    let model = OwnershipModel {
        mutation_requirement: Some(OwnershipMutationRequirement {
            target_place: "count".to_owned(),
            access_source: "immutable binding count".to_owned(),
            available_access: "immutable_binding".to_owned(),
            required_access: "mutable_borrow".to_owned(),
            operation_id: "add".to_owned(),
            operation_name: "add_assign".to_owned(),
            explanation: String::new(),
            provenance: String::new(),
        }),
        ..Default::default()
    };
    let repair = preferred_mutability_repair(&p, &model).unwrap();
    assert_eq!(repair.title, "declare `count` mutable");
    assert_eq!(repair.diff, "- let count = …;\n+ let mut count = …;");
    let facts = guided_issue_facts(&p, &model);
    assert_eq!(facts.headline, "Cannot call add_assign() on `count` through `immutable binding count`");
    assert_eq!(facts.required_access.as_deref(), Some("exclusive mutable borrow (&mut self / &mut T)"));
    let other = problem("q", "use_after_move", "count", 5);
    assert!(preferred_mutability_repair(&other, &model).is_none());
}

#[test]
fn timelines_prefer_snapshots_then_events() {
    let p = problem("p", "use_after_move", "value", 5);
    let with_events = OwnershipModel {
        events: vec![event("last_use", "value", 2), event("move", "value", 3), event("drop", "value", 9)],
        ..Default::default()
    };
    let moments = visual_moments(Some(&p), &with_events);
    assert_eq!(moments.len(), 2);
    assert_eq!(moments[0].title, "Move `value`");
    assert_eq!(moments[1].phase, "drop");
    assert_eq!(moments[1].range, range(9, 0, 9, 5));

    let many = OwnershipModel {
        events: (0..20).map(|line| event("borrow_shared", "v", line)).collect(),
        ..Default::default()
    };
    assert_eq!(visual_moments(None, &many).len(), 12);

    let with_graph = OwnershipModel {
        conflict_graph: Some(OwnershipConflictGraph {
            title: String::new(),
            summary: String::new(),
            requested_access: String::new(),
            nodes: Vec::new(),
            edges: Vec::new(),
            snapshots: vec![OwnershipConflictSnapshot {
                phase: "borrow_ended".to_owned(),
                title: "ended".to_owned(),
                explanation: String::new(),
                range: range(1, 0, 1, 1),
                states: Vec::new(),
            }],
            provenance: String::new(),
            truncated: false,
        }),
        ..with_events
    };
    let moments = visual_moments(Some(&p), &with_graph);
    assert_eq!(moments.len(), 1);
    assert_eq!(moments[0].state, "available_afterward");
    assert!(visual_moments(None, &OwnershipModel::default()).is_empty());
}

#[test]
fn focus_rows_follow_the_hint_scope() {
    let p = problem("p", "use_after_move", "value", 5);
    let model = OwnershipModel { events: vec![event("move", "value", 20)], ..Default::default() };
    assert!(display_focus_rows(true, false, Some(&p), &model, None).is_empty());
    assert_eq!(
        display_focus_rows(false, false, Some(&p), &model, None),
        vec![(4, 4), (5, 5), (8, 9), (20, 20)]
    );
    assert_eq!(display_focus_rows(false, true, Some(&p), &model, Some((2, 30))), vec![(2, 30)]);
    assert_eq!(display_focus_rows(false, true, Some(&p), &model, None), vec![(3, 21)]);
    assert!(display_focus_rows(false, true, None, &OwnershipModel::default(), None).is_empty());
}

#[test]
fn visual_steps_cue_trace_steps_before_timeline_moments() {
    let p = problem("p", "use_after_move", "value", 5);
    let traced = OwnershipModel { value_trace: vec![trace_step(None, 7)], ..Default::default() };
    assert_eq!(visual_step_range(Some(&p), &traced, 0), Some(range(7, 1, 7, 2)));
    let plain = OwnershipModel::default();
    assert_eq!(visual_step_range(Some(&p), &plain, 0), Some(p.binding_range));
    assert_eq!(visual_step_range(Some(&p), &plain, 2), Some(p.primary_range));
    assert_eq!(visual_step_range(Some(&p), &plain, 3), None);
}

#[test]
fn choosing_a_problem_reports_whether_the_selection_changes() {
    let problems = vec![problem("a", "use_after_move", "x", 3), problem("b", "use_after_move", "y", 7)];
    assert!(matches!(problem_selection(&problems, Some("a"), 5), ProblemSelection::Missing));
    assert!(matches!(
        problem_selection(&problems, Some("a"), 0),
        ProblemSelection::Unchanged(r) if r == problems[0].primary_range
    ));
    assert!(matches!(
        problem_selection(&problems, Some("a"), 1),
        ProblemSelection::Changed { id, range } if id == "b" && range == problems[1].primary_range
    ));
    assert!(matches!(problem_selection(&problems, None, 0), ProblemSelection::Changed { .. }));
}

#[test]
fn rescans_list_problems_in_source_order() {
    let mut problems = vec![
        problem("c", "use_after_move", "x", 9),
        problem("b", "use_after_move", "x", 3),
        problem("a", "use_after_move", "x", 3),
        problem("d", "use_after_move", "x", 1),
    ];
    sort_problems(&mut problems);
    let ids: Vec<&str> = problems.iter().map(|p| p.id.as_str()).collect();
    assert_eq!(ids, ["d", "a", "b", "c"]);
    assert_eq!(ownership_problem_sort_key(&problems[1]), (3, 4, "a"));
}

#[test]
fn rescans_keep_the_selection_on_the_same_problem() {
    let problems = vec![problem("a", "use_after_move", "x", 3), problem("b", "partial_move", "y", 7)];
    assert_eq!(rescanned_selection(&problems, Some("b"), None, None), Some(1));
    let previous = problem("old", "partial_move", "y", 8);
    assert_eq!(rescanned_selection(&problems, Some("gone"), Some(&previous), None), Some(1));
    assert_eq!(rescanned_selection(&problems, None, None, Some(Position::new(3, 5))), Some(0));
    assert_eq!(rescanned_selection(&problems, None, None, Some(Position::new(40, 0))), Some(0));
    assert_eq!(rescanned_selection(&Vec::new(), Some("b"), None, None), None);
}

#[test]
fn pending_repairs_conclude_and_settled_ones_stay() {
    let checking = RepairVerification {
        diagnostic_code: Some("E0382".to_owned()),
        category: "use_after_move".to_owned(),
        binding_name: "x".to_owned(),
        original_line: 3,
        repair_title: "Clone".to_owned(),
        baseline_problem_signatures: Vec::new(),
        state: RepairVerificationState::Checking,
    };
    let problems = OwnershipProblems { status: "ready".to_owned(), ..Default::default() };
    let mut pending = Some(checking.clone());
    update_repair_verification(&mut pending, &problems);
    assert!(matches!(
        pending.as_ref().unwrap().state,
        RepairVerificationState::Resolved { remaining_file_problems: 0 }
    ));
    let mut settled = Some(RepairVerification { state: RepairVerificationState::Applying, ..checking });
    update_repair_verification(&mut settled, &problems);
    assert!(matches!(settled.unwrap().state, RepairVerificationState::Applying));
    let mut none: Option<RepairVerification> = None;
    update_repair_verification(&mut none, &problems);
    assert!(none.is_none());
}
