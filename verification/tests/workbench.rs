use rust_workbench::coach::{
    generated_c_preview, guided_issue_facts, intent_recommendation, preferred_mutability_repair,
    problem_story, resolved_problem_target, smart_pointer_nodes, trace_arrow_label,
    visual_moments, IntentAnswers,
};
use rust_workbench::learning_catalog;
use rust_workbench::panel::{
    adjusted_panel_font_scale, listed_alternatives, memory_map_snapshot, model_response_is_current,
    operation_effect_rows, problem_headline, ownership_model_matches_problem,
    ownership_model_matches_source, ownership_source_hash, readable_available_access,
    repair_is_compiler_validated, repair_verification_outcome, ModelRequestKey, PointUtf16,
    RepairVerification, RepairVerificationState, DEFAULT_PANEL_FONT_SCALE_PERCENT,
    MAX_PANEL_FONT_SCALE_PERCENT, MIN_PANEL_FONT_SCALE_PERCENT, PANEL_FONT_SCALE_STEP_PERCENT,
};
use rust_workbench::protocol::{
    candidate_validation_state, OwnershipConflictGraph, OwnershipConflictSnapshot,
    OwnershipContextItem, OwnershipModel, OwnershipOperationEffect,
    OwnershipMutationRequirement, OwnershipOperationInsight, OwnershipProblem, OwnershipProblems,
    OwnershipRepair, OwnershipRepairEffects, OwnershipSourceContext, Position, Range,
};
use rust_workbench::scene_graph::selected_mutation_operation;
use rust_workbench::selection::{
    nearest_ownership_problem_index, ownership_problem_index_at_position,
    reconciled_ownership_problem_index, relative_problem_index,
};

fn test_problem(id: &str, binding: &str, binding_line: u32, error_line: u32) -> OwnershipProblem {
    OwnershipProblem {
        id: id.to_owned(),
        category: "mutable_while_shared".to_owned(),
        diagnostic_code: Some("E0502".to_owned()),
        message: format!("cannot borrow `{binding}` as mutable"),
        binding_name: binding.to_owned(),
        primary_range: Range::new(Position::new(error_line, 8), Position::new(error_line, 15)),
        binding_range: Range::new(
            Position::new(binding_line, 12),
            Position::new(binding_line, 12 + binding.len() as u32),
        ),
        related_ranges: Vec::new(),
        related: Vec::new(),
        model_position: Position::new(error_line, 8),
        precision: "compiler_exact".to_owned(),
    }
}

fn operation(id: &str, name: &str) -> OwnershipOperationInsight {
    OwnershipOperationInsight {
        id: id.to_owned(),
        range: Range::new(Position::new(13, 8), Position::new(14, 20)),
        name: name.to_owned(),
        signature: format!("fn {name}(&mut self)"),
        receiver_type: Some("Vec<String>".to_owned()),
        required_access: "mutable_borrow".to_owned(),
        available_access: "shared access through &self".to_owned(),
        why_required: format!("{name} may mutate the collection"),
        documentation: None,
        effects: Vec::new(),
        effect_facts: Vec::new(),
        call_chain: vec![name.to_owned()],
        alternatives: Vec::new(),
        provenance: "resolved_signature".to_owned(),
        truncated: false,
        summary: String::new(),
        ownership_relevant: false,
        receiver_flow: None,
        argument_flows: Vec::new(),
        return_flow: None,
    }
}

fn requirement(operation_id: &str, explanation: &str) -> OwnershipMutationRequirement {
    OwnershipMutationRequirement {
        target_place: "self.events".to_owned(),
        access_source: "&self".to_owned(),
        available_access: "shared_borrow".to_owned(),
        required_access: "mutable_borrow".to_owned(),
        operation_id: operation_id.to_owned(),
        operation_name: "push".to_owned(),
        explanation: explanation.to_owned(),
        provenance: "compiler_diagnostic_and_resolved_signature".to_owned(),
    }
}

#[test]
fn ownership_source_hash_matches_rust_analyzer() {
    assert_eq!(ownership_source_hash(""), "cbf29ce484222325");
    assert_eq!(ownership_source_hash("hello"), "a430d84680aabd0b");
}

#[test]
fn ownership_model_rejects_a_late_stale_response() {
    let source = "fn main() {}\n";
    let model = OwnershipModel {
        source_hash: ownership_source_hash(source),
        ..OwnershipModel::default()
    };
    assert!(ownership_model_matches_source(&model, source));
    assert!(!ownership_model_matches_source(&model, "fn main() { changed(); }\n"));
}

#[test]
fn schema_eleven_model_must_echo_the_locked_problem_id() {
    let model = OwnershipModel {
        schema_version: 11,
        selected_problem_id: Some("self-events-push".to_owned()),
        ..OwnershipModel::default()
    };
    assert!(ownership_model_matches_problem(&model, Some("self-events-push")));
    assert!(!ownership_model_matches_problem(&model, Some("current-assignment")));
    assert!(ownership_model_matches_problem(&model, None));
}

#[test]
fn mutation_guide_keeps_field_target_and_selects_responsible_operation() {
    let model = OwnershipModel {
        operations: vec![operation("unrelated", "clear"), operation("responsible", "push")],
        mutation_requirement: Some(requirement("responsible", "self.events is reached through &self")),
        ..OwnershipModel::default()
    };

    let selected = selected_mutation_operation(&model).unwrap();
    assert_eq!(model.operations[selected].name, "push");
    let requirement = model.mutation_requirement.as_ref().unwrap();
    assert_eq!(requirement.target_place, "self.events");
    assert_ne!(requirement.target_place, "self");
    assert_eq!(readable_available_access(&requirement.available_access), "shared access");

    let mut coarse_problem = test_problem("self-events", "self", 12, 13);
    coarse_problem.category = "immutable_mutation".to_owned();
    let fallback_model = OwnershipModel {
        selected_place: Some("self.events".to_owned()),
        operations: vec![operation("responsible", "push")],
        ..OwnershipModel::default()
    };
    assert_eq!(resolved_problem_target(&coarse_problem, &fallback_model), "self.events");
    assert_ne!(resolved_problem_target(&coarse_problem, &fallback_model), "self");
}

#[test]
fn ownership_repair_cannot_apply_before_compiler_validation() {
    let candidate = OwnershipRepair {
        id: "rc-0".to_owned(),
        title: "Use Rc".to_owned(),
        strategy: "rc".to_owned(),
        semantics: "shared ownership".to_owned(),
        diff: "- Box<T>\n+ Rc<T>".to_owned(),
        affected_files: Vec::new(),
        preview_complete: false,
        compiler_validated: false,
        validation_state: "candidate".to_owned(),
        effects: OwnershipRepairEffects::default(),
        preview_graph: None,
    };
    assert!(!repair_is_compiler_validated(&candidate));

    let validated = OwnershipRepair {
        compiler_validated: true,
        validation_state: "candidate".to_owned(),
        ..candidate.clone()
    };
    assert!(repair_is_compiler_validated(&validated));

    // A repair from an older server: no validation state, only the flag.
    let legacy = OwnershipRepair {
        id: "rc-0".to_owned(),
        title: "Use Rc".to_owned(),
        strategy: "rc".to_owned(),
        semantics: "shared ownership".to_owned(),
        diff: "+ Rc<T>".to_owned(),
        affected_files: Vec::new(),
        preview_complete: false,
        compiler_validated: true,
        validation_state: candidate_validation_state(),
        effects: OwnershipRepairEffects::default(),
        preview_graph: None,
    };
    assert!(repair_is_compiler_validated(&legacy));
}

fn verification(code: &str, category: &str, binding: &str, line: u32, title: &str, baseline: &[&str]) -> RepairVerification {
    let mut signatures: Vec<String> = baseline.iter().map(|s| s.to_string()).collect();
    signatures.sort();
    signatures.dedup();
    RepairVerification {
        diagnostic_code: Some(code.to_owned()),
        category: category.to_owned(),
        binding_name: binding.to_owned(),
        original_line: line,
        repair_title: title.to_owned(),
        baseline_problem_signatures: signatures,
        state: RepairVerificationState::Checking,
    }
}

#[test]
fn repair_result_tracks_the_selected_issue_when_other_errors_remain() {
    let verification = verification(
        "E0502",
        "mutable_while_shared",
        "selected",
        20,
        "Narrow the borrow",
        &["E0502|mutable_while_shared|selected", "E0502|mutable_while_shared|other"],
    );
    let problems = OwnershipProblems {
        status: "ready".to_owned(),
        problems: vec![test_problem("other", "other", 40, 44)],
        ..OwnershipProblems::default()
    };
    assert!(matches!(
        repair_verification_outcome(&verification, &problems),
        RepairVerificationState::Resolved { remaining_file_problems: 1 }
    ));
}

#[test]
fn repair_result_does_not_claim_success_when_matching_error_remains_nearby() {
    let verification = verification(
        "E0502",
        "mutable_while_shared",
        "selected",
        20,
        "Narrow the borrow",
        &["E0502|mutable_while_shared|selected"],
    );
    let problems = OwnershipProblems {
        status: "ready".to_owned(),
        problems: vec![test_problem("same", "selected", 10, 22)],
        ..OwnershipProblems::default()
    };
    assert!(matches!(
        repair_verification_outcome(&verification, &problems),
        RepairVerificationState::StillPresent { current_line: 22 }
    ));
}

#[test]
fn repair_result_rejects_new_diagnostics_after_the_selected_error_disappears() {
    let verification = verification(
        "E0596",
        "immutable_mutation",
        "self.events",
        13,
        "Use a mutable receiver",
        &["E0596|immutable_mutation|self.events"],
    );
    let mut introduced = test_problem("new-caller-error", "analytics", 50, 52);
    introduced.category = "immutable_mutation".to_owned();
    introduced.diagnostic_code = Some("E0596".to_owned());
    let problems = OwnershipProblems {
        status: "ready".to_owned(),
        problems: vec![introduced],
        ..OwnershipProblems::default()
    };
    assert!(matches!(
        repair_verification_outcome(&verification, &problems),
        RepairVerificationState::IntroducedProblems { summaries }
            if summaries.iter().any(|summary| summary.contains("analytics"))
    ));
}

#[test]
fn ownership_problem_stories_are_specific_and_beginner_readable() {
    let (title, what, why) = problem_story("partial_move", "pair");
    assert!(title.contains("Part of `pair` moved"));
    assert!(what.contains("field"));
    assert!(why.contains("moved field"));

    let (title, _, why) = problem_story("multiple_mutable_borrows", "data");
    assert!(title.contains("two overlapping mutable borrows"));
    assert!(why.contains("one writer"));
}

#[test]
fn ownership_problem_selection_follows_the_nearest_cursor_range() {
    let problems = vec![
        test_problem("self-error", "self", 11, 13),
        test_problem("current-error", "current", 18, 21),
        test_problem("history-error", "self", 26, 27),
    ];
    assert_eq!(nearest_ownership_problem_index(&problems, Position::new(11, 14)), Some(0));
    assert_eq!(nearest_ownership_problem_index(&problems, Position::new(18, 14)), Some(1));
    assert_eq!(nearest_ownership_problem_index(&problems, Position::new(27, 10)), Some(2));
}

#[test]
fn locked_issue_changes_only_inside_an_exact_primary_diagnostic_range() {
    let problems = vec![
        test_problem("self-events-push", "self.events", 12, 13),
        test_problem("current-assignment", "*current", 19, 21),
    ];
    assert_eq!(ownership_problem_index_at_position(&problems, Position::new(13, 10)), Some(0));
    assert_eq!(ownership_problem_index_at_position(&problems, Position::new(21, 10)), Some(1));
    assert_eq!(
        ownership_problem_index_at_position(&problems, Position::new(12, 20)),
        None,
        "clicking the receiver signature must not replace the locked field diagnostic"
    );
    assert_eq!(
        ownership_problem_index_at_position(&problems, Position::new(17, 0)),
        None,
        "ordinary cursor movement must not choose the nearest issue"
    );
}

#[test]
fn rescans_reconcile_duplicate_targets_by_diagnostic_and_source_proximity() {
    let mut previous = test_problem("old-clear", "self.events", 26, 27);
    previous.category = "immutable_mutation".to_owned();
    previous.diagnostic_code = Some("E0596".to_owned());

    let mut push = test_problem("new-push", "self.events", 12, 13);
    push.category = "immutable_mutation".to_owned();
    push.diagnostic_code = Some("E0596".to_owned());
    let mut clear = test_problem("new-clear", "self.events", 27, 28);
    clear.category = "immutable_mutation".to_owned();
    clear.diagnostic_code = Some("E0596".to_owned());

    assert_eq!(
        reconciled_ownership_problem_index(&previous, &vec![push, clear]),
        Some(1),
        "a rescan must not jump from clear_history back to track_order"
    );
}

#[test]
fn late_model_responses_cannot_replace_the_locked_issue() {
    let request_a = ModelRequestKey {
        source_hash: "source".to_owned(),
        problem_id: Some("self-events".to_owned()),
        position: PointUtf16 { row: 13, column: 8 },
        selection_epoch: 4,
    };
    let request_b = ModelRequestKey {
        problem_id: Some("current".to_owned()),
        position: PointUtf16 { row: 21, column: 8 },
        selection_epoch: 5,
        ..request_a.clone()
    };

    assert!(!model_response_is_current(Some(&request_b), &request_a, Some("current"), 5));
    assert!(!model_response_is_current(Some(&request_b), &request_b, Some("self-events"), 5));
    assert!(model_response_is_current(Some(&request_b), &request_b, Some("current"), 5));
}

#[test]
fn guided_mutation_facts_name_the_field_and_use_self_only_as_the_access_route() {
    let mut problem = test_problem("self-events", "self.events", 12, 13);
    problem.category = "immutable_mutation".to_owned();
    problem.diagnostic_code = Some("E0596".to_owned());
    let model = OwnershipModel {
        selected_place: Some("self.events".to_owned()),
        mutation_requirement: Some(requirement(
            "push-operation",
            "shared access cannot provide mutation",
        )),
        ..OwnershipModel::default()
    };

    let facts = guided_issue_facts(&problem, &model);
    assert_eq!(facts.target, "self.events");
    assert_eq!(facts.access_route.as_deref(), Some("&self"));
    assert_eq!(facts.operation.as_deref(), Some("push"));
    assert!(facts.headline.contains("self.events"));
    assert!(!facts.headline.contains("on `self`"));
    assert!(facts.state_summary.contains("alive"));
    assert!(facts.state_summary.contains("has not moved"));
}

#[test]
fn preferred_mutability_repair_changes_the_receiver_not_the_field_type() {
    let mut problem = test_problem("self-events", "self.events", 12, 13);
    problem.category = "immutable_mutation".to_owned();
    problem.diagnostic_code = Some("E0596".to_owned());
    let model = OwnershipModel {
        mutation_requirement: Some(requirement("push-operation", "push needs exclusive mutable access")),
        source_context: Some(OwnershipSourceContext {
            file: "analytics.rs".to_owned(),
            breadcrumbs: vec![OwnershipContextItem {
                kind: "function".to_owned(),
                label: "track_order".to_owned(),
                range: Some(Range::default()),
            }],
            call_paths: Vec::new(),
            related_types: vec!["Analytics".to_owned()],
            provenance: "syntax".to_owned(),
            truncated: false,
        }),
        ..OwnershipModel::default()
    };

    let repair = preferred_mutability_repair(&problem, &model).unwrap();
    assert!(repair.diff.contains("fn track_order(&self"));
    assert!(repair.diff.contains("fn track_order(&mut self"));
    assert!(!repair.diff.contains("RefCell"));
    assert!(!repair.diff.contains("Rc<"));
    assert!(repair.impact.contains("no runtime borrow checks"));
}

#[test]
fn ownership_problem_buttons_wrap_in_both_directions() {
    assert_eq!(relative_problem_index(None, 0, 1), None);
    assert_eq!(relative_problem_index(Some(0), 5, 1), Some(1));
    assert_eq!(relative_problem_index(Some(4), 5, 1), Some(0));
    assert_eq!(relative_problem_index(Some(0), 5, -1), Some(4));
}

#[test]
fn panel_font_scale_uses_ten_percent_steps_and_safe_limits() {
    assert_eq!(
        adjusted_panel_font_scale(DEFAULT_PANEL_FONT_SCALE_PERCENT, PANEL_FONT_SCALE_STEP_PERCENT),
        110
    );
    assert_eq!(adjusted_panel_font_scale(110, -PANEL_FONT_SCALE_STEP_PERCENT), 100);
    assert_eq!(adjusted_panel_font_scale(MIN_PANEL_FONT_SCALE_PERCENT, -10), 80);
    assert_eq!(adjusted_panel_font_scale(MAX_PANEL_FONT_SCALE_PERCENT, 10), 180);
}

#[test]
fn generated_c_preview_truncates_on_a_utf8_boundary() {
    let preview = generated_c_preview("abc€def".to_owned(), "artifact.c", 4);
    assert!(preview.starts_with("abc"));
    assert!(!preview.starts_with("abc€"));
    assert!(preview.contains("artifact.c"));
}

#[test]
fn intent_matrix_distinguishes_clone_rc_refcell_and_threads() {
    assert!(intent_recommendation(IntentAnswers {
        independent_clone: Some(true),
        ..Default::default()
    })
    .starts_with("Clone"));
    assert!(intent_recommendation(IntentAnswers {
        multiple_owners: Some(true),
        mutation: Some(false),
        crosses_threads: Some(false),
        independent_clone: Some(false),
    })
    .contains("Rc<T>"));
    assert!(intent_recommendation(IntentAnswers {
        multiple_owners: Some(true),
        mutation: Some(true),
        crosses_threads: Some(false),
        independent_clone: Some(false),
    })
    .contains("Rc<RefCell<T>>"));
    assert!(intent_recommendation(IntentAnswers {
        multiple_owners: Some(true),
        mutation: Some(true),
        crosses_threads: Some(true),
        independent_clone: Some(false),
    })
    .contains("Arc<Mutex<T>>"));
}

#[test]
fn bundled_concept_catalog_is_closed_and_checkpointed() {
    let lessons = learning_catalog::all_lessons();
    assert!(lessons.len() >= 20);
    let mut ids: Vec<&str> = lessons.iter().map(|lesson| lesson.id).collect();
    ids.sort();
    ids.dedup();
    assert_eq!(ids.len(), lessons.len(), "concept ids must be unique");
    for lesson in lessons {
        assert!(!lesson.title.is_empty());
        assert!(!lesson.rule.is_empty());
        assert!(!lesson.memory_model.is_empty());
        assert!(lesson.correct_choice < lesson.choices.len());
        for related in lesson.related {
            assert!(ids.contains(related), "{} links to missing {related}", lesson.id);
        }
    }
}

#[test]
fn every_supported_problem_family_has_a_precomputed_lesson_and_repairs() {
    for category in [
        "use_after_move",
        "partial_move",
        "multiple_mutable_borrows",
        "mutable_while_shared",
        "use_while_mutably_borrowed",
        "move_while_borrowed",
        "assign_while_borrowed",
        "move_out_of_borrowed_content",
        "immutable_mutation",
        "missing_lifetime",
        "returning_local_reference",
        "borrowed_value_too_short",
        "temporary_dropped_while_borrowed",
        "trait_requirement",
        "type_mismatch",
        "method_or_trait_unavailable",
        "closure_may_outlive_borrow",
        "borrowed_data_escapes",
        "await_outside_async",
        "recursive_async_function",
    ] {
        let ids = learning_catalog::lesson_ids_for_problem(category, None);
        assert!(!ids.is_empty(), "missing lesson mapping for {category}");
        assert!(
            ids.iter().all(|id| learning_catalog::lesson(id).is_some()),
            "invalid lesson mapping for {category}"
        );
        assert!(
            !learning_catalog::repair_ideas(category).is_empty(),
            "missing repair ideas for {category}"
        );
    }
}

#[test]
fn visual_fallback_is_a_three_step_compiler_story() {
    let problem = test_problem("type-error", "value", 4, 7);
    let moments = visual_moments(Some(&problem), &OwnershipModel::default());
    assert_eq!(moments.len(), 3);
    assert_eq!(moments[0].phase, "contract");
    assert_eq!(moments[1].phase, "operation_rejected");
    assert_eq!(moments[2].phase, "repair");
    assert_eq!(moments[1].range, problem.primary_range);
}

#[test]
fn beginner_pointer_models_keep_owners_references_and_runtime_guards_distinct() {
    let cases = [
        ("Box<Vec<i32>>", "unique Box handle", "not the allocation"),
        ("&String", "non-owning pointer", "remains alive"),
        ("&mut String", "exclusive access", "remains alive"),
        ("Rc<String>", "strong count = symbolic N", "Rc::clone: N + 1"),
        ("Arc<String>", "atomic strong count = symbolic N", "Arc::clone: N + 1"),
        ("RefCell<String>", "runtime borrow flag", "can panic"),
        ("Rc<RefCell<String>>", "shared heap allocation", "runtime borrow flag"),
        ("Arc<Mutex<String>>", "atomic strong count", "one lock holder"),
        ("Arc<RwLock<String>>", "atomic strong count", "many readers or one writer"),
    ];
    for (type_text, first_fact, second_fact) in cases {
        let model = smart_pointer_nodes("value", type_text).join("\n");
        assert!(model.contains(first_fact), "missing `{first_fact}` for {type_text}: {model}");
        assert!(model.contains(second_fact), "missing `{second_fact}` for {type_text}: {model}");
    }
}

#[test]
fn beginner_trace_language_does_not_conflate_move_copy_clone_and_borrow() {
    assert_eq!(trace_arrow_label("move"), "ownership moves");
    assert_eq!(trace_arrow_label("copy"), "value copies");
    assert_eq!(trace_arrow_label("clone"), "clone returns");
    assert_eq!(trace_arrow_label("borrow_shared"), "shared reference");
    assert_eq!(trace_arrow_label("borrow_mutable"), "exclusive reference");
}

fn conflict_graph(snapshots: usize) -> OwnershipConflictGraph {
    OwnershipConflictGraph {
        title: "`cache` is borrowed while it is changed".to_owned(),
        summary: "The shared borrow is still live.".to_owned(),
        requested_access: "mutable_borrow".to_owned(),
        nodes: Vec::new(),
        edges: Vec::new(),
        snapshots: (0..snapshots)
            .map(|step| OwnershipConflictSnapshot {
                phase: format!("phase {step}"),
                title: String::new(),
                explanation: String::new(),
                range: Range::new(Position::new(1, 0), Position::new(1, 1)),
                states: Vec::new(),
            })
            .collect(),
        provenance: "compiler_exact".to_owned(),
        truncated: false,
    }
}

#[test]
fn problem_card_prefers_the_conflict_graph_headline() {
    let graph = Some(conflict_graph(1));
    let (title, summary) = problem_headline("mutable_while_shared", "cache", &graph);
    assert_eq!(title, "`cache` is borrowed while it is changed");
    assert_eq!(summary, "The shared borrow is still live.");
    let (title, summary) = problem_headline("mutable_while_shared", "cache", &None);
    let story = problem_story("mutable_while_shared", "cache");
    assert_eq!(title, story.0);
    assert_eq!(summary, story.1);
}

#[test]
fn memory_map_shows_the_step_or_else_the_last_snapshot() {
    assert_eq!(memory_map_snapshot(&conflict_graph(3), 1), Some(1));
    assert_eq!(memory_map_snapshot(&conflict_graph(3), 7), Some(2));
    assert_eq!(memory_map_snapshot(&conflict_graph(0), 0), None);
}

#[test]
fn collapsed_operation_cards_list_three_alternatives() {
    assert_eq!(listed_alternatives(false, 5), 3);
    assert_eq!(listed_alternatives(false, 2), 2);
    assert_eq!(listed_alternatives(true, 5), 5);
}

#[test]
fn effect_rows_prefer_effect_facts() {
    let mut op = operation("op", "push");
    op.effects = vec!["appends one element".to_owned()];
    let rows = operation_effect_rows(&op);
    assert_eq!(
        rows,
        vec![(
            "behavior".to_owned(),
            "appends one element".to_owned(),
            "resolved_signature".to_owned()
        )]
    );
    op.effect_facts = vec![OwnershipOperationEffect {
        kind: "may_reallocate".to_owned(),
        summary: "the buffer can move".to_owned(),
        certainty: "documented".to_owned(),
    }];
    let rows = operation_effect_rows(&op);
    assert_eq!(
        rows,
        vec![(
            "may_reallocate".to_owned(),
            "the buffer can move".to_owned(),
            "documented".to_owned()
        )]
    );
}
