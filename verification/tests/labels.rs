use rust_workbench::coach::{
    beginner_memory_explanation, guided_event_explanation, loan_symbol, memory_symbol,
    state_symbol, visual_event_title, visual_phase_label, visual_state_symbol,
};
use rust_workbench::learning_catalog::{narrative_family, NarrativeFamily};
use rust_workbench::panel::{
    ownership_problem_status, ownership_problems_match_source, ownership_source_hash,
    ownership_status, readable_access, selected_button_label,
};
use rust_workbench::protocol::{
    OwnershipEvent, OwnershipMemoryNode, OwnershipModel, OwnershipProblem, OwnershipProblems,
    Position, Range,
};
use rust_workbench::selection::{
    distance_to_range, position_is_before, position_is_in_range, problem_distance,
    same_problem_target,
};
use rust_workbench::text::{
    ascii_lowercased, decimal_string, hex_string, replaced_char, signed_decimal_string, str_lt,
    trimmed, trimmed_start,
};
use rust_workbench::topology::{
    beginner_memory_state, beginner_relation_label, place_root, relation_priority,
    topology_detail, topology_moment_explanation,
};
use rust_workbench::type_parser::{simple_type_name, split_type_arguments};

fn range(start_line: u32, start_character: u32, end_line: u32, end_character: u32) -> Range {
    Range::new(
        Position::new(start_line, start_character),
        Position::new(end_line, end_character),
    )
}

fn problem(id: &str, code: Option<&str>, category: &str, binding: &str) -> OwnershipProblem {
    OwnershipProblem {
        id: id.to_owned(),
        category: category.to_owned(),
        diagnostic_code: code.map(str::to_owned),
        message: String::new(),
        binding_name: binding.to_owned(),
        primary_range: range(10, 4, 10, 9),
        binding_range: range(8, 8, 8, 12),
        related_ranges: Vec::new(),
        related: Vec::new(),
        model_position: Position::new(10, 4),
        precision: "compiler_exact".to_owned(),
    }
}

fn problems(status: &str, hash: &str, count: usize) -> OwnershipProblems {
    OwnershipProblems {
        schema_version: 1,
        status: status.to_owned(),
        source_hash: hash.to_owned(),
        problems: (0..count)
            .map(|index| problem(&format!("p{index}"), Some("E0382"), "use_after_move", "v"))
            .collect(),
    }
}

fn event(kind: &str) -> OwnershipEvent {
    OwnershipEvent {
        event_id: "e".to_owned(),
        body_id: 0,
        basic_block: 0,
        statement_index: 0,
        kind: kind.to_owned(),
        state: "available".to_owned(),
        place: "v".to_owned(),
        loan_id: None,
        range: range(1, 0, 1, 5),
        binding_range: range(1, 0, 1, 5),
        detail: None,
        destination: None,
    }
}

fn memory_node(storage: &str, size: Option<u64>, align: Option<u64>) -> OwnershipMemoryNode {
    OwnershipMemoryNode {
        id: "n".to_owned(),
        body_id: 0,
        place: "v".to_owned(),
        kind: "binding".to_owned(),
        storage: storage.to_owned(),
        label: "v".to_owned(),
        type_text: "Vec<u8>".to_owned(),
        size,
        align,
        range: None,
        state: "available".to_owned(),
        provenance: "compiler_exact".to_owned(),
        physical_placement_note: String::new(),
        truncated: false,
    }
}

#[test]
fn phase_labels_number_the_steps_from_one() {
    assert_eq!(visual_phase_label("contract", 0), "1 · Before");
    assert_eq!(visual_phase_label("invalid_use", 1), "2 · Conflict");
    assert_eq!(visual_phase_label("repair", 2), "3 · After / repair");
    assert_eq!(visual_phase_label("borrow_activate", 9), "10 · Mutable borrow");
    assert_eq!(visual_phase_label("something_else", 41), "42 · Step");
}

#[test]
fn event_titles_name_each_kind() {
    assert_eq!(visual_event_title("move"), "Move");
    assert_eq!(visual_event_title("borrow_activate"), "Borrow activates");
    assert_eq!(visual_event_title("invalid_use"), "Rejected use");
    assert_eq!(visual_event_title("drop"), "Dropped");
    assert_eq!(visual_event_title("other"), "State change");
}

#[test]
fn symbols_follow_the_state_words() {
    assert_eq!(visual_state_symbol("rejected_write"), "!");
    assert_eq!(visual_state_symbol("dropped"), "×");
    assert_eq!(visual_state_symbol("moved"), "○");
    assert_eq!(visual_state_symbol("shared_borrowed"), "◇");
    assert_eq!(visual_state_symbol("available"), "●");
    assert_eq!(visual_state_symbol("unknown"), "◆");
    assert_eq!(state_symbol("available"), "●");
    assert_eq!(state_symbol("partially_moved"), "◐");
    assert_eq!(state_symbol("dropped"), "×");
    assert_eq!(state_symbol("anything"), "·");
    assert_eq!(loan_symbol("mutable"), "◆");
    assert_eq!(loan_symbol("shared"), "◇");
    assert_eq!(memory_symbol("stack"), "▣");
    assert_eq!(memory_symbol("heap"), "⬡");
    assert_eq!(memory_symbol("inline"), "▤");
    assert_eq!(memory_symbol("static"), "□");
}

#[test]
fn guided_explanations_quote_the_place() {
    assert_eq!(
        guided_event_explanation("move", "order"),
        "Ownership of `order` transfers here; the old owner cannot be used."
    );
    assert_eq!(
        guided_event_explanation("last_use", "first"),
        "This is the final use of `first` on this control-flow path."
    );
    assert_eq!(
        guided_event_explanation("unheard_of", "x"),
        "Ownership state changes for `x`."
    );
    assert_eq!(
        beginner_memory_explanation("vec_buffer"),
        "the elements live in a separate growable heap buffer"
    );
    assert_eq!(
        beginner_memory_explanation("custom"),
        "inline value; custom allocation semantics are not assumed"
    );
}

#[test]
fn problem_status_counts_the_problems() {
    assert_eq!(
        ownership_problem_status(&problems("rust_analyzer_unavailable", "", 3)),
        "The patched rust-analyzer is not running for this buffer."
    );
    assert_eq!(
        ownership_problem_status(&problems("waiting_for_compiler", "", 3)),
        "Waiting for Cargo check learning facts…"
    );
    assert_eq!(
        ownership_problem_status(&problems("ready", "", 0)),
        "No supported Rust diagnostics in this file. Select a value to inspect valid ownership flow."
    );
    assert_eq!(
        ownership_problem_status(&problems("ready", "", 1)),
        "One explainable Rust problem found."
    );
    assert_eq!(
        ownership_problem_status(&problems("ready", "", 2)),
        "2 explainable Rust problems found."
    );
}

#[test]
fn model_status_names_precision_and_place() {
    let mut model = OwnershipModel::default();
    assert_eq!(
        ownership_status(&model),
        "Waiting for compiler facts. Save the file or run Cargo check."
    );
    model.status = "rust_analyzer_unavailable".to_owned();
    assert_eq!(
        ownership_status(&model),
        "The patched rust-analyzer is not running for this buffer."
    );
    model.status = "ready".to_owned();
    model.events = vec![event("move")];
    model.precision = "compiler_exact".to_owned();
    model.selected_place = Some("order".to_owned());
    model.truncated = true;
    assert_eq!(
        ownership_status(&model),
        "Compiler exact ownership timeline for order · large result bounded for responsiveness"
    );
    model.precision = "heuristic".to_owned();
    model.selected_place = None;
    model.truncated = false;
    assert_eq!(ownership_status(&model), "Estimated ownership timeline");
}

#[test]
fn source_hash_is_fnv1a_in_sixteen_hex_digits() {
    assert_eq!(ownership_source_hash(""), "cbf29ce484222325");
    assert_eq!(ownership_source_hash("a"), "af63dc4c8601ec8c");
    assert!(ownership_problems_match_source(&problems("ready", "af63dc4c8601ec8c", 0), "a"));
    assert!(!ownership_problems_match_source(&problems("ready", "af63dc4c8601ec8c", 0), "b"));
    assert!(ownership_problems_match_source(&problems("rust_analyzer_unavailable", "stale", 0), "b"));
}

#[test]
fn button_labels_mark_the_selection() {
    assert_eq!(selected_button_label(true, "Memory"), "● Memory");
    assert_eq!(selected_button_label(false, "Memory"), "Memory");
    assert_ne!(readable_access("mutable_borrow"), "");
}

#[test]
fn relation_words_for_beginners() {
    assert_eq!(beginner_relation_label("stores"), "holds this handle");
    assert_eq!(beginner_relation_label("moved_to"), "transferred control to");
    assert_eq!(beginner_relation_label("custom_link_kind"), "custom link kind");
    assert_eq!(relation_priority("stores"), 0);
    assert_eq!(relation_priority("weak_reference"), 2);
    assert_eq!(relation_priority("reborrow"), 5);
    assert_eq!(relation_priority("moved_to"), 6);
    assert_eq!(relation_priority("other"), 7);
}

#[test]
fn memory_states_for_beginners() {
    assert_eq!(beginner_memory_state("blocked_write"), "Operation blocked here");
    assert_eq!(beginner_memory_state("mutable_borrow"), "Exclusive edit access is active");
    assert_eq!(beginner_memory_state("mutably_borrowed"), "Temporary read access is active");
    assert_eq!(beginner_memory_state("shared_borrowed"), "Temporary read access is active");
    assert_eq!(beginner_memory_state("moved"), "Control moved to another place");
    assert_eq!(beginner_memory_state("dead"), "This layer has been cleaned up");
    assert_eq!(beginner_memory_state("alive"), "Available to use");
    assert_eq!(beginner_memory_state("odd_state"), "Current state: odd state");
}

#[test]
fn moment_explanations_and_details() {
    assert_eq!(
        topology_moment_explanation("clone", "a"),
        "A new handle is created from `a`; shared allocations are not duplicated."
    );
    assert_eq!(
        topology_moment_explanation("conflict", "self.items"),
        "Rust rejects this operation because `self.items` lacks the required access."
    );
    assert_eq!(
        topology_moment_explanation("other", "x"),
        "The ownership state of `x` changes here."
    );
    assert_eq!(topology_detail(&memory_node("heap_buffer", Some(24), Some(8))), "heap buffer · 24 B · align 8");
    assert_eq!(topology_detail(&memory_node("stack", Some(4), None)), "stack · 4 B");
    assert_eq!(topology_detail(&memory_node("inline", None, Some(8))), "inline · layout unknown");
    assert_eq!(place_root("*self.items[0]"), "self");
    assert_eq!(place_root("value"), "value");
    assert_eq!(place_root("**a[1].b"), "a");
}

#[test]
fn positions_and_ranges() {
    let r = range(3, 4, 5, 2);
    assert!(position_is_before(Position::new(1, 9), Position::new(2, 0)));
    assert!(!position_is_before(Position::new(2, 0), Position::new(2, 0)));
    assert!(position_is_in_range(Position::new(3, 4), r));
    assert!(position_is_in_range(Position::new(5, 2), r));
    assert!(!position_is_in_range(Position::new(5, 3), r));
    assert_eq!(distance_to_range(Position::new(4, 0), r), (0, 0));
    assert_eq!(distance_to_range(Position::new(3, 1), r), (0, 3));
    assert_eq!(distance_to_range(Position::new(1, 7), r), (2, 4));
    assert_eq!(distance_to_range(Position::new(5, 9), r), (0, 7));
    assert_eq!(distance_to_range(Position::new(8, 6), r), (3, 6));
    let p = problem("p", Some("E0382"), "use_after_move", "v");
    assert_eq!(problem_distance(Position::new(10, 6), &p), (0, 0));
    assert_eq!(problem_distance(Position::new(8, 1), &p), (0, 7));
}

#[test]
fn problems_share_a_target_by_code_category_and_binding() {
    let a = problem("a", Some("E0382"), "use_after_move", "v");
    assert!(same_problem_target(&a, &problem("b", Some("E0382"), "use_after_move", "v")));
    assert!(!same_problem_target(&a, &problem("b", None, "use_after_move", "v")));
    assert!(!same_problem_target(&a, &problem("b", Some("E0382"), "partial_move", "v")));
    assert!(!same_problem_target(&a, &problem("b", Some("E0382"), "use_after_move", "w")));
}

#[test]
fn narrative_families_group_categories() {
    assert_eq!(narrative_family("use_after_move"), NarrativeFamily::UseAfterMove);
    assert_eq!(narrative_family("assign_while_borrowed"), NarrativeFamily::MutableWhileShared);
    assert_eq!(narrative_family("borrowed_value_too_short"), NarrativeFamily::MissingLifetime);
}

#[test]
fn type_names_and_arguments() {
    assert_eq!(simple_type_name("std::rc::Rc"), "Rc");
    assert_eq!(simple_type_name("  Vec "), "Vec");
    assert_eq!(
        split_type_arguments("K, Vec<(A, B)>, [u8; 4] "),
        ["K", "Vec<(A, B)>", "[u8; 4]"]
    );
    assert_eq!(split_type_arguments("A,,B"), ["A", "", "B"]);
    assert!(split_type_arguments("   ").is_empty());
}

#[test]
fn text_helpers() {
    assert_eq!(trimmed("  a b \n"), "a b");
    assert_eq!(trimmed_start("\t x "), "x ");
    assert_eq!(decimal_string(0), "0");
    assert_eq!(decimal_string(1_234_567), "1234567");
    assert_eq!(signed_decimal_string(-42), "-42");
    assert_eq!(signed_decimal_string(i64::MIN), "-9223372036854775808");
    assert_eq!(hex_string(255, 4), "00ff");
    assert_eq!(hex_string(u64::MAX, 16), "ffffffffffffffff");
    assert_eq!(replaced_char("a_b_c", '_', ' '), "a b c");
    assert_eq!(ascii_lowercased("Vec<ÄB>"), "vec<Äb>");
    assert!(str_lt("ab", "abc"));
    assert!(str_lt("abc", "abd"));
    assert!(!str_lt("b", "abc"));
}
