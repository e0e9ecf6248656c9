use rust_workbench::protocol::{
    candidate_validation_state, OwnershipMemoryNode, OwnershipModel, OwnershipProblem, OwnershipProblems,
    OwnershipRepair, OwnershipRepairEffects, OwnershipWorkspaceGuide, Position, Range,
};
use rust_workbench::protocol_checks::{
    validate_ownership_model, validate_ownership_problems, validate_range, validate_schema,
    validate_text, validate_workspace_guide, ProtocolError, MAX_OWNERSHIP_PROBLEMS,
    MAX_OWNERSHIP_TEXT_BYTES,
};

fn problem(id: String, range: Range) -> OwnershipProblem {
    OwnershipProblem {
        id,
        category: "use_after_move".to_owned(),
        diagnostic_code: Some("E0382".to_owned()),
        message: "value used after move".to_owned(),
        binding_name: "value".to_owned(),
        primary_range: range,
        binding_range: range,
        related_ranges: Vec::new(),
        related: Vec::new(),
        model_position: range.start,
        precision: "compiler_exact".to_owned(),
    }
}

#[test]
fn unavailable_payloads_may_use_schema_zero() {
    let problems = OwnershipProblems {
        status: "rust_analyzer_unavailable".to_owned(),
        ..Default::default()
    };
    let model = OwnershipModel {
        status: "rust_analyzer_unavailable".to_owned(),
        ..Default::default()
    };
    assert!(validate_ownership_problems(&problems).is_ok());
    assert!(validate_ownership_model(&model).is_ok());
}

#[test]
fn protocol_rejects_newer_schemas_and_inverted_ranges() {
    let model = OwnershipModel {
        schema_version: 15,
        status: "ready".to_owned(),
        ..Default::default()
    };
    assert!(validate_ownership_model(&model).is_err());

    let range = Range::new(Position::new(4, 8), Position::new(3, 1));
    let problems = OwnershipProblems {
        schema_version: 1,
        status: "ready".to_owned(),
        source_hash: "hash".to_owned(),
        problems: vec![problem("problem".to_owned(), range)],
    };
    assert!(validate_ownership_problems(&problems).is_err());
}

#[test]
fn protocol_rejects_duplicate_ids_and_excessive_problem_counts() {
    let range = Range::new(Position::new(1, 0), Position::new(1, 4));
    let duplicate = OwnershipProblems {
        schema_version: 1,
        status: "ready".to_owned(),
        source_hash: "hash".to_owned(),
        problems: vec![
            problem("same".to_owned(), range),
            problem("same".to_owned(), range),
        ],
    };
    assert!(validate_ownership_problems(&duplicate).is_err());

    let excessive = OwnershipProblems {
        schema_version: 1,
        status: "ready".to_owned(),
        source_hash: "hash".to_owned(),
        problems: (0..=MAX_OWNERSHIP_PROBLEMS)
            .map(|index| problem(format!("problem-{index}"), range))
            .collect(),
    };
    assert!(validate_ownership_problems(&excessive).is_err());
}

#[test]
fn protocol_rejects_unknown_statuses_and_oversized_repair_text() {
    let problems = OwnershipProblems {
        schema_version: 1,
        status: "mystery".to_owned(),
        ..Default::default()
    };
    assert!(validate_ownership_problems(&problems).is_err());

    let model = OwnershipModel {
        schema_version: 14,
        status: "ready".to_owned(),
        repairs: vec![OwnershipRepair {
            id: "repair".to_owned(),
            title: "Repair".to_owned(),
            strategy: "borrow".to_owned(),
            semantics: "borrows the value".to_owned(),
            diff: "x".repeat(MAX_OWNERSHIP_TEXT_BYTES + 1),
            affected_files: Vec::new(),
            preview_complete: true,
            compiler_validated: false,
            validation_state: "candidate".to_owned(),
            effects: OwnershipRepairEffects::default(),
            preview_graph: None,
        }],
        ..Default::default()
    };
    assert!(validate_ownership_model(&model).is_err());
}

#[test]
fn each_protocol_error_names_its_cause() {
    let ready = |schema_version: u32| OwnershipProblems {
        schema_version,
        status: "ready".to_owned(),
        source_hash: "hash".to_owned(),
        problems: Vec::new(),
    };
    assert_eq!(validate_ownership_problems(&ready(0)), Err(ProtocolError::SchemaOmitted));
    assert_eq!(validate_ownership_problems(&ready(8)), Err(ProtocolError::SchemaTooNew));
    assert_eq!(validate_ownership_problems(&ready(1)), Ok(()));

    let range = Range::new(Position::new(1, 0), Position::new(1, 4));
    let mut empty_id = ready(1);
    empty_id.problems.push(problem(String::new(), range));
    assert_eq!(validate_ownership_problems(&empty_id), Err(ProtocolError::EmptyId));

    let mut twice = ready(1);
    twice.problems.push(problem("a".to_owned(), range));
    twice.problems.push(problem("a".to_owned(), range));
    assert_eq!(validate_ownership_problems(&twice), Err(ProtocolError::DuplicateId));

    let mut too_many = ready(1);
    for index in 0..=MAX_OWNERSHIP_PROBLEMS {
        too_many.problems.push(problem(format!("p{index}"), range));
    }
    assert_eq!(validate_ownership_problems(&too_many), Err(ProtocolError::TooManyItems));

    let inverted = Range::new(Position::new(2, 5), Position::new(2, 4));
    assert_eq!(validate_range(&inverted), Err(ProtocolError::InvertedRange));
    assert_eq!(validate_range(&range), Ok(()));

    assert_eq!(validate_text(&"é".repeat(MAX_OWNERSHIP_TEXT_BYTES / 2)), Ok(()));
    assert_eq!(
        validate_text(&"é".repeat(MAX_OWNERSHIP_TEXT_BYTES / 2 + 1)),
        Err(ProtocolError::TextTooLong)
    );

    let unknown = OwnershipModel {
        schema_version: 1,
        status: "mystery".to_owned(),
        ..Default::default()
    };
    assert_eq!(validate_ownership_model(&unknown), Err(ProtocolError::UnknownStatus));
}

#[test]
fn schema_rules_allow_zero_only_when_unavailable() {
    assert_eq!(validate_schema(0, 14, true), Ok(()));
    assert_eq!(validate_schema(0, 14, false), Err(ProtocolError::SchemaOmitted));
    assert_eq!(validate_schema(14, 14, false), Ok(()));
    assert_eq!(validate_schema(15, 14, true), Err(ProtocolError::SchemaTooNew));
}

#[test]
fn workspace_guides_need_a_known_status() {
    let guide = OwnershipWorkspaceGuide {
        schema_version: 1,
        status: "ready".to_owned(),
        ..Default::default()
    };
    assert!(validate_workspace_guide(&guide).is_ok());
    let unknown = OwnershipWorkspaceGuide {
        schema_version: 1,
        status: "mystery".to_owned(),
        ..Default::default()
    };
    assert!(validate_workspace_guide(&unknown).is_err());
    assert_eq!(candidate_validation_state(), "candidate");
}

fn memory_node(id: &str, range: Option<Range>) -> OwnershipMemoryNode {
    OwnershipMemoryNode {
        id: id.to_owned(),
        body_id: 0,
        place: "v".to_owned(),
        kind: "binding".to_owned(),
        storage: "stack".to_owned(),
        label: "v".to_owned(),
        type_text: "u8".to_owned(),
        size: None,
        align: None,
        range,
        state: "available".to_owned(),
        provenance: "compiler_exact".to_owned(),
        physical_placement_note: String::new(),
        truncated: false,
    }
}

#[test]
fn the_first_failing_check_names_the_refusal() {
    let inverted = Range::new(Position::new(4, 8), Position::new(3, 1));
    let mut model = OwnershipModel {
        schema_version: 14,
        status: "ready".to_owned(),
        ..Default::default()
    };
    assert_eq!(validate_ownership_model(&model), Ok(()));
    model.memory_graph.nodes = vec![memory_node("a", Some(inverted))];
    assert_eq!(validate_ownership_model(&model), Err(ProtocolError::InvertedRange));
    model.memory_graph.nodes.push(memory_node("a", None));
    assert_eq!(validate_ownership_model(&model), Err(ProtocolError::DuplicateId));
    model.memory_graph.nodes[1].id = String::new();
    assert_eq!(validate_ownership_model(&model), Err(ProtocolError::EmptyId));
    model.compiler_schema_version = 8;
    assert_eq!(validate_ownership_model(&model), Err(ProtocolError::SchemaTooNew));
}
