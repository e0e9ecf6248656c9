use rust_workbench::learning_catalog::beginner_narrative;

#[test]
fn every_supported_problem_family_has_a_complete_beginner_narrative() {
    let categories = [
        "use_after_move",
        "partial_move",
        "multiple_mutable_borrows",
        "mutable_while_shared",
        "move_while_borrowed",
        "assign_while_borrowed",
        "use_while_mutably_borrowed",
        "move_out_of_borrowed_content",
        "immutable_mutation",
        "missing_lifetime",
        "returning_local_reference",
        "borrowed_value_too_short",
        "temporary_dropped_while_borrowed",
        "trait_requirement",
        "type_mismatch",
        "method_or_trait_unavailable",
        "closure_may_outlive_borrow",
        "borrowed_data_escapes",
        "await_outside_async",
        "recursive_async_function",
    ];

    for category in categories {
        let narrative = beginner_narrative(category, "value");
        assert!(!narrative.title.is_empty(), "missing title for {category}");
        assert!(!narrative.before.is_empty(), "missing before for {category}");
        assert!(!narrative.operation.is_empty(), "missing operation for {category}");
        assert!(!narrative.now.is_empty(), "missing now for {category}");
        assert!(!narrative.common_expectation.is_empty(), "missing comparison for {category}");
        assert!(!narrative.rust_model.is_empty(), "missing Rust model for {category}");
        assert!(!narrative.intuition.is_empty(), "missing intuition for {category}");
        assert!(!narrative.misconception.is_empty(), "missing misconception for {category}");
        assert!(narrative.vocabulary.len() >= 3, "missing vocabulary for {category}");
    }
}

#[test]
fn fallback_narrative_remains_useful_for_new_problem_families() {
    let narrative = beginner_narrative("future_diagnostic", "item");
    assert!(narrative.title.contains("item"));
    assert_eq!(narrative.vocabulary.len(), 3);
}

#[test]
fn alias_categories_share_a_story_with_the_target_in_backticks() {
    assert_eq!(
        beginner_narrative("assign_while_borrowed", "x"),
        beginner_narrative("mutable_while_shared", "x")
    );
    assert_eq!(
        beginner_narrative("borrowed_value_too_short", "x"),
        beginner_narrative("missing_lifetime", "x")
    );
    assert_eq!(
        beginner_narrative("borrowed_data_escapes", "x"),
        beginner_narrative("closure_may_outlive_borrow", "x")
    );
    assert!(beginner_narrative("future_diagnostic", "item").title.contains("`item`"));
}
