use rust_workbench::beginner_path::derive_beginner_memory_path;
use rust_workbench::protocol::{
    OwnershipConflictEdge, OwnershipConflictGraph, OwnershipConflictNode,
    OwnershipConflictSnapshot, OwnershipMemoryEdge, OwnershipModel, OwnershipOperationEffect,
    OwnershipOperationInsight, OwnershipOperationReceiver, OwnershipProblem, Position, Range,
};
use rust_workbench::scene_layout::layout_topology_scene;
use rust_workbench::scene_steps::{topology_edge_active_at_step, topology_state_at_step};
use rust_workbench::scene_teaching::derive_teaching_topology_scene;
use rust_workbench::scene_walk::semantic_node_order;
use rust_workbench::topology::{
    beginner_memory_role, node_role, relation_button, relation_summary, topology_column,
    topology_node_tone, value_flow, NodeTone, OwnershipTopologyScene, TopologyEdge, TopologyNode,
    TopologyRect,
};

fn node(id: &str, kind: &str, storage: &str, label: &str, type_text: &str) -> TopologyNode {
    TopologyNode {
        id: id.to_owned(),
        place: "value".to_owned(),
        label: label.to_owned(),
        type_text: type_text.to_owned(),
        detail: storage.to_owned(),
        kind: kind.to_owned(),
        storage: storage.to_owned(),
        state: "available".to_owned(),
        provenance: "compiler_exact".to_owned(),
        column: topology_column(kind, storage),
        range: None,
        rect: TopologyRect::default(),
    }
}

fn edge(id: &str, source: &str, target: &str, label: &str) -> TopologyEdge {
    TopologyEdge {
        id: id.to_owned(),
        source: source.to_owned(),
        target: target.to_owned(),
        label: label.to_owned(),
        provenance: "compiler_exact".to_owned(),
        active: true,
        range: None,
        route: Vec::new(),
        label_position: (0, 0),
    }
}

fn scene(nodes: Vec<TopologyNode>, edges: Vec<TopologyEdge>) -> OwnershipTopologyScene {
    OwnershipTopologyScene {
        title: String::new(),
        summary: String::new(),
        nodes,
        edges,
        moments: Vec::new(),
        selected_step: 0,
        access_lines: Vec::new(),
        canvas_height: 0,
        expanded: false,
        truncated: false,
        legacy_limited: false,
    }
}

fn range(start_line: u32, start_character: u32, end_line: u32, end_character: u32) -> Range {
    Range::new(
        Position::new(start_line, start_character),
        Position::new(end_line, end_character),
    )
}

fn conflict_node(id: &str, label: &str, type_text: &str, role: &str, memory: &str) -> OwnershipConflictNode {
    OwnershipConflictNode {
        id: id.to_owned(),
        label: label.to_owned(),
        type_text: Some(type_text.to_owned()),
        role: role.to_owned(),
        memory: memory.to_owned(),
        range: None,
    }
}

fn snapshot(phase: &str, title: &str, explanation: &str, range: Range) -> OwnershipConflictSnapshot {
    OwnershipConflictSnapshot {
        phase: phase.to_owned(),
        title: title.to_owned(),
        explanation: explanation.to_owned(),
        range,
        states: Vec::new(),
    }
}

#[test]
fn vec_borrow_conflict_builds_the_beginner_reallocation_picture() {
    let model = OwnershipModel {
        schema_version: 14,
        compiler_schema_version: 7,
        target_triple: "x86_64-unknown-linux-gnu".to_owned(),
        precision: "compiler_exact".to_owned(),
        status: "ready".to_owned(),
        truncated: false,
        source_hash: "catalog".to_owned(),
        selected_problem_id: Some("e0502".to_owned()),
        selected_place: Some("*self.1".to_owned()),
        operations: vec![OwnershipOperationInsight {
            id: "push".to_owned(),
            range: range(53, 8, 53, 41),
            name: "push".to_owned(),
            signature: "fn push(&mut self, value: Sku)".to_owned(),
            receiver_type: Some("Vec<Sku>".to_owned()),
            required_access: "mutable_borrow".to_owned(),
            available_access: "shared_borrow_live".to_owned(),
            why_required: "push can change the vector length and allocation".to_owned(),
            documentation: None,
            effects: vec!["Adds one element and may reallocate.".to_owned()],
            effect_facts: vec![OwnershipOperationEffect {
                kind: "allocation".to_owned(),
                summary: "Adds one element and may reallocate.".to_owned(),
                certainty: "trusted_standard_library_catalog".to_owned(),
            }],
            call_chain: vec!["push".to_owned()],
            alternatives: Vec::new(),
            provenance: "signature_docs_and_trusted_catalog".to_owned(),
            truncated: false,
            summary: "push temporarily needs exclusive access".to_owned(),
            ownership_relevant: true,
            receiver_flow: Some(OwnershipOperationReceiver {
                expression: "self.featured".to_owned(),
                range: range(53, 8, 53, 21),
                transfer: "mutable_borrow".to_owned(),
                after: "Usable again when the borrow ends.".to_owned(),
                provenance: "resolved_self_parameter".to_owned(),
            }),
            argument_flows: Vec::new(),
            return_flow: None,
        }],
        mutation_requirement: None,
        conflict_graph: Some(OwnershipConflictGraph {
            title: "shared and mutable borrow conflict".to_owned(),
            summary: "first still reads from self.featured".to_owned(),
            requested_access: "mutable_borrow".to_owned(),
            nodes: vec![
                conflict_node("borrower", "first", "&Sku", "borrower_reference", "stack reference binding"),
                conflict_node("referent", "self.featured", "Vec<Sku>", "borrowed_value", "live borrowed value"),
                conflict_node("owner", "self", "&mut Catalog", "owner_path", "owner path"),
            ],
            edges: vec![
                OwnershipConflictEdge {
                    from: "borrower".to_owned(),
                    to: "referent".to_owned(),
                    kind: "borrow_shared".to_owned(),
                    label: "holds a live shared view into".to_owned(),
                    provenance: "compiler_diagnostic".to_owned(),
                },
                OwnershipConflictEdge {
                    from: "owner".to_owned(),
                    to: "referent".to_owned(),
                    kind: "contains".to_owned(),
                    label: "keeps alive".to_owned(),
                    provenance: "source_derived".to_owned(),
                },
            ],
            snapshots: vec![
                snapshot("borrow_created", "Borrow created", "first points into self.featured", range(52, 8, 52, 37)),
                snapshot("operation_rejected", "Operation rejected", "cannot borrow self.featured as mutable", range(53, 8, 53, 41)),
                snapshot("borrow_ended", "Borrow ended", "first has its final use", range(54, 8, 54, 57)),
            ],
            provenance: "compiler_diagnostic".to_owned(),
            truncated: false,
        }),
        source_context: None,
        c_sketch: None,
        ..OwnershipModel::default()
    };
    let problem = OwnershipProblem {
        id: "e0502".to_owned(),
        category: "mutable_while_shared".to_owned(),
        diagnostic_code: Some("E0502".to_owned()),
        message: "cannot borrow self.featured as mutable because it is also borrowed as immutable".to_owned(),
        binding_name: "self".to_owned(),
        primary_range: range(53, 8, 53, 41),
        binding_range: range(52, 8, 52, 37),
        related_ranges: Vec::new(),
        related: Vec::new(),
        model_position: Position::new(53, 8),
        precision: "compiler_exact".to_owned(),
    };

    let scene = derive_teaching_topology_scene(Some(&problem), &model, 1).unwrap();
    let labels = scene.nodes.iter().map(|node| node.label.as_str()).collect::<Vec<_>>();
    assert!(scene.title.contains("self.featured"));
    assert!(labels.contains(&"self.featured"));
    assert!(labels.contains(&"first"));
    assert!(labels.contains(&"Vec handle [ptr | len | cap]"));
    assert!(labels.iter().any(|label| label.starts_with("Heap A")));
    assert!(labels.iter().any(|label| label.starts_with("Heap B")));
    assert!(scene
        .edges
        .iter()
        .any(|edge| edge.label == "may_reallocate_to" && edge.provenance.contains("conceptual")));
    assert_eq!(scene.moments.len(), 3);
    assert_eq!(scene.selected_step, 1);
}

#[test]
fn beginner_path_keeps_every_nested_wrapper_layer_in_order() {
    let scene = scene(
        vec![
            node("binding", "binding", "stack", "variable value", "Rc<RefCell<Vec<i32>>>"),
            node("rc-handle", "handle", "inline", "Rc handle", "Rc<RefCell<Vec<i32>>>"),
            node("rc-allocation", "control_block", "heap", "Rc allocation", "RefCell<Vec<i32>>"),
            node("refcell", "borrow_flag", "inline", "RefCell borrow gate", "RefCell<Vec<i32>>"),
            node("vec-header", "wrapper", "inline", "Vec header", "Vec<i32>"),
            node("vec-buffer", "buffer", "heap", "Vec element buffer", "i32"),
        ],
        vec![
            edge("e1", "binding", "rc-handle", "stores"),
            edge("e2", "rc-handle", "rc-allocation", "shares_allocation"),
            edge("e3", "rc-allocation", "refcell", "contains"),
            edge("e4", "refcell", "vec-header", "guards_access"),
            edge("e5", "vec-header", "vec-buffer", "owns_buffer"),
        ],
    );

    let path = derive_beginner_memory_path(&scene);
    assert_eq!(path.stages.len(), 6);
    assert_eq!(
        path.stages.iter().map(|stage| beginner_memory_role(&stage.nodes[0])).collect::<Vec<_>>(),
        [
            "Local variable",
            "Inline owner handle",
            "Shared heap allocation",
            "Runtime borrow gate",
            "Inline collection header",
            "Heap element buffer",
        ]
    );
    assert_eq!(
        path.stages
            .iter()
            .skip(1)
            .map(|stage| stage.relation_from_previous[0].as_str())
            .collect::<Vec<_>>(),
        [
            "holds this handle",
            "shares ownership of",
            "contains",
            "controls access to",
            "owns the element storage",
        ]
    );
}

#[test]
fn beginner_path_groups_aliases_before_their_shared_allocation() {
    let scene = scene(
        vec![
            node("a", "binding", "stack", "variable a", "Rc<String>"),
            node("b", "binding", "stack", "variable b", "Rc<String>"),
            node("ha", "handle", "inline", "Rc handle a", "Rc<String>"),
            node("hb", "handle", "inline", "Rc handle b", "Rc<String>"),
            node("allocation", "control_block", "heap", "shared Rc allocation", "String"),
        ],
        vec![
            edge("e1", "a", "ha", "stores"),
            edge("e2", "b", "hb", "stores"),
            edge("e3", "ha", "allocation", "shares_allocation"),
            edge("e4", "hb", "allocation", "shares_allocation"),
        ],
    );

    let path = derive_beginner_memory_path(&scene);
    assert_eq!(path.stages.len(), 3);
    assert_eq!(path.stages[0].nodes.len(), 2);
    assert_eq!(path.stages[1].nodes.len(), 2);
    assert_eq!(path.stages[2].nodes.len(), 1);
    assert_eq!(path.stages[2].relation_from_previous, ["shares ownership of"]);
}

#[test]
fn extreme_visual_step_is_clamped_without_overflow() {
    let model = OwnershipModel::default();
    assert!(topology_state_at_step(&model, usize::MAX).is_empty());

    let edge = OwnershipMemoryEdge {
        id: "edge".to_owned(),
        source: "source".to_owned(),
        target: "target".to_owned(),
        relation: "owns".to_owned(),
        event_id: None,
        loan_id: None,
        range: None,
        provenance: "compiler_exact".to_owned(),
        path_marker: None,
    };
    assert!(topology_edge_active_at_step(&edge, &model, usize::MAX));
}

#[test]
fn oversized_layout_saturates_instead_of_panicking() {
    let mut nodes = (0..1_000)
        .map(|index| node(&format!("node-{index}"), "binding", "stack", "value", "T"))
        .collect::<Vec<_>>();
    let height = layout_topology_scene(&mut nodes, &mut Vec::new());

    assert_eq!(height, u16::MAX);
    assert_eq!(nodes.last().map(|node| node.rect.y), Some(u16::MAX));
    assert!(semantic_node_order(&nodes, &Vec::new(), &[], 0).is_empty());
}

#[test]
fn node_roles_name_the_box_before_its_column() {
    assert_eq!(node_role(&node("b", "binding", "stack", "x", "T")), "VARIABLE");
    assert_eq!(node_role(&node("h", "handle", "inline", "x", "T")), "HANDLE");
    assert_eq!(node_role(&node("w", "wrapper", "inline", "x", "T")), "WRAPPER");
    assert_eq!(node_role(&node("a", "control_block", "heap", "x", "T")), "HEAP");
    let other = node("o", "borrow_flag", "inline", "x", "T");
    assert_eq!(node_role(&other), rust_workbench::topology::topology_column_title(other.column));
}

#[test]
fn node_tones_follow_the_state_words() {
    assert_eq!(topology_node_tone("rejected write"), NodeTone::Error);
    assert_eq!(topology_node_tone("blocked"), NodeTone::Error);
    assert_eq!(topology_node_tone("shared_borrowed"), NodeTone::Info);
    assert_eq!(topology_node_tone("read-only"), NodeTone::Info);
    assert_eq!(topology_node_tone("moved"), NodeTone::Warning);
    assert_eq!(topology_node_tone("dropped"), NodeTone::Warning);
    assert_eq!(topology_node_tone("available"), NodeTone::Success);
}

#[test]
fn conflict_graph_scene_keeps_fixed_titles_and_lowercases_storage() {
    let mut model = OwnershipModel::default();
    assert!(rust_workbench::scene_teaching::derive_ownership_topology_scene(None, &model, 0).is_none());
    model.conflict_graph = Some(OwnershipConflictGraph {
        title: "conflict".to_owned(),
        summary: String::new(),
        requested_access: "mutable_borrow".to_owned(),
        nodes: vec![
            conflict_node("borrower", "first", "&Sku", "borrower_reference", "Stack Reference"),
            conflict_node("referent", "items", "Vec<Sku>", "borrowed_value", "Live BORROWED Value"),
        ],
        edges: vec![OwnershipConflictEdge {
            from: "borrower".to_owned(),
            to: "referent".to_owned(),
            kind: "borrow_shared".to_owned(),
            label: "reads".to_owned(),
            provenance: "compiler_diagnostic".to_owned(),
        }],
        snapshots: Vec::new(),
        provenance: "compiler_diagnostic".to_owned(),
        truncated: false,
    });
    let scene = rust_workbench::scene_graph::derive_ownership_topology_scene_with_limits(
        None, &model, 5, 12, 20, false,
    )
    .unwrap();
    assert_eq!(scene.title, "Where the selected value lives");
    assert!(!scene.expanded);
    assert_eq!(scene.selected_step, 0);
    assert_eq!(scene.nodes.len(), 2);
    let referent = scene.nodes.iter().find(|node| node.id == "referent").unwrap();
    assert_eq!(referent.storage, "live borrowed value");
    assert_eq!(referent.detail, "Live BORROWED Value");
    assert_eq!(referent.state, "alive");
    assert_eq!(scene.edges.len(), 1);

    let expanded = rust_workbench::scene_graph::derive_ownership_topology_scene_with_limits(
        None, &model, 0, 1, 0, true,
    )
    .unwrap();
    assert_eq!(expanded.title, "Full compiler ownership graph");
    assert_eq!(expanded.nodes.len(), 1);
    assert!(expanded.edges.is_empty());
    assert!(expanded.truncated);
}

#[test]
fn semantic_order_walks_closest_relations_first() {
    let nodes = vec![
        node("a", "binding", "stack", "variable a", "T"),
        node("b", "handle", "inline", "b", "T"),
        node("c", "handle", "inline", "c", "T"),
        node("d", "control_block", "heap", "d", "T"),
    ];
    let edges = vec![
        edge("e1", "a", "b", "owns_buffer"),
        edge("e2", "a", "c", "stores"),
        edge("e3", "c", "d", "owns"),
        edge("e4", "d", "a", "points_to"),
    ];
    assert_eq!(semantic_node_order(&nodes, &edges, &["value"], 12), ["a", "c", "b", "d"]);
    assert_eq!(semantic_node_order(&nodes, &edges, &["value"], 2), ["a", "c"]);
    assert!(semantic_node_order(&nodes, &edges, &["value"], 0).is_empty());
}

#[test]
fn beginner_path_numbers_unreached_nodes_after_the_farthest() {
    let scene = scene(
        vec![
            node("v", "binding", "stack", "variable v", "Box<u8>"),
            node("h", "handle", "inline", "Box handle", "Box<u8>"),
            node("x", "control_block", "heap", "stray allocation", "u8"),
            node("y", "buffer", "heap", "other stray", "u8"),
        ],
        vec![edge("e1", "v", "h", "stores"), edge("e2", "x", "y", "owns")],
    );
    let path = derive_beginner_memory_path(&scene);
    assert_eq!(path.stages.len(), 4);
    let ids = path
        .stages
        .iter()
        .map(|stage| stage.nodes.iter().map(|node| node.id.as_str()).collect::<Vec<_>>())
        .collect::<Vec<_>>();
    assert_eq!(ids, [vec!["v"], vec!["h"], vec!["x"], vec!["y"]]);
    assert!(path.stages[0].relation_from_previous.is_empty());
    assert_eq!(path.stages[1].relation_from_previous, ["holds this handle"]);
    assert!(path.stages[2].relation_from_previous.is_empty());
    assert_eq!(path.stages[3].relation_from_previous, ["owns"]);
}

#[test]
fn value_flow_names_each_node_by_its_lowercase_role() {
    let nodes = vec![
        node("binding", "binding", "stack", "cache", "Vec<String>"),
        node("buffer", "buffer", "heap", "Heap A", "[String]"),
    ];
    assert_eq!(value_flow(&nodes), "variable cache → heap Heap A");
    assert_eq!(value_flow(&Vec::new()), "");
}

#[test]
fn relation_words_use_node_labels_and_spaces() {
    let nodes = vec![
        node("binding", "binding", "stack", "cache", "Vec<String>"),
        node("buffer", "buffer", "heap", "Heap A", "[String]"),
    ];
    let owns = edge("e1", "binding", "buffer", "owns_buffer");
    assert_eq!(
        relation_summary(&nodes, &owns),
        "`cache` owns buffer `Heap A`. Provenance: compiler exact."
    );
    assert_eq!(relation_button(&nodes, &owns), "● cache · owns buffer · Heap A");
    let mut dangling = edge("e2", "binding", "missing", "points_to");
    dangling.active = false;
    assert_eq!(relation_button(&nodes, &dangling), "○ cache · points to · ?");
}
