use rust_workbench::type_layers::{append_type_layers, TeachingLayer};
use rust_workbench::type_parser::parse_type;

#[test]
fn type_parser_preserves_nested_wrapper_arguments() {
    let parsed = parse_type("std::rc::Rc<RefCell<Vec<Result<Sku, Error>>>>");
    assert_eq!(parsed.outer, "Rc");
    assert_eq!(parsed.arguments, ["RefCell<Vec<Result<Sku, Error>>>"]);

    let result = parse_type("Result<Vec<Sku>, Arc<Error>>");
    assert_eq!(result.arguments, ["Vec<Sku>", "Arc<Error>"]);
}

#[test]
fn nested_wrappers_expand_to_real_storage_layers() {
    let mut layers: Vec<TeachingLayer> = Vec::new();
    append_type_layers("Rc<RefCell<Vec<i32>>>", "focus", "type", &mut layers, 0);
    let labels = layers.iter().map(|layer| layer.label.as_str()).collect::<Vec<_>>();
    assert!(labels.contains(&"Rc handle (shared owner)"));
    assert!(labels.contains(&"Rc allocation [strong | weak | value]"));
    assert!(labels.contains(&"RefCell runtime borrow flag"));
    assert!(labels.contains(&"Vec handle [ptr | len | cap]"));
    assert!(labels.iter().any(|label| label.starts_with("Heap A")));
}

#[test]
fn trait_objects_branch_data_from_vtable_metadata() {
    let mut layers: Vec<TeachingLayer> = Vec::new();
    append_type_layers("&dyn Display", "focus", "type", &mut layers, 0);
    let reference = layers.iter().find(|layer| layer.id_suffix.contains("reference")).unwrap();
    let data = layers.iter().find(|layer| layer.kind == "trait_object_data").unwrap();
    let vtable = layers.iter().find(|layer| layer.kind == "metadata").unwrap();
    assert_eq!(data.parent_suffix.as_deref(), Some(reference.id_suffix.as_str()));
    assert_eq!(vtable.parent_suffix.as_deref(), Some(reference.id_suffix.as_str()));
    assert_eq!(vtable.relation, "dispatches_via");
}

#[test]
fn owning_trait_object_keeps_vtable_with_the_fat_handle() {
    let mut layers: Vec<TeachingLayer> = Vec::new();
    append_type_layers("Box<dyn Display>", "focus", "type", &mut layers, 0);
    let handle = layers.iter().find(|layer| layer.label.contains("fat owner")).unwrap();
    let allocation = layers.iter().find(|layer| layer.kind == "heap_allocation").unwrap();
    let vtable = layers.iter().find(|layer| layer.kind == "metadata").unwrap();
    assert_eq!(allocation.parent_suffix.as_deref(), Some(handle.id_suffix.as_str()));
    assert_eq!(vtable.parent_suffix.as_deref(), Some(handle.id_suffix.as_str()));
    assert_ne!(vtable.parent_suffix, Some(allocation.id_suffix.clone()));
}

#[test]
fn common_type_families_never_collapse_to_an_empty_picture() {
    for type_text in [
        "String",
        "VecDeque<Sku>",
        "Arc<Mutex<Vec<Sku>>>",
        "Weak<String>",
        "Pin<Box<dyn Future<Output = Sku>>>",
        "Cow<'a, str>",
        "Option<Result<Sku, Error>>",
        "*const Sku",
        "&[Sku]",
        "compiler-generated closure environment",
    ] {
        let mut layers: Vec<TeachingLayer> = Vec::new();
        append_type_layers(type_text, "focus", "type", &mut layers, 0);
        assert!(!layers.is_empty(), "missing diagram layers for {type_text}");
    }
}

#[test]
fn async_types_show_saved_locals_and_suspension() {
    let mut layers: Vec<TeachingLayer> = Vec::new();
    append_type_layers("impl Future<Output = Sku>", "focus", "type", &mut layers, 0);
    assert!(layers.iter().any(|layer| layer.kind == "future_state"));
    assert!(layers.iter().any(|layer| layer.kind == "capture"));
    assert!(layers.iter().any(|layer| layer.kind == "suspension_point"));
}

#[test]
fn expanded_layers_form_a_tree_with_distinct_prefixed_ids() {
    for type_text in [
        "Arc<Mutex<Vec<Sku>>>",
        "Option<Result<Box<Sku>, Error>>",
        "Pin<Box<dyn Future<Output = Sku>>>",
        "&mut Rc<RefCell<String>>",
    ] {
        let mut layers: Vec<TeachingLayer> = Vec::new();
        append_type_layers(type_text, "focus", "type", &mut layers, 0);
        assert!(!layers.is_empty());
        assert!(layers.len() <= 24);
        assert_eq!(layers[0].parent_suffix.as_deref(), Some("focus"));
        for (index, layer) in layers.iter().enumerate() {
            assert!(layer.id_suffix.starts_with("type:"), "{}", layer.id_suffix);
            for other in &layers[index + 1..] {
                assert_ne!(layer.id_suffix, other.id_suffix);
            }
            if index > 0 {
                let parent = layer.parent_suffix.as_deref().unwrap();
                assert!(layers[..index].iter().any(|earlier| earlier.id_suffix == parent));
            }
        }
    }
}
