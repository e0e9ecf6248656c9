//! Verified core of the Rust ownership workbench: protocol checks, cursor
//! selection, type diagrams, lesson catalogs and the commerce sample domain.
use vstd::prelude::*;

pub mod text;
pub mod protocol;
pub mod protocol_checks;
pub mod selection;
pub mod panel;
pub mod type_parser;
pub mod type_layers;
pub mod learning_catalog;
pub mod topology;
pub mod scene_layout;
pub mod scene_walk;
pub mod scene_steps;
pub mod keyed;
pub mod scene_graph;
pub mod teaching;
pub mod teaching_parts;
pub mod scene_teaching;
pub mod beginner_path;
pub mod coach;
pub mod focus;
pub mod rescan;
pub mod commerce;
pub mod stress_cases;
pub mod valid_patterns;

verus! {

} // verus!
