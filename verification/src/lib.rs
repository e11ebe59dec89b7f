//! A static type-resolution layer for a path-based query language over
//! hierarchical, schema-described data: type descriptors and hierarchies,
//! a directional conversion catalog, choice-type resolution, navigation
//! path analysis and a type dependency graph.

pub mod boxing;
pub mod choice_types;
pub mod conformance;
pub mod constraints;
pub mod evaluation;
pub mod evaluator;
pub mod fhir_traits;
pub mod fhirpath_engine;
pub mod fhirpath_types;
pub mod navigation;
pub mod provider;
pub mod reflection;
pub mod server;
pub mod strutil;
pub mod terminology;
pub mod type_system;
