use octofhir_fhir_model::fhirpath_types::{
    DependencyGraph, DependencyKind, ExpressionLocation, ExpressionTypeAnalysis, IssueSeverity,
    TypeCheckResult, TypeDependency, TypeError, TypeErrorKind, TypeReference,
};

fn dep(source: &str, target: &str) -> TypeDependency {
    TypeDependency {
        source_type: source.to_string(),
        target_type: target.to_string(),
        dependency_kind: DependencyKind::Reference,
        dependency_strength: 100,
        context: "test".to_string(),
        is_required: true,
    }
}

#[test]
fn test_expression_type_analysis() {
    let mut analysis = ExpressionTypeAnalysis::new("Patient.name.given");

    analysis = analysis.add_type_reference(TypeReference {
        typename: "Patient".to_string(),
        usage_context: "root".to_string(),
        is_explicit: true,
        confidence: 100,
        location: ExpressionLocation {
            start: 0,
            end: 7,
            line: None,
            column: None,
        },
        metadata: Vec::new(),
    });

    analysis.calculate_complexity();

    assert_eq!(analysis.expression, "Patient.name.given");
    assert_eq!(analysis.referenced_types.len(), 1);
    assert!(analysis.complexity_score > 0);
    assert!(!analysis.is_high_complexity());
}

#[test]
fn test_dependency_graph() {
    let mut graph = DependencyGraph::new();

    graph = graph.add_dependency(TypeDependency {
        source_type: "Patient".to_string(),
        target_type: "HumanName".to_string(),
        dependency_kind: DependencyKind::Composition,
        dependency_strength: 90,
        context: "name property".to_string(),
        is_required: true,
    });

    assert_eq!(graph.involved_types.len(), 2);
    assert_eq!(graph.dependencies.len(), 1);
    assert_eq!(graph.complexity_metrics.node_count, 2);
    assert_eq!(graph.complexity_metrics.edge_count, 1);
}

#[test]
fn test_circular_dependency_detection() {
    let mut graph = DependencyGraph::new();

    graph = graph.add_dependency(dep("A", "B")).add_dependency(dep("B", "A"));

    graph.detect_cycles();
    assert!(!graph.circular_dependencies.is_empty());
}

#[test]
fn test_two_cycle_reported_exactly_once() {
    let mut graph = DependencyGraph::new();
    graph = graph.add_dependency(dep("A", "B")).add_dependency(dep("B", "A"));

    graph.detect_cycles();
    assert_eq!(graph.circular_dependencies.len(), 1);
    let cycle = &graph.circular_dependencies[0];
    assert_eq!(cycle.cycle_length, 2);
    assert!(cycle.cycle_types.contains(&"A".to_string()));
    assert!(cycle.cycle_types.contains(&"B".to_string()));
}

#[test]
fn test_resolution_order_is_sorted() {
    let mut graph = DependencyGraph::new();
    graph = graph
        .add_dependency(dep("Zebra", "Alpha"))
        .add_dependency(dep("Alpha", "Mid"));
    graph.compute_resolution_order();
    assert_eq!(
        graph.resolution_order,
        vec![
            "Alpha".to_string(),
            "Mid".to_string(),
            "Zebra".to_string()
        ]
    );
}

#[test]
fn test_graph_metrics_density() {
    let mut graph = DependencyGraph::new();
    graph = graph.add_dependency(dep("A", "B")).add_dependency(dep("B", "A"));
    // 2 nodes, 2 edges: fan-out 100 hundredths, density 100 hundredths.
    assert_eq!(graph.complexity_metrics.average_fan_out, 100);
    assert_eq!(graph.complexity_metrics.density, 100);
}

#[test]
fn test_type_check_result() {
    let success_result = TypeCheckResult::success();
    assert!(success_result.is_valid);
    assert!(!success_result.has_issues());
    assert_eq!(success_result.confidence, 100);

    let error = TypeError {
        error_type: TypeErrorKind::TypeMismatch,
        message: "Expected string, got boolean".to_string(),
        location: ExpressionLocation {
            start: 0,
            end: 10,
            line: None,
            column: None,
        },
        expected_type: "string".to_string(),
        actual_type: "boolean".to_string(),
        context: Vec::new(),
    };

    let failure_result = TypeCheckResult::failure(vec![error]);
    assert!(!failure_result.is_valid);
    assert!(failure_result.has_issues());
    assert_eq!(failure_result.confidence, 0);
    assert_eq!(failure_result.type_errors.len(), 1);
    assert_eq!(
        failure_result.worst_issue_severity(),
        Some(IssueSeverity::Error)
    );
}

#[test]
fn test_involved_types_deduplicated() {
    let mut graph = DependencyGraph::new();
    graph = graph
        .add_dependency(dep("A", "B"))
        .add_dependency(dep("A", "C"))
        .add_dependency(dep("B", "C"));
    assert_eq!(graph.involved_types.len(), 3);
    assert_eq!(graph.complexity_metrics.node_count, 3);
    assert_eq!(graph.complexity_metrics.edge_count, 3);
    // 3 edges over 3 nodes: fan-out 100 hundredths; density 50 hundredths.
    assert_eq!(graph.complexity_metrics.average_fan_out, 100);
    assert_eq!(graph.complexity_metrics.density, 50);
}

#[test]
fn test_resolution_order_keeps_duplicates() {
    let mut graph = DependencyGraph::new();
    graph.involved_types = vec![
        "B".to_string(),
        "A".to_string(),
        "B".to_string(),
    ];
    graph.compute_resolution_order();
    assert_eq!(
        graph.resolution_order,
        vec!["A".to_string(), "B".to_string(), "B".to_string()]
    );
}
