use octofhir_fhir_model::choice_types::{ChoiceExpansion, ChoiceTypeDefinition, ChoiceTypeOption};
use octofhir_fhir_model::navigation::{NavigationPath, NavigationSegment};
use octofhir_fhir_model::reflection::TypeReflectionInfo;
use octofhir_fhir_model::type_system::Cardinality;

#[test]
fn test_choice_type_definition() {
    let type_info = TypeReflectionInfo::simple_type("FHIR", "string");

    let choice_def = ChoiceTypeDefinition::new("value", "value[x]").add_type_option(
        ChoiceTypeOption::new("string", "valueString", type_info.clone())
            .with_usage_frequency(80),
    );

    assert_eq!(choice_def.base_path, "value");
    assert_eq!(choice_def.choice_property, "value[x]");
    assert_eq!(choice_def.possible_types.len(), 1);

    let option = &choice_def.possible_types[0];
    assert_eq!(option.typename, "string");
    assert_eq!(option.expanded_property, "valueString");
    assert_eq!(option.usage_frequency, 80);
}

#[test]
fn test_choice_expansion() {
    let expansion = ChoiceExpansion::new("value[x]")
        .add_mapping("string", "valueString")
        .add_mapping("boolean", "valueBoolean");

    assert_eq!(
        expansion.expand_to_type("string"),
        Some("valueString".to_string())
    );
    assert_eq!(
        expansion.expand_to_type("boolean"),
        Some("valueBoolean".to_string())
    );
    assert_eq!(expansion.expand_to_type("integer"), None);

    assert_eq!(
        expansion.get_base_type("valueString"),
        Some("string".to_string())
    );
    assert_eq!(
        expansion.get_base_type("valueBoolean"),
        Some("boolean".to_string())
    );
    assert_eq!(expansion.get_base_type("valueInteger"), None);
}

#[test]
fn test_choice_type_operations() {
    let type_info = TypeReflectionInfo::simple_type("FHIR", "string");
    let choice_def = ChoiceTypeDefinition::new("value", "value[x]")
        .add_type_option(ChoiceTypeOption::new("string", "valueString", type_info));

    assert!(choice_def.is_expanded_property("valueString"));
    assert!(!choice_def.is_expanded_property("valueInteger"));

    assert_eq!(
        choice_def.get_type_from_expanded_property("valueString"),
        Some("string".to_string())
    );
    assert_eq!(
        choice_def.get_type_from_expanded_property("valueInteger"),
        None
    );

    let properties = choice_def.get_expanded_properties();
    assert_eq!(properties, vec!["valueString"]);
}

#[test]
fn test_choice_expansion_round_trip_both_options() {
    let expansion = ChoiceExpansion::new("value[x]")
        .add_mapping("string", "valueString")
        .add_mapping("boolean", "valueBoolean");
    for (t, p) in [("string", "valueString"), ("boolean", "valueBoolean")] {
        assert_eq!(expansion.expand_to_type(t), Some(p.to_string()));
        assert_eq!(expansion.get_base_type(p), Some(t.to_string()));
    }
}

#[test]
fn test_navigation_path_complexity() {
    let mut path = NavigationPath::new("Patient.name.given");
    assert!(path.is_empty());
    assert_eq!(path.complexity.complexity_score, 0);

    path.add_segment(NavigationSegment::property(
        "name",
        "Patient",
        "HumanName",
        Cardinality::multiple(),
    ));
    assert_eq!(path.complexity.segment_count, 1);
    assert_eq!(path.complexity.complexity_score, 10);
    assert!(!path.complexity.has_performance_concerns);
    assert_eq!(path.total_cost(), 10);

    path.add_segment(NavigationSegment::choice_expansion(
        "valueString",
        "value",
        "string",
        "Observation",
        "string",
        Cardinality::optional(),
    ));
    assert_eq!(path.complexity.choice_expansions, 1);
    assert_eq!(path.complexity.complexity_score, 50);
    assert_eq!(path.total_cost(), 40);

    path.add_segment(NavigationSegment::function(
        "where",
        "where",
        vec!["use = 'official'".to_string()],
        "HumanName",
        "HumanName",
        Cardinality::multiple(),
    ));
    assert_eq!(path.complexity.function_calls, 1);
    assert_eq!(path.complexity.complexity_score, 80);
    assert!(path.complexity.has_performance_concerns);
    assert_eq!(path.total_cost(), 90);
    assert_eq!(path.target_type(), Some("HumanName"));
}

#[test]
fn test_complexity_never_decreases_on_append() {
    let mut path = NavigationPath::new("p");
    let mut last_score = path.complexity.complexity_score;
    let mut last_cost = path.total_cost();
    let segments = [
        NavigationSegment::property("a", "A", "B", Cardinality::optional()),
        NavigationSegment::function(
            "exists",
            "exists",
            vec![],
            "B",
            "Boolean",
            Cardinality::required(),
        ),
        NavigationSegment::choice_expansion(
            "valueBoolean",
            "value",
            "boolean",
            "B",
            "boolean",
            Cardinality::optional(),
        ),
    ];
    for seg in segments {
        path.add_segment(seg);
        assert!(path.complexity.complexity_score >= last_score);
        assert!(path.total_cost() >= last_cost);
        last_score = path.complexity.complexity_score;
        last_cost = path.total_cost();
    }
}

#[test]
fn test_function_cost_table() {
    let card = Cardinality::optional();
    let first = NavigationSegment::function("first", "first", vec![], "A", "B", card.clone());
    assert_eq!(first.cost, 20);
    let select = NavigationSegment::function("select", "select", vec![], "A", "B", card.clone());
    assert_eq!(select.cost, 50);
    let other = NavigationSegment::function("toString", "toString", vec![], "A", "B", card);
    assert_eq!(other.cost, 40);
}
