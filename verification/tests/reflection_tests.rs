use octofhir_fhir_model::reflection::{ElementInfo, TupleElementInfo, TypeHierarchy, TypeReflectionInfo, TypeSuggestion};
use octofhir_fhir_model::type_system::{
    ConversionType, InferenceHint, InferenceHintType, PolymorphicContext, ResolutionStrategy,
};

#[test]
fn test_simple_type() {
    let string_type = TypeReflectionInfo::simple_type("System", "String");
    assert_eq!(string_type.name(), "String");
    assert_eq!(string_type.namespace(), Some("System"));
    assert_eq!(string_type.qualified_name(), "System.String");
    assert!(string_type.is_primitive());
    assert!(!string_type.is_fhir_type());
}

#[test]
fn test_class_type() {
    let elements = vec![
        ElementInfo::new("id", TypeReflectionInfo::simple_type("System", "String"))
            .with_cardinality(0, Some(1)),
        ElementInfo::new("name", TypeReflectionInfo::simple_type("System", "String"))
            .with_cardinality(0, None)
            .with_summary(),
    ];

    let patient_type = TypeReflectionInfo::class_type("FHIR", "Patient", elements);
    assert_eq!(patient_type.name(), "Patient");
    assert_eq!(patient_type.namespace(), Some("FHIR"));
    assert!(patient_type.is_fhir_type());
    assert!(!patient_type.is_primitive());

    let patient_elements = patient_type.elements();
    assert_eq!(patient_elements.len(), 2);
    assert_eq!(patient_elements[0].name, "id");
    assert_eq!(patient_elements[1].name, "name");
    assert!(patient_elements[1].is_summary);
}

#[test]
fn test_list_type() {
    let string_type = TypeReflectionInfo::simple_type("System", "String");
    let list_type = TypeReflectionInfo::list_type(string_type);

    assert!(list_type.is_collection());
    assert_eq!(list_type.name(), "List");
    assert_eq!(list_type.qualified_name(), "List<System.String>");

    let element_type = list_type.element_type().unwrap();
    assert_eq!(element_type.name(), "String");
}

#[test]
fn test_tuple_type() {
    let elements = vec![
        TupleElementInfo::new("x", TypeReflectionInfo::simple_type("System", "Integer")),
        TupleElementInfo::new("y", TypeReflectionInfo::simple_type("System", "Integer")),
    ];

    let tuple_type = TypeReflectionInfo::tuple_type(elements);
    assert_eq!(tuple_type.name(), "Tuple");

    let tuple_elements = tuple_type.tuple_elements();
    assert_eq!(tuple_elements.len(), 2);
    assert_eq!(tuple_elements[0].name, "x");
    assert_eq!(tuple_elements[1].name, "y");
}

#[test]
fn test_element_info() {
    let element = ElementInfo::new("name", TypeReflectionInfo::simple_type("System", "String"))
        .with_cardinality(1, None)
        .with_modifier()
        .with_summary()
        .with_documentation("Patient name");

    assert_eq!(element.name, "name");
    assert!(element.is_required());
    assert!(element.is_multiple());
    assert!(element.is_modifier);
    assert!(element.is_summary);
    assert_eq!(element.documentation.as_deref(), Some("Patient name"));
}

#[test]
fn reflection_test_type_hierarchy() {
    let mut hierarchy = TypeHierarchy::new("Patient");
    hierarchy.add_parent("DomainResource");
    hierarchy.add_parent("Resource");
    hierarchy.add_child("USCorePatient");

    assert!(hierarchy.is_ancestor("Resource"));
    assert!(hierarchy.is_descendant("USCorePatient"));
    assert!(!hierarchy.is_ancestor("Observation"));
    assert_eq!(hierarchy.parents.len(), 2);
    assert_eq!(hierarchy.children.len(), 1);
}

#[test]
fn test_type_suggestion() {
    let suggestion = TypeSuggestion::new("Patient", "resource", "FHIR", 95)
        .with_description("Patient demographic and administrative information");

    assert_eq!(suggestion.typename, "Patient");
    assert_eq!(suggestion.kind, "resource");
    assert_eq!(suggestion.relevance_score, 95);
    assert!(suggestion.description.is_some());
}

#[test]
fn test_type_compatibility() {
    let integer_type = TypeReflectionInfo::simple_type("System", "Integer");
    let decimal_type = TypeReflectionInfo::simple_type("System", "Decimal");
    let string_type = TypeReflectionInfo::simple_type("System", "String");

    assert!(integer_type.is_compatible_with(&decimal_type));
    assert!(integer_type.is_compatible_with(&string_type));
    assert!(decimal_type.is_compatible_with(&string_type));

    assert!(!decimal_type.is_compatible_with(&integer_type));
}

#[test]
fn test_inheritance_relationships() {
    let base_type = TypeReflectionInfo::simple_type("FHIR", "Element");
    let derived_type =
        TypeReflectionInfo::simple_type_with_base("FHIR", "BackboneElement", "Element");

    assert!(derived_type.is_subtype_of("Element"));
    assert!(!base_type.is_subtype_of("BackboneElement"));

    let ancestors = derived_type.get_ancestors();
    assert_eq!(ancestors, vec!["Element"]);
}

#[test]
fn test_common_supertype() {
    let integer_type = TypeReflectionInfo::simple_type("System", "Integer");
    let decimal_type = TypeReflectionInfo::simple_type("System", "Decimal");

    let common = integer_type.common_supertype(&decimal_type);
    assert!(common.is_some());
    assert_eq!(common.unwrap().name(), "String");
}

#[test]
fn test_collection_element_validation() {
    let simple_type = TypeReflectionInfo::simple_type("System", "String");
    let list_type = TypeReflectionInfo::list_type(simple_type.clone());
    let nested_list = TypeReflectionInfo::list_type(list_type.clone());

    assert!(simple_type.is_valid_collection_element());
    assert!(!list_type.is_valid_collection_element());
    assert!(!nested_list.is_valid_collection_element());
}

#[test]
fn test_default_values() {
    let boolean_type = TypeReflectionInfo::simple_type("System", "Boolean");
    let integer_type = TypeReflectionInfo::simple_type("System", "Integer");
    let string_type = TypeReflectionInfo::simple_type("System", "String");
    let custom_type = TypeReflectionInfo::simple_type("FHIR", "Patient");

    assert_eq!(boolean_type.default_value(), Some("false".to_string()));
    assert_eq!(integer_type.default_value(), Some("0".to_string()));
    assert_eq!(string_type.default_value(), Some("".to_string()));
    assert_eq!(custom_type.default_value(), None);
}

#[test]
fn test_special_handling_types() {
    let quantity_type = TypeReflectionInfo::simple_type("FHIR", "Quantity");
    let string_type = TypeReflectionInfo::simple_type("System", "String");
    let reference_type = TypeReflectionInfo::simple_type("FHIR", "Reference");

    assert!(quantity_type.requires_special_handling());
    assert!(!string_type.requires_special_handling());
    assert!(reference_type.requires_special_handling());
}

#[test]
fn test_validation_rules() {
    let integer_type = TypeReflectionInfo::simple_type("System", "Integer");
    let id_type = TypeReflectionInfo::simple_type("FHIR", "id");

    let integer_rules = integer_type.validation_rules();
    assert!(!integer_rules.is_empty());
    assert!(integer_rules[0].contains("valid integer"));

    let id_rules = id_type.validation_rules();
    assert!(!id_rules.is_empty());
    assert!(id_rules[0].contains("pattern"));
}

#[test]
fn test_class_type_validation_rules() {
    let elements = vec![
        ElementInfo::new("id", TypeReflectionInfo::simple_type("System", "String"))
            .with_cardinality(0, Some(1)),
        ElementInfo::new("name", TypeReflectionInfo::simple_type("System", "String"))
            .with_cardinality(1, None),
    ];

    let patient_type = TypeReflectionInfo::class_type("FHIR", "Patient", elements);
    let rules = patient_type.validation_rules();

    assert!(!rules.is_empty());
    assert!(
        rules
            .iter()
            .any(|rule| rule.contains("name") && rule.contains("required"))
    );
}

#[test]
fn test_operation_support() {
    let integer_type = TypeReflectionInfo::simple_type("System", "Integer");
    let string_type = TypeReflectionInfo::simple_type("System", "String");
    let boolean_type = TypeReflectionInfo::simple_type("System", "Boolean");

    assert!(integer_type.supports_operation("+", &["System.Integer".to_string()]));
    assert!(integer_type.supports_operation("<", &["System.Integer".to_string()]));
    assert!(!integer_type.supports_operation("and", &["System.Boolean".to_string()]));

    assert!(boolean_type.supports_operation("and", &["System.Boolean".to_string()]));
    assert!(!boolean_type.supports_operation("+", &["System.Integer".to_string()]));

    assert!(string_type.supports_operation("is", &["System.String".to_string()]));
    assert!(integer_type.supports_operation("as", &["System.Decimal".to_string()]));
}

#[test]
fn test_compatible_types() {
    let integer_type = TypeReflectionInfo::simple_type("System", "Integer");
    let compatible = integer_type.get_compatible_types();

    assert!(compatible.contains(&"System.Integer".to_string()));
    assert!(compatible.contains(&"System.Decimal".to_string()));
    assert!(compatible.contains(&"System.String".to_string()));
}

#[test]
fn test_conversion_info() {
    let integer_type = TypeReflectionInfo::simple_type("System", "Integer");

    let decimal_conversion = integer_type.can_convert_to("System.Decimal");
    assert_eq!(decimal_conversion.conversion_type, ConversionType::Implicit);
    assert!(!decimal_conversion.data_loss_possible);

    let string_conversion = integer_type.can_convert_to("System.String");
    assert_eq!(string_conversion.conversion_type, ConversionType::Function);
    assert_eq!(
        string_conversion.conversion_function,
        Some("toString".to_string())
    );

    let forbidden = integer_type.can_convert_to("System.Date");
    assert_eq!(forbidden.conversion_type, ConversionType::Forbidden);
}

#[test]
fn test_polymorphic_variants() {
    let derived_type =
        TypeReflectionInfo::simple_type_with_base("FHIR", "Patient", "DomainResource");
    let variants = derived_type.get_polymorphic_variants();

    assert!(variants.len() >= 2);
    assert!(variants.iter().any(|v| v.name() == "Patient"));
    assert!(variants.iter().any(|v| v.name() == "DomainResource"));
}

#[test]
fn test_choice_type_resolution() {
    let string_type = TypeReflectionInfo::simple_type("System", "String");

    let context = PolymorphicContext {
        current_path: "Patient.name".to_string(),
        base_type: "Patient".to_string(),
        available_types: vec!["System.String".to_string(), "System.Integer".to_string()],
        constraints: vec![],
        inference_hints: vec![InferenceHint {
            hint_type: InferenceHintType::Statistical,
            suggested_type: "System.String".to_string(),
            confidence: 80,
            reasoning: "Most common for name fields".to_string(),
        }],
        resolution_strategy: ResolutionStrategy::MostCommon,
        metadata: Vec::new(),
    };

    let resolved = string_type.resolve_choice_type(&context);
    assert_eq!(resolved, Some("System.String".to_string()));
}

#[test]
fn test_type_helper_methods() {
    let integer_type = TypeReflectionInfo::simple_type("System", "Integer");
    let string_type = TypeReflectionInfo::simple_type("System", "String");
    let boolean_type = TypeReflectionInfo::simple_type("System", "Boolean");

    assert!(integer_type.is_numeric_type());
    assert!(!integer_type.is_boolean_type());
    assert!(integer_type.is_ordered_type());

    assert!(!string_type.is_numeric_type());
    assert!(!string_type.is_boolean_type());
    assert!(string_type.is_ordered_type());

    assert!(!boolean_type.is_numeric_type());
    assert!(boolean_type.is_boolean_type());
    assert!(!boolean_type.is_ordered_type());
}

#[test]
fn test_tuple_qualified_name() {
    let elements = vec![
        TupleElementInfo::new("x", TypeReflectionInfo::simple_type("System", "Integer")),
        TupleElementInfo::new("y", TypeReflectionInfo::simple_type("System", "String")),
    ];
    let tuple_type = TypeReflectionInfo::tuple_type(elements);
    assert_eq!(
        tuple_type.qualified_name(),
        "{ x: System.Integer, y: System.String }"
    );
}

#[test]
fn test_resolution_strategy_fallbacks() {
    let date_type = TypeReflectionInfo::simple_type("System", "Date");
    let mut context = PolymorphicContext {
        current_path: String::new(),
        base_type: String::new(),
        available_types: vec!["FHIR.Resource".to_string(), "FHIR.Quantity".to_string()],
        constraints: vec![],
        inference_hints: vec![],
        resolution_strategy: ResolutionStrategy::FirstMatch,
        metadata: Vec::new(),
    };

    assert_eq!(
        date_type.resolve_choice_type(&context),
        Some("FHIR.Resource".to_string())
    );

    context.resolution_strategy = ResolutionStrategy::MostSpecific;
    assert_eq!(
        date_type.resolve_choice_type(&context),
        Some("FHIR.Quantity".to_string())
    );

    context.resolution_strategy = ResolutionStrategy::ExplicitOnly;
    assert_eq!(date_type.resolve_choice_type(&context), None);
}
