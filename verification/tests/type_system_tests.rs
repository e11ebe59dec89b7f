use octofhir_fhir_model::type_system::{
    Cardinality, ConversionInfo, ConversionType, TypeCompatibilityMatrix, TypeHierarchy,
};

#[test]
fn type_system_test_type_hierarchy() {
    let mut hierarchy = TypeHierarchy::new("Patient");
    hierarchy.ancestors = vec!["DomainResource".to_string(), "Resource".to_string()];
    hierarchy.descendants = vec!["USCorePatient".to_string()];
    hierarchy.direct_parent = Some("DomainResource".to_string());

    assert!(hierarchy.is_ancestor_of("USCorePatient"));
    assert!(hierarchy.is_descendant_of("Resource"));
    assert_eq!(hierarchy.type_distance("Patient"), Some(0));
    assert_eq!(hierarchy.type_distance("Resource"), Some(2));
}

#[test]
fn test_type_compatibility_matrix() {
    let matrix = TypeCompatibilityMatrix::new();
    assert!(!matrix.can_convert_implicitly("String", "Integer"));
    assert!(matrix.get_conversion_info("String", "Integer").is_none());
}

#[test]
fn test_cardinality() {
    let required = Cardinality::required();
    let optional = Cardinality::optional();
    let multiple = Cardinality::multiple();

    assert!(required.is_required());
    assert!(!required.is_multiple());

    assert!(!optional.is_required());
    assert!(!optional.is_multiple());

    assert!(!multiple.is_required());
    assert!(multiple.is_multiple());

    assert!(required.satisfies(1));
    assert!(!required.satisfies(0));
    assert!(!required.satisfies(2));

    assert!(optional.satisfies(0));
    assert!(optional.satisfies(1));
    assert!(!optional.satisfies(2));

    assert!(multiple.satisfies(0));
    assert!(multiple.satisfies(1));
    assert!(multiple.satisfies(100));
}

#[test]
fn test_registered_promotion_is_directional() {
    let mut matrix = TypeCompatibilityMatrix::new();
    matrix.register_implicit("Integer", "Decimal");

    assert!(matrix.can_convert_implicitly("Integer", "Decimal"));
    assert!(!matrix.can_convert_implicitly("Decimal", "Integer"));
}

#[test]
fn test_conversion_path_single_hop() {
    let mut matrix = TypeCompatibilityMatrix::new();
    matrix.register_implicit("Date", "DateTime");

    let path = matrix.find_conversion_path("Date", "DateTime").unwrap();
    assert_eq!(path, vec!["Date".to_string(), "DateTime".to_string()]);
    assert!(matrix.find_conversion_path("DateTime", "Date").is_none());
}

#[test]
fn test_register_implicit_deduplicates() {
    let mut matrix = TypeCompatibilityMatrix::new();
    matrix.register_implicit("Integer", "Decimal");
    matrix.register_implicit("Integer", "Decimal");
    matrix.register_implicit("Integer", "String");

    assert!(matrix.can_convert_implicitly("Integer", "Decimal"));
    assert!(matrix.can_convert_implicitly("Integer", "String"));
    assert!(!matrix.can_convert_implicitly("Integer", "Boolean"));
    assert!(!matrix.can_convert_explicitly("Integer", "Decimal"));
}

#[test]
fn test_register_and_get_conversion_info() {
    let mut matrix = TypeCompatibilityMatrix::new();
    let info = ConversionInfo {
        conversion_type: ConversionType::Explicit,
        conversion_function: Some("toInteger".to_string()),
        data_loss_possible: true,
        validation_rules: Vec::new(),
        performance_cost: 50,
    };
    matrix.register_conversion("String", "Integer", info);

    let stored = matrix.get_conversion_info("String", "Integer").unwrap();
    assert_eq!(stored.conversion_type, ConversionType::Explicit);
    assert_eq!(stored.conversion_function.as_deref(), Some("toInteger"));
    assert!(stored.data_loss_possible);
    assert!(stored.validation_rules.is_empty());
    assert_eq!(stored.performance_cost, 50);
    assert!(matrix.get_conversion_info("Integer", "String").is_none());
}

#[test]
fn test_common_ancestor_nearest_first() {
    let mut a = TypeHierarchy::new("USCorePatient");
    a.ancestors = vec![
        "Patient".to_string(),
        "DomainResource".to_string(),
        "Resource".to_string(),
    ];
    let mut b = TypeHierarchy::new("Observation");
    b.ancestors = vec!["DomainResource".to_string(), "Resource".to_string()];

    assert_eq!(a.common_ancestor(&b), Some("DomainResource".to_string()));
    assert_eq!(b.common_ancestor(&a), Some("DomainResource".to_string()));

    let c = TypeHierarchy::new("Quantity");
    assert_eq!(a.common_ancestor(&c), None);
}
