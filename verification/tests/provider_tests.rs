use octofhir_fhir_model::provider::{EmptyModelProvider, TypeInfo};

#[test]
fn test_provider_type_table() {
    let provider = EmptyModelProvider;
    let patient = provider.get_type("Patient").unwrap();
    assert_eq!(patient.typename, "Any");
    assert_eq!(patient.namespace.as_deref(), Some("FHIR"));
    assert_eq!(patient.name.as_deref(), Some("Patient"));

    let boolean = provider.get_type("Boolean").unwrap();
    assert_eq!(boolean.typename, "Boolean");
    assert_eq!(boolean.namespace.as_deref(), Some("System"));

    assert!(provider.get_type("Nothing").is_none());
}

#[test]
fn test_provider_elements_and_hierarchy() {
    let provider = EmptyModelProvider;
    let patient = provider.get_type("Patient").unwrap();
    let names = provider.get_element_names(&patient);
    assert_eq!(names, vec!["id", "name", "gender", "birthDate"]);

    assert!(provider.is_type_derived_from("Patient", "DomainResource"));
    assert!(provider.is_type_derived_from("code", "string"));
    assert!(!provider.is_type_derived_from("string", "code"));
    assert!(provider.resource_type_exists("Observation"));
    assert!(!provider.resource_type_exists("HumanName"));
}

#[test]
fn test_provider_choice_types() {
    let provider = EmptyModelProvider;
    let choices = provider.get_choice_types("Observation", "value").unwrap();
    assert_eq!(choices.len(), 5);
    assert_eq!(choices[0].suffix, "String");
    assert_eq!(choices[0].typename, "string");
    assert!(provider.get_choice_types("Patient", "name").is_none());
}

#[test]
fn test_provider_of_type() {
    let provider = EmptyModelProvider;
    let patient = provider.get_type("Patient").unwrap();
    assert!(provider.of_type(&patient, "Patient").is_some());
    assert!(provider.of_type(&patient, "DomainResource").is_some());
    assert!(provider.of_type(&patient, "Observation").is_none());
}

#[test]
fn test_system_type_constructor() {
    let t = TypeInfo::system_type("Integer".to_string(), true);
    assert_eq!(t.typename, "Integer");
    assert_eq!(t.singleton, Some(true));
    assert_eq!(t.namespace.as_deref(), Some("System"));
    assert_eq!(t.name.as_deref(), Some("Integer"));
}

#[test]
fn test_provider_element_details() {
    let provider = EmptyModelProvider;
    let elements = provider.get_elements("Patient");
    assert_eq!(elements.len(), 2);
    assert_eq!(elements[0].name, "id");
    assert_eq!(elements[1].element_type, "HumanName[]");
    assert!(provider.get_elements("HumanName").is_empty());
}

#[test]
fn test_provider_union_types() {
    let provider = EmptyModelProvider;
    let union = provider.get_type("Boolean").unwrap();
    assert!(!provider.is_union_type(&union));
    let choice = TypeInfo {
        typename: "Choice".to_string(),
        singleton: Some(true),
        empty: Some(false),
        namespace: None,
        name: None,
    };
    assert!(provider.is_union_type(&choice));
    let members = provider.get_union_types(&choice).unwrap();
    assert_eq!(members.len(), 2);
    assert_eq!(members[0].typename, "String");
    assert_eq!(members[1].typename, "Integer");
}
