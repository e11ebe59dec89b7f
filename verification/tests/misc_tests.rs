use std::time::Duration;

use octofhir_fhir_model::boxing;
use octofhir_fhir_model::conformance::{
    ConformanceResult, ConformanceViolation, ConformanceWarning, SourceLocation, ViolationSeverity,
};
use octofhir_fhir_model::constraints::{ConstraintInfo, ConstraintSeverity, ConstraintViolation};
use octofhir_fhir_model::evaluator::{CompiledExpression, ErrorSeverity, FhirPathConstraint, ValidationError, ValidationResult};
use octofhir_fhir_model::fhir_traits::{ChoiceElement, FhirReference, FhirResourceMetadata};
use octofhir_fhir_model::provider::FhirVersion;
use octofhir_fhir_model::fhirpath_engine::FhirPathEvaluationConfig;
use octofhir_fhir_model::terminology::{NoOpTerminologyProvider, TerminologyCacheConfig, TerminologyCacheStats};

#[test]
fn test_conformance_result() {
    let mut result = ConformanceResult::new("http://example.com/profile", "Patient");
    assert!(result.is_valid);
    assert_eq!(result.total_issues(), 0);

    let violation = ConformanceViolation::error("Patient.name", "Missing required name");
    result.add_violation(violation);

    assert!(!result.is_valid);
    assert_eq!(result.total_issues(), 1);
    assert_eq!(result.errors().len(), 1);

    let warning = ConformanceWarning::new("Patient.id", "ID should be present");
    result.add_warning(warning);

    assert_eq!(result.total_issues(), 2);
    assert_eq!(result.warnings.len(), 1);
}

#[test]
fn test_violation_creation() {
    let violation = ConformanceViolation::error("Patient.name", "Missing name")
        .with_constraint_key("pat-1")
        .with_values("string", "null")
        .with_location(SourceLocation::new(10, 15));

    assert_eq!(violation.path, "Patient.name");
    assert_eq!(violation.severity, ViolationSeverity::Error);
    assert_eq!(violation.constraint_key.as_deref(), Some("pat-1"));
    assert!(violation.location.is_some());
}

#[test]
fn test_severity_display() {
    assert_eq!(ViolationSeverity::Fatal.label(), "FATAL");
    assert_eq!(ViolationSeverity::Error.label(), "ERROR");
    assert_eq!(ViolationSeverity::Warning.label(), "WARNING");
    assert_eq!(ViolationSeverity::Information.label(), "INFO");
}

#[test]
fn test_result_merge() {
    let mut result1 = ConformanceResult::new("profile1", "Patient");
    result1.add_violation(ConformanceViolation::error("path1", "error1"));

    let mut result2 = ConformanceResult::new("profile2", "Patient");
    result2.add_violation(ConformanceViolation::warning("path2", "warning1"));

    result1.merge(result2);

    assert!(!result1.is_valid);
    assert_eq!(result1.violations.len(), 2);
    assert_eq!(result1.errors().len(), 1);
    assert_eq!(result1.warning_violations().len(), 1);
}

#[test]
fn conformance_test_source_location() {
    let location = SourceLocation::new(10, 5).with_offset(100).with_length(10);

    assert_eq!(location.line, 10);
    assert_eq!(location.column, 5);
    assert_eq!(location.char_offset, Some(100));
    assert_eq!(location.length, Some(10));
}

#[test]
fn boxing_test_source_location() {
    let location = boxing::SourceLocation::new("Patient.name")
        .with_resource("Patient", "123")
        .with_position(4, 2);
    assert_eq!(location.element_path, "Patient.name");
    assert_eq!(location.resource_type.as_deref(), Some("Patient"));
    assert_eq!(location.resource_id.as_deref(), Some("123"));
    assert_eq!(location.line, Some(4));
    assert_eq!(location.column, Some(2));
}

#[test]
fn test_constraint_info() {
    let constraint = ConstraintInfo::error("pat-1", "Name is required", "name.exists()")
        .with_xpath("//name")
        .with_source("http://example.com/StructureDefinition/Patient")
        .with_metadata("author", "FHIR Team");

    assert_eq!(constraint.key, "pat-1");
    assert_eq!(constraint.severity, ConstraintSeverity::Error);
    assert_eq!(constraint.expression, "name.exists()");
    assert_eq!(constraint.xpath.as_deref(), Some("//name"));
    assert!(constraint.validate().is_ok());
}

#[test]
fn test_constraint_validation() {
    let invalid_constraint = ConstraintInfo::new("", ConstraintSeverity::Error, "", "");
    assert!(invalid_constraint.validate().is_err());

    let valid_constraint = ConstraintInfo::error("test-1", "Test constraint", "true");
    assert!(valid_constraint.validate().is_ok());
}

#[test]
fn test_constraint_validation_messages() {
    let no_key = ConstraintInfo::new("", ConstraintSeverity::Error, "h", "e");
    assert_eq!(
        no_key.validate().unwrap_err(),
        "Constraint key cannot be empty"
    );
    let no_expr = ConstraintInfo::new("k", ConstraintSeverity::Error, "h", "");
    assert_eq!(
        no_expr.validate().unwrap_err(),
        "Constraint expression cannot be empty"
    );
    let no_human = ConstraintInfo::new("k", ConstraintSeverity::Error, "", "e");
    assert_eq!(
        no_human.validate().unwrap_err(),
        "Constraint human description cannot be empty"
    );
}

#[test]
fn test_constraint_violation() {
    let violation = ConstraintViolation::error("pat-1", "Name is required", "Patient.name")
        .with_values("string", "null");

    assert_eq!(violation.constraint_key, "pat-1");
    assert_eq!(violation.severity, ConstraintSeverity::Error);
    assert_eq!(violation.expected.as_deref(), Some("string"));
    assert_eq!(violation.actual.as_deref(), Some("null"));
}

#[test]
fn test_compiled_expression_creation() {
    let expr = CompiledExpression::new(
        "Patient.name".to_string(),
        "compiled_form".to_string(),
        true,
    );
    assert!(expr.is_valid);
    assert_eq!(expr.expression, "Patient.name");
}

#[test]
fn test_validation_result() {
    let result = ValidationResult::success();
    assert!(result.is_valid);
    assert!(result.errors.is_empty());

    let error = ValidationError::new("Test error".to_string());
    let result = ValidationResult::with_errors(vec![error]);
    assert!(!result.is_valid);
    assert_eq!(result.errors.len(), 1);
}

#[test]
fn test_constraint_creation() {
    let constraint = FhirPathConstraint::new(
        "test-1".to_string(),
        "Test constraint".to_string(),
        "Patient.name.exists()".to_string(),
    );
    assert!(constraint.required);
    assert_eq!(constraint.severity, ErrorSeverity::Error);

    let optional_constraint = constraint.optional().with_severity(ErrorSeverity::Warning);
    assert!(!optional_constraint.required);
    assert_eq!(optional_constraint.severity, ErrorSeverity::Warning);
}

#[test]
fn test_config_default() {
    let config = FhirPathEvaluationConfig::default();
    assert_eq!(config.timeout_ms, 5000);
    assert_eq!(config.max_recursion_depth, 100);
    assert!(!config.collect_metrics);
    assert!(!config.include_details);
}

#[test]
fn test_cache_config_default() {
    let config = TerminologyCacheConfig::default();
    assert_eq!(config.validation_ttl, Duration::from_secs(3600));
    assert_eq!(config.validation_max_size, 10_000);
    assert_eq!(config.expansion_ttl, Duration::from_secs(3600));
    assert_eq!(config.expansion_max_size, 1_000);
    assert_eq!(config.lookup_ttl, Duration::from_secs(86400));
    assert_eq!(config.lookup_max_size, 5_000);
}

#[test]
fn test_cache_config_builder() {
    let config = TerminologyCacheConfig::default()
        .with_validation_ttl(Duration::from_secs(1800))
        .with_validation_max_size(5_000)
        .with_expansion_ttl(Duration::from_secs(7200))
        .with_expansion_max_size(500);

    assert_eq!(config.validation_ttl, Duration::from_secs(1800));
    assert_eq!(config.validation_max_size, 5_000);
    assert_eq!(config.expansion_ttl, Duration::from_secs(7200));
    assert_eq!(config.expansion_max_size, 500);
}

#[test]
fn test_cache_stats_default() {
    let stats = TerminologyCacheStats::default();
    assert_eq!(stats.validation_entries, 0);
    assert_eq!(stats.expansion_entries, 0);
    assert_eq!(stats.lookup_entries, 0);
}

#[test]
fn test_noop_terminology_results() {
    let provider = NoOpTerminologyProvider;
    assert!(provider.validate_code("test", "http://test.com", None));
    let expansion = provider.expand_valueset("http://test.com/vs", None);
    assert_eq!(expansion.total, Some(0));
    assert!(expansion.contains.is_empty());
    let lookup = provider.lookup_code("http://test.com", "code-1", None);
    assert_eq!(lookup.display.as_deref(), Some("Mock display for code-1"));
}

struct TestObservationValue;

impl ChoiceElement for TestObservationValue {
    fn base_name() -> &'static str {
        "value"
    }

    fn possible_field_names() -> Vec<&'static str> {
        vec!["valueString", "valueQuantity", "valueBoolean"]
    }
}

struct TestObservation;

impl FhirResourceMetadata for TestObservation {
    fn choice_elements() -> &'static [&'static str] {
        &["value", "effective"]
    }

    fn resource_type() -> &'static str {
        "Observation"
    }
}

#[test]
fn test_choice_element() {
    assert_eq!(TestObservationValue::base_name(), "value");
    assert_eq!(
        TestObservationValue::possible_field_names(),
        vec!["valueString", "valueQuantity", "valueBoolean"]
    );
}

#[test]
fn test_resource_metadata() {
    assert_eq!(TestObservation::resource_type(), "Observation");
    assert!(TestObservation::is_choice_element("value"));
    assert!(!TestObservation::is_choice_element("status"));
}

#[test]
fn test_choice_field_names_default() {
    let names = TestObservation::get_choice_field_names("value");
    assert_eq!(names, vec!["valueString".to_string(), "valueBoolean".to_string()]);
    assert!(TestObservation::get_choice_field_names("status").is_empty());
}

struct PlainRef(Option<String>);

impl FhirReference for PlainRef {
    fn reference(&self) -> Option<&str> {
        self.0.as_deref()
    }

    fn display(&self) -> Option<&str> {
        None
    }
}

#[test]
fn test_reference_parts() {
    let r = PlainRef(Some("Patient/123".to_string()));
    assert_eq!(r.referenced_type(), Some("Patient".to_string()));
    assert_eq!(r.referenced_id(), Some("123".to_string()));

    let bare = PlainRef(Some("Patient".to_string()));
    assert_eq!(bare.referenced_type(), Some("Patient".to_string()));
    assert_eq!(bare.referenced_id(), None);

    let none = PlainRef(None);
    assert_eq!(none.referenced_type(), None);

    let deep = PlainRef(Some("Patient/123/_history".to_string()));
    assert_eq!(deep.referenced_type(), Some("Patient".to_string()));
    assert_eq!(deep.referenced_id(), Some("123".to_string()));
}

#[test]
fn test_severity_labels() {
    assert_eq!(ConstraintSeverity::Error.label(), "error");
    assert_eq!(ConstraintSeverity::Warning.label(), "warning");
    assert_eq!(ConstraintSeverity::Information.label(), "information");
}

#[test]
fn test_fhir_version_label() {
    assert_eq!(FhirVersion::R4.label(), "R4");
    assert_eq!(
        FhirVersion::Custom {
            version: "5.2.0".to_string()
        }
        .label(),
        "5.2.0"
    );
}

#[test]
fn test_compiled_expression_invalid() {
    let expr = CompiledExpression::invalid("bad(".to_string(), "unterminated call".to_string());
    assert!(!expr.is_valid);
    assert_eq!(expr.compiled_form, "unterminated call");
}
