//! Evaluator support types: compiled expressions, validation results and
//! constraints used when injecting a path-expression evaluator.

use vstd::prelude::*;

verus! {

/// Compiled path expression for reuse
#[derive(Debug, Clone)]
pub struct CompiledExpression {
    /// The original expression string
    pub expression: String,
    /// Internal representation (implementation-specific)
    pub compiled_form: String,
    /// Whether the expression is valid
    pub is_valid: bool,
}

impl CompiledExpression {
    /// Create a new compiled expression
    pub fn new(expression: String, compiled_form: String, is_valid: bool) -> (r: CompiledExpression)
        ensures
            r.expression == expression,
            r.compiled_form == compiled_form,
            r.is_valid == is_valid,
    {
        CompiledExpression { expression, compiled_form, is_valid }
    }

    /// Create an invalid expression whose compiled form carries the error.
    pub fn invalid(expression: String, error: String) -> (r: CompiledExpression)
        ensures
            r.expression == expression,
            r.compiled_form == error,
            !r.is_valid,
    {
        CompiledExpression { expression, compiled_form: error, is_valid: false }
    }
}

/// Validation result for expressions and constraints
#[derive(Debug, Clone)]
pub struct ValidationResult {
    /// Whether validation passed
    pub is_valid: bool,
    /// Validation errors if any
    pub errors: Vec<ValidationError>,
    /// Warnings that do not prevent validation
    pub warnings: Vec<ValidationWarning>,
}

impl ValidationResult {
    /// Create a successful validation result
    pub fn success() -> (r: ValidationResult)
        ensures
            r.is_valid,
            r.errors@.len() == 0,
            r.warnings@.len() == 0,
    {
        ValidationResult { is_valid: true, errors: Vec::new(), warnings: Vec::new() }
    }

    /// Create a failed validation result with errors
    pub fn with_errors(errors: Vec<ValidationError>) -> (r: ValidationResult)
        ensures
            !r.is_valid,
            r.errors == errors,
            r.warnings@.len() == 0,
    {
        ValidationResult { is_valid: false, errors, warnings: Vec::new() }
    }

    /// Add a warning to the validation result
    pub fn with_warning(self, warning: ValidationWarning) -> (r: ValidationResult)
        ensures
            r.warnings@ == self.warnings@.push(warning),
            r.is_valid == self.is_valid,
            r.errors == self.errors,
    {
        let mut r = self;
        r.warnings.push(warning);
        r
    }

    /// Add an error to the validation result; it is no longer valid.
    pub fn with_error(self, error: ValidationError) -> (r: ValidationResult)
        ensures
            r.errors@ == self.errors@.push(error),
            !r.is_valid,
            r.warnings == self.warnings,
    {
        let mut r = self;
        r.is_valid = false;
        r.errors.push(error);
        r
    }
}

/// Validation error details
#[derive(Debug, Clone)]
pub struct ValidationError {
    /// Error message
    pub message: String,
    /// Error code if available
    pub code: Option<String>,
    /// Location in the expression or resource
    pub location: Option<String>,
    /// Severity level
    pub severity: ErrorSeverity,
}

impl ValidationError {
    /// Create a new error-severity validation error.
    pub fn new(message: String) -> (r: ValidationError)
        ensures
            r.message == message,
            r.code is None,
            r.location is None,
            r.severity == ErrorSeverity::Error,
    {
        ValidationError { message, code: None, location: None, severity: ErrorSeverity::Error }
    }

    /// Set the error code.
    pub fn with_code(self, code: String) -> (r: ValidationError)
        ensures
            r.code == Some(code),
            r.message == self.message,
            r.location == self.location,
            r.severity == self.severity,
    {
        let mut r = self;
        r.code = Some(code);
        r
    }

    /// Set the error location.
    pub fn with_location(self, location: String) -> (r: ValidationError)
        ensures
            r.location == Some(location),
            r.message == self.message,
            r.code == self.code,
            r.severity == self.severity,
    {
        let mut r = self;
        r.location = Some(location);
        r
    }
}

/// Validation warning details
#[derive(Debug, Clone)]
pub struct ValidationWarning {
    /// Warning message
    pub message: String,
    /// Warning code if available
    pub code: Option<String>,
    /// Location in the expression or resource
    pub location: Option<String>,
}

impl ValidationWarning {
    /// Create a new validation warning
    pub fn new(message: String) -> (r: ValidationWarning)
        ensures
            r.message == message,
            r.code is None,
            r.location is None,
    {
        ValidationWarning { message, code: None, location: None }
    }

    /// Set the warning code.
    pub fn with_code(self, code: String) -> (r: ValidationWarning)
        ensures
            r.code == Some(code),
            r.message == self.message,
            r.location == self.location,
    {
        let mut r = self;
        r.code = Some(code);
        r
    }

    /// Set the warning location.
    pub fn with_location(self, location: String) -> (r: ValidationWarning)
        ensures
            r.location == Some(location),
            r.message == self.message,
            r.code == self.code,
    {
        let mut r = self;
        r.location = Some(location);
        r
    }
}

/// Error severity levels
#[derive(Debug, Clone, Copy, PartialEq, Eq, Structural)]
pub enum ErrorSeverity {
    /// Fatal error - stops processing
    Fatal,
    /// Error - validation fails
    Error,
    /// Warning - validation continues
    Warning,
    /// Information - no impact on validation
    Information,
}

/// A path-expression constraint for validation
#[derive(Debug, Clone)]
pub struct FhirPathConstraint {
    /// Constraint identifier
    pub key: String,
    /// Human-readable description
    pub description: String,
    /// Path expression to evaluate
    pub expression: String,
    /// Severity if constraint fails
    pub severity: ErrorSeverity,
    /// Whether this constraint is required
    pub required: bool,
}

impl FhirPathConstraint {
    /// Create a new required, error-severity constraint.
    pub fn new(key: String, description: String, expression: String) -> (r: FhirPathConstraint)
        ensures
            r.key == key,
            r.description == description,
            r.expression == expression,
            r.severity == ErrorSeverity::Error,
            r.required,
    {
        FhirPathConstraint {
            key,
            description,
            expression,
            severity: ErrorSeverity::Error,
            required: true,
        }
    }

    /// Set severity level
    pub fn with_severity(self, severity: ErrorSeverity) -> (r: FhirPathConstraint)
        ensures
            r == (FhirPathConstraint { severity, ..self }),
    {
        let mut r = self;
        r.severity = severity;
        r
    }

    /// Set as optional constraint
    pub fn optional(self) -> (r: FhirPathConstraint)
        ensures
            r == (FhirPathConstraint { required: false, ..self }),
    {
        let mut r = self;
        r.required = false;
        r
    }
}

} // verus!
