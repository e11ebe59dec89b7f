//! Conformance validation records: results, violations, warnings, source
//! locations, validation contexts and metrics.

use vstd::prelude::*;

verus! {

/// Result of conformance validation
#[derive(Debug, Clone)]
pub struct ConformanceResult {
    /// Whether the resource conforms to the profile
    pub is_valid: bool,
    /// List of validation violations
    pub violations: Vec<ConformanceViolation>,
    /// List of validation warnings
    pub warnings: Vec<ConformanceWarning>,
    /// Profile URL that was validated against
    pub profile_url: String,
    /// Resource type that was validated
    pub resource_type: String,
    /// Validation metadata
    pub metadata: ConformanceMetadata,
}

/// A conformance validation violation
#[derive(Debug, Clone)]
pub struct ConformanceViolation {
    /// Path to the element that violated the rule
    pub path: String,
    /// Human-readable description of the violation
    pub message: String,
    /// Severity of the violation
    pub severity: ViolationSeverity,
    /// Constraint key that was violated (if applicable)
    pub constraint_key: Option<String>,
    /// Expected value or constraint
    pub expected: Option<String>,
    /// Actual value found
    pub actual: Option<String>,
    /// Location in the source document
    pub location: Option<SourceLocation>,
}

/// A conformance validation warning
#[derive(Debug, Clone)]
pub struct ConformanceWarning {
    /// Path to the element
    pub path: String,
    /// Warning message
    pub message: String,
    /// Warning code
    pub code: Option<String>,
    /// Location in the source document
    pub location: Option<SourceLocation>,
}

/// Severity levels for validation violations
#[derive(Debug, Clone, PartialEq, Eq, Structural)]
pub enum ViolationSeverity {
    /// Fatal error - validation cannot continue
    Fatal,
    /// Error - resource does not conform
    Error,
    /// Warning - potential issue but not a strict violation
    Warning,
    /// Information - helpful information for developers
    Information,
}

/// Metadata about conformance validation
#[derive(Debug, Clone)]
pub struct ConformanceMetadata {
    /// Validation engine version
    pub validator_version: String,
    /// Time taken for validation in milliseconds
    pub validation_time_ms: u64,
    /// Number of elements validated
    pub elements_validated: usize,
    /// Number of constraints evaluated
    pub constraints_evaluated: usize,
    /// Additional metadata as key/value pairs
    pub additional: Vec<(String, String)>,
}

/// Source location information for validation issues
#[derive(Debug, Clone)]
pub struct SourceLocation {
    /// Line number (1-based)
    pub line: u32,
    /// Column number (1-based)
    pub column: u32,
    /// Character offset in the source
    pub char_offset: Option<usize>,
    /// Length of the problematic content
    pub length: Option<usize>,
}

/// A violation that makes a resource non-conforming.
pub open spec fn is_blocking(v: ConformanceViolation) -> bool {
    v.severity == ViolationSeverity::Error || v.severity == ViolationSeverity::Fatal
}

/// The blocking violations of a list, in order.
pub open spec fn spec_blocking(s: Seq<ConformanceViolation>) -> Seq<ConformanceViolation>
    decreases s.len(),
{
    if s.len() == 0 {
        Seq::empty()
    } else {
        let rest = spec_blocking(s.drop_last());
        if is_blocking(s.last()) {
            rest.push(s.last())
        } else {
            rest
        }
    }
}

/// The warning-level violations of a list, in order.
pub open spec fn spec_warning_only(s: Seq<ConformanceViolation>) -> Seq<ConformanceViolation>
    decreases s.len(),
{
    if s.len() == 0 {
        Seq::empty()
    } else {
        let rest = spec_warning_only(s.drop_last());
        if s.last().severity == ViolationSeverity::Warning {
            rest.push(s.last())
        } else {
            rest
        }
    }
}

impl ViolationSeverity {
    /// The upper-case label of this severity.
    pub fn label(&self) -> (r: &'static str)
        ensures
            self == ViolationSeverity::Fatal ==> r@ == "FATAL"@,
            self == ViolationSeverity::Error ==> r@ == "ERROR"@,
            self == ViolationSeverity::Warning ==> r@ == "WARNING"@,
            self == ViolationSeverity::Information ==> r@ == "INFO"@,
    {
        match self {
            ViolationSeverity::Fatal => "FATAL",
            ViolationSeverity::Error => "ERROR",
            ViolationSeverity::Warning => "WARNING",
            ViolationSeverity::Information => "INFO",
        }
    }
}

impl ConformanceResult {
    /// Create an empty conformance result with no profile or resource type.
    pub fn empty() -> (r: ConformanceResult)
        ensures
            r.is_valid,
            r.violations@.len() == 0,
            r.warnings@.len() == 0,
            r.profile_url@ == Seq::<char>::empty(),
            r.resource_type@ == Seq::<char>::empty(),
    {
        ConformanceResult {
            is_valid: true,
            violations: Vec::new(),
            warnings: Vec::new(),
            profile_url: String::new(),
            resource_type: String::new(),
            metadata: ConformanceMetadata::default(),
        }
    }

    /// Create a new conformance result, initially valid.
    pub fn new(profile_url: &str, resource_type: &str) -> (r: ConformanceResult)
        ensures
            r.is_valid,
            r.violations@.len() == 0,
            r.warnings@.len() == 0,
            r.profile_url@ == profile_url@,
            r.resource_type@ == resource_type@,
            r.metadata.elements_validated == 0,
            r.metadata.constraints_evaluated == 0,
    {
        ConformanceResult {
            is_valid: true,
            violations: Vec::new(),
            warnings: Vec::new(),
            profile_url: profile_url.to_owned(),
            resource_type: resource_type.to_owned(),
            metadata: ConformanceMetadata::default(),
        }
    }

    /// Record a violation; an error or fatal violation makes the result
    /// invalid.
    pub fn add_violation(&mut self, violation: ConformanceViolation)
        ensures
            final(self).violations@ == old(self).violations@.push(violation),
            final(self).is_valid == (old(self).is_valid && !is_blocking(violation)),
            final(self).warnings == old(self).warnings,
            final(self).profile_url == old(self).profile_url,
            final(self).resource_type == old(self).resource_type,
            final(self).metadata == old(self).metadata,
    {
        if matches!(violation.severity, ViolationSeverity::Error | ViolationSeverity::Fatal) {
            self.is_valid = false;
        }
        self.violations.push(violation);
    }

    /// Record a warning; warnings never invalidate the result.
    pub fn add_warning(&mut self, warning: ConformanceWarning)
        ensures
            final(self).warnings@ == old(self).warnings@.push(warning),
            final(self).violations == old(self).violations,
            final(self).is_valid == old(self).is_valid,
            final(self).profile_url == old(self).profile_url,
            final(self).resource_type == old(self).resource_type,
            final(self).metadata == old(self).metadata,
    {
        self.warnings.push(warning);
    }

    /// Get all error- and fatal-level violations, in order.
    pub fn errors(&self) -> (r: Vec<&ConformanceViolation>)
        ensures
            r@.len() == spec_blocking(self.violations@).len(),
            forall|k: int| 0 <= k < r@.len() ==> *(#[trigger] r@[k]) == spec_blocking(
                self.violations@,
            )[k],
    {
        let mut r: Vec<&ConformanceViolation> = Vec::new();
        let mut i: usize = 0;
        while i < self.violations.len()
            invariant
                i <= self.violations@.len(),
                r@.len() == spec_blocking(self.violations@.subrange(0, i as int)).len(),
                forall|k: int| 0 <= k < r@.len() ==> *(#[trigger] r@[k]) == spec_blocking(
                    self.violations@.subrange(0, i as int),
                )[k],
            decreases self.violations@.len() - i,
        {
            let ghost pre = self.violations@.subrange(0, i as int);
            let ghost post = self.violations@.subrange(0, i as int + 1);
            proof {
                assert(post.drop_last() =~= pre);
                assert(post.last() == self.violations@[i as int]);
            }
            if matches!(
                self.violations[i].severity,
                ViolationSeverity::Error | ViolationSeverity::Fatal
            ) {
                r.push(&self.violations[i]);
            }
            i += 1;
        }
        proof {
            assert(self.violations@.subrange(0, self.violations@.len() as int)
                =~= self.violations@);
        }
        r
    }

    /// Get all warning-level violations, in order.
    pub fn warning_violations(&self) -> (r: Vec<&ConformanceViolation>)
        ensures
            r@.len() == spec_warning_only(self.violations@).len(),
            forall|k: int| 0 <= k < r@.len() ==> *(#[trigger] r@[k]) == spec_warning_only(
                self.violations@,
            )[k],
    {
        let mut r: Vec<&ConformanceViolation> = Vec::new();
        let mut i: usize = 0;
        while i < self.violations.len()
            invariant
                i <= self.violations@.len(),
                r@.len() == spec_warning_only(self.violations@.subrange(0, i as int)).len(),
                forall|k: int| 0 <= k < r@.len() ==> *(#[trigger] r@[k]) == spec_warning_only(
                    self.violations@.subrange(0, i as int),
                )[k],
            decreases self.violations@.len() - i,
        {
            let ghost pre = self.violations@.subrange(0, i as int);
            let ghost post = self.violations@.subrange(0, i as int + 1);
            proof {
                assert(post.drop_last() =~= pre);
                assert(post.last() == self.violations@[i as int]);
            }
            if matches!(self.violations[i].severity, ViolationSeverity::Warning) {
                r.push(&self.violations[i]);
            }
            i += 1;
        }
        proof {
            assert(self.violations@.subrange(0, self.violations@.len() as int)
                =~= self.violations@);
        }
        r
    }

    /// Get total number of issues (violations + warnings)
    pub fn total_issues(&self) -> (r: usize)
        requires
            self.violations@.len() + self.warnings@.len() <= usize::MAX,
        ensures
            r == self.violations@.len() + self.warnings@.len(),
    {
        self.violations.len() + self.warnings.len()
    }

    /// Check if there are any fatal errors
    pub fn has_fatal_errors(&self) -> (r: bool)
        ensures
            r == exists|i: int|
                0 <= i < self.violations@.len() && (#[trigger] self.violations@[i]).severity
                    == ViolationSeverity::Fatal,
    {
        let mut i: usize = 0;
        while i < self.violations.len()
            invariant
                i <= self.violations@.len(),
                forall|j: int| 0 <= j < i ==> (#[trigger] self.violations@[j]).severity
                    != ViolationSeverity::Fatal,
            decreases self.violations@.len() - i,
        {
            if matches!(self.violations[i].severity, ViolationSeverity::Fatal) {
                return true;
            }
            i += 1;
        }
        false
    }

    /// Merge another conformance result into this one: issues are appended,
    /// validity is the conjunction, and the counters are summed.
    pub fn merge(&mut self, other: ConformanceResult)
        requires
            old(self).violations@.len() + other.violations@.len() <= usize::MAX,
            old(self).warnings@.len() + other.warnings@.len() <= usize::MAX,
            old(self).metadata.elements_validated + other.metadata.elements_validated <= usize::MAX,
            old(self).metadata.constraints_evaluated + other.metadata.constraints_evaluated
                <= usize::MAX,
        ensures
            final(self).is_valid == (old(self).is_valid && other.is_valid),
            final(self).violations@ == old(self).violations@ + other.violations@,
            final(self).warnings@ == old(self).warnings@ + other.warnings@,
            final(self).metadata.elements_validated == old(self).metadata.elements_validated
                + other.metadata.elements_validated,
            final(self).metadata.constraints_evaluated == old(self).metadata.constraints_evaluated
                + other.metadata.constraints_evaluated,
            final(self).profile_url == old(self).profile_url,
            final(self).resource_type == old(self).resource_type,
    {
        let mut other = other;
        if !other.is_valid {
            self.is_valid = false;
        }
        self.violations.append(&mut other.violations);
        self.warnings.append(&mut other.warnings);
        self.metadata.elements_validated = self.metadata.elements_validated
            + other.metadata.elements_validated;
        self.metadata.constraints_evaluated = self.metadata.constraints_evaluated
            + other.metadata.constraints_evaluated;
    }
}

impl ConformanceViolation {
    /// Create a new violation
    pub fn new(path: &str, message: &str, severity: ViolationSeverity) -> (r: ConformanceViolation)
        ensures
            r.path@ == path@,
            r.message@ == message@,
            r.severity == severity,
            r.constraint_key is None,
            r.expected is None,
            r.actual is None,
            r.location is None,
    {
        ConformanceViolation {
            path: path.to_owned(),
            message: message.to_owned(),
            severity,
            constraint_key: None,
            expected: None,
            actual: None,
            location: None,
        }
    }

    /// Create an error violation
    pub fn error(path: &str, message: &str) -> (r: ConformanceViolation)
        ensures
            r.path@ == path@,
            r.message@ == message@,
            r.severity == ViolationSeverity::Error,
            r.constraint_key is None,
            r.expected is None,
            r.actual is None,
            r.location is None,
    {
        ConformanceViolation::new(path, message, ViolationSeverity::Error)
    }

    /// Create a warning violation
    pub fn warning(path: &str, message: &str) -> (r: ConformanceViolation)
        ensures
            r.path@ == path@,
            r.message@ == message@,
            r.severity == ViolationSeverity::Warning,
            r.constraint_key is None,
            r.expected is None,
            r.actual is None,
            r.location is None,
    {
        ConformanceViolation::new(path, message, ViolationSeverity::Warning)
    }

    /// Create a fatal violation
    pub fn fatal(path: &str, message: &str) -> (r: ConformanceViolation)
        ensures
            r.path@ == path@,
            r.message@ == message@,
            r.severity == ViolationSeverity::Fatal,
            r.constraint_key is None,
            r.expected is None,
            r.actual is None,
            r.location is None,
    {
        ConformanceViolation::new(path, message, ViolationSeverity::Fatal)
    }

    /// Set the constraint key
    pub fn with_constraint_key(self, key: &str) -> (r: ConformanceViolation)
        ensures
            (r.constraint_key matches Some(k) && k@ == key@),
            r == (ConformanceViolation { constraint_key: r.constraint_key, ..self }),
    {
        let mut r = self;
        r.constraint_key = Some(key.to_owned());
        r
    }

    /// Set expected and actual values
    pub fn with_values(self, expected: &str, actual: &str) -> (r: ConformanceViolation)
        ensures
            (r.expected matches Some(e) && e@ == expected@),
            (r.actual matches Some(a) && a@ == actual@),
            r.path == self.path,
            r.message == self.message,
            r.severity == self.severity,
            r.constraint_key == self.constraint_key,
            r.location == self.location,
    {
        let mut r = self;
        r.expected = Some(expected.to_owned());
        r.actual = Some(actual.to_owned());
        r
    }

    /// Set source location
    pub fn with_location(self, location: SourceLocation) -> (r: ConformanceViolation)
        ensures
            r.location == Some(location),
            r == (ConformanceViolation { location: r.location, ..self }),
    {
        let mut r = self;
        r.location = Some(location);
        r
    }
}

impl ConformanceWarning {
    /// Create a new warning
    pub fn new(path: &str, message: &str) -> (r: ConformanceWarning)
        ensures
            r.path@ == path@,
            r.message@ == message@,
            r.code is None,
            r.location is None,
    {
        ConformanceWarning {
            path: path.to_owned(),
            message: message.to_owned(),
            code: None,
            location: None,
        }
    }

    /// Set warning code
    pub fn with_code(self, code: &str) -> (r: ConformanceWarning)
        ensures
            (r.code matches Some(c) && c@ == code@),
            r == (ConformanceWarning { code: r.code, ..self }),
    {
        let mut r = self;
        r.code = Some(code.to_owned());
        r
    }

    /// Set source location
    pub fn with_location(self, location: SourceLocation) -> (r: ConformanceWarning)
        ensures
            r.location == Some(location),
            r == (ConformanceWarning { location: r.location, ..self }),
    {
        let mut r = self;
        r.location = Some(location);
        r
    }
}

impl SourceLocation {
    /// Create a new source location
    pub fn new(line: u32, column: u32) -> (r: SourceLocation)
        ensures
            r.line == line,
            r.column == column,
            r.char_offset is None,
            r.length is None,
    {
        SourceLocation { line, column, char_offset: None, length: None }
    }

    /// Set character offset
    pub fn with_offset(self, offset: usize) -> (r: SourceLocation)
        ensures
            r == (SourceLocation { char_offset: Some(offset), ..self }),
    {
        let mut r = self;
        r.char_offset = Some(offset);
        r
    }

    /// Set length
    pub fn with_length(self, length: usize) -> (r: SourceLocation)
        ensures
            r == (SourceLocation { length: Some(length), ..self }),
    {
        let mut r = self;
        r.length = Some(length);
        r
    }
}

impl Default for ConformanceMetadata {
    /// Validator version "1.0.0" with zeroed counters.
    fn default() -> (r: Self)
        ensures
            r.validator_version@ == "1.0.0"@,
            r.validation_time_ms == 0,
            r.elements_validated == 0,
            r.constraints_evaluated == 0,
            r.additional@.len() == 0,
    {
        ConformanceMetadata {
            validator_version: "1.0.0".to_owned(),
            validation_time_ms: 0,
            elements_validated: 0,
            constraints_evaluated: 0,
            additional: Vec::new(),
        }
    }
}

impl ConformanceMetadata {
    /// Create new metadata with the default values.
    pub fn new() -> (r: ConformanceMetadata)
        ensures
            r.validator_version@ == "1.0.0"@,
            r.validation_time_ms == 0,
            r.elements_validated == 0,
            r.constraints_evaluated == 0,
            r.additional@.len() == 0,
    {
        ConformanceMetadata::default()
    }

    /// Set validator version
    pub fn with_version(self, version: &str) -> (r: ConformanceMetadata)
        ensures
            r.validator_version@ == version@,
            r.validation_time_ms == self.validation_time_ms,
            r.elements_validated == self.elements_validated,
            r.constraints_evaluated == self.constraints_evaluated,
            r.additional == self.additional,
    {
        let mut r = self;
        r.validator_version = version.to_owned();
        r
    }

    /// Set validation time
    pub fn with_time(self, time_ms: u64) -> (r: ConformanceMetadata)
        ensures
            r == (ConformanceMetadata { validation_time_ms: time_ms, ..self }),
    {
        let mut r = self;
        r.validation_time_ms = time_ms;
        r
    }

    /// Add additional metadata
    pub fn with_additional(self, key: &str, value: &str) -> (r: ConformanceMetadata)
        ensures
            r.additional@.len() == self.additional@.len() + 1,
            r.additional@[self.additional@.len() as int].0@ == key@,
            r.additional@[self.additional@.len() as int].1@ == value@,
            r == (ConformanceMetadata { additional: r.additional, ..self }),
    {
        let mut r = self;
        r.additional.push((key.to_owned(), value.to_owned()));
        r
    }
}

/// Validation context for conformance checking
#[derive(Debug, Clone)]
pub struct ValidationContext {
    /// FHIR version being validated against
    pub fhir_version: String,
    /// Validation mode (strict, lenient, etc.)
    pub validation_mode: ValidationMode,
    /// Profile URLs to validate against
    pub target_profiles: Vec<String>,
    /// Additional context parameters as key/value pairs
    pub parameters: Vec<(String, String)>,
    /// Validation scope
    pub scope: ValidationScope,
}

/// Validation mode enumeration
#[derive(Debug, Clone, PartialEq)]
pub enum ValidationMode {
    /// Strict validation - all constraints must be satisfied
    Strict,
    /// Lenient validation - warnings for non-critical violations
    Lenient,
    /// Profile-only validation - only validate against specific profiles
    ProfileOnly,
    /// Custom validation with specified rule sets
    Custom(Vec<String>),
}

/// Validation scope enumeration
#[derive(Debug, Clone, PartialEq)]
pub enum ValidationScope {
    /// Validate entire resource tree
    Full,
    /// Validate only specified paths
    PathsOnly(Vec<String>),
    /// Validate only elements matching criteria
    Conditional(ValidationCondition),
}

/// Validation condition for conditional scoping
#[derive(Debug, Clone, PartialEq)]
pub struct ValidationCondition {
    /// Path expression for condition
    pub expression: String,
    /// Whether to keep or exclude matching elements
    pub inclusive: bool,
}

/// Result of a validation rule execution
#[derive(Debug, Clone)]
pub struct ValidationRuleResult {
    /// Whether the rule passed
    pub passed: bool,
    /// Violations found by this rule
    pub violations: Vec<ConformanceViolation>,
    /// Warnings generated by this rule
    pub warnings: Vec<ConformanceWarning>,
    /// Rule execution metadata as key/value pairs
    pub metadata: Vec<(String, String)>,
}

/// Validation metrics for performance monitoring
#[derive(Debug, Clone, Default)]
pub struct ValidationMetrics {
    /// Total validation time in microseconds
    pub total_time_us: u64,
    /// Number of rules evaluated
    pub rules_evaluated: u32,
    /// Number of violations found
    pub violations_found: u32,
    /// Number of warnings generated
    pub warnings_generated: u32,
    /// Memory usage in bytes
    pub memory_usage_bytes: usize,
    /// Cache hit/miss statistics
    pub cache_stats: CacheStatistics,
}

/// Cache statistics for validation performance
#[derive(Debug, Clone, Default)]
pub struct CacheStatistics {
    /// Number of cache hits
    pub hits: u64,
    /// Number of cache misses
    pub misses: u64,
    /// Cache size in entries
    pub size: usize,
}

/// Validation profile information
#[derive(Debug, Clone)]
pub struct ValidationProfile {
    /// Profile URL
    pub url: String,
    /// Profile version
    pub version: String,
    /// Profile name
    pub name: String,
    /// Description
    pub description: Option<String>,
    /// Base profile URL (if this is a derived profile)
    pub base_profile: Option<String>,
    /// Validation rules specific to this profile
    pub rules: Vec<ProfileRule>,
    /// Dependencies on other profiles
    pub dependencies: Vec<String>,
}

/// Profile-specific validation rule
#[derive(Debug, Clone)]
pub struct ProfileRule {
    /// Rule identifier within the profile
    pub id: String,
    /// Path expression for the rule
    pub expression: String,
    /// Human-readable description
    pub description: String,
    /// Rule severity
    pub severity: ViolationSeverity,
    /// Rule category
    pub category: RuleCategory,
}

/// Categories of validation rules
#[derive(Debug, Clone, PartialEq)]
pub enum RuleCategory {
    /// Structure rules (cardinality, data types)
    Structure,
    /// Terminology rules (code validation)
    Terminology,
    /// Business rules (invariants)
    Business,
    /// Reference integrity rules
    References,
    /// Custom rules
    Custom(String),
}

impl ValidationContext {
    /// Create a new strict, full-scope validation context.
    pub fn new(fhir_version: &str) -> (r: ValidationContext)
        ensures
            r.fhir_version@ == fhir_version@,
            r.validation_mode == ValidationMode::Strict,
            r.target_profiles@.len() == 0,
            r.parameters@.len() == 0,
            r.scope == ValidationScope::Full,
    {
        ValidationContext {
            fhir_version: fhir_version.to_owned(),
            validation_mode: ValidationMode::Strict,
            target_profiles: Vec::new(),
            parameters: Vec::new(),
            scope: ValidationScope::Full,
        }
    }

    /// Set validation mode
    pub fn with_mode(self, mode: ValidationMode) -> (r: ValidationContext)
        ensures
            r == (ValidationContext { validation_mode: mode, ..self }),
    {
        let mut r = self;
        r.validation_mode = mode;
        r
    }

    /// Add target profile
    pub fn with_profile(self, profile_url: &str) -> (r: ValidationContext)
        ensures
            r.target_profiles@.len() == self.target_profiles@.len() + 1,
            r.target_profiles@[self.target_profiles@.len() as int]@ == profile_url@,
            r == (ValidationContext { target_profiles: r.target_profiles, ..self }),
    {
        let mut r = self;
        r.target_profiles.push(profile_url.to_owned());
        r
    }

    /// Add parameter
    pub fn with_parameter(self, key: &str, value: &str) -> (r: ValidationContext)
        ensures
            r.parameters@.len() == self.parameters@.len() + 1,
            r.parameters@[self.parameters@.len() as int].0@ == key@,
            r.parameters@[self.parameters@.len() as int].1@ == value@,
            r == (ValidationContext { parameters: r.parameters, ..self }),
    {
        let mut r = self;
        r.parameters.push((key.to_owned(), value.to_owned()));
        r
    }

    /// Set validation scope
    pub fn with_scope(self, scope: ValidationScope) -> (r: ValidationContext)
        ensures
            r == (ValidationContext { scope, ..self }),
    {
        let mut r = self;
        r.scope = scope;
        r
    }
}

impl ValidationRuleResult {
    /// Create a passing result with no findings.
    pub fn success() -> (r: ValidationRuleResult)
        ensures
            r.passed,
            r.violations@.len() == 0,
            r.warnings@.len() == 0,
            r.metadata@.len() == 0,
    {
        ValidationRuleResult {
            passed: true,
            violations: Vec::new(),
            warnings: Vec::new(),
            metadata: Vec::new(),
        }
    }

    /// Create a result from violations: it passes exactly when the list is
    /// empty.
    pub fn with_violations(violations: Vec<ConformanceViolation>) -> (r: ValidationRuleResult)
        ensures
            r.passed == (violations@.len() == 0),
            r.violations == violations,
            r.warnings@.len() == 0,
            r.metadata@.len() == 0,
    {
        let passed = violations.len() == 0;
        ValidationRuleResult { passed, violations, warnings: Vec::new(), metadata: Vec::new() }
    }

    /// Add metadata
    pub fn with_metadata(self, key: &str, value: &str) -> (r: ValidationRuleResult)
        ensures
            r.metadata@.len() == self.metadata@.len() + 1,
            r.metadata@[self.metadata@.len() as int].0@ == key@,
            r.metadata@[self.metadata@.len() as int].1@ == value@,
            r == (ValidationRuleResult { metadata: r.metadata, ..self }),
    {
        let mut r = self;
        r.metadata.push((key.to_owned(), value.to_owned()));
        r
    }
}

impl CacheStatistics {
    /// Record a cache hit
    pub fn record_hit(&mut self)
        requires
            old(self).hits < u64::MAX,
        ensures
            final(self).hits == old(self).hits + 1,
            final(self).misses == old(self).misses,
            final(self).size == old(self).size,
    {
        self.hits = self.hits + 1;
    }

    /// Record a cache miss
    pub fn record_miss(&mut self)
        requires
            old(self).misses < u64::MAX,
        ensures
            final(self).misses == old(self).misses + 1,
            final(self).hits == old(self).hits,
            final(self).size == old(self).size,
    {
        self.misses = self.misses + 1;
    }

    /// Update cache size
    pub fn update_size(&mut self, size: usize)
        ensures
            final(self).size == size,
            final(self).hits == old(self).hits,
            final(self).misses == old(self).misses,
    {
        self.size = size;
    }
}

} // verus!
