//! Terminology service records: value-set expansions, code translations,
//! lookups, subsumption outcomes, and the cache configuration used by
//! caching providers.

use vstd::prelude::*;

verus! {

/// Expansion parameters for value-set operations
#[derive(Debug, Clone)]
pub struct ExpansionParameters {
    /// Filter string
    pub filter: Option<String>,
    /// Maximum number of codes to return
    pub count: Option<u32>,
    /// Language preferences
    pub language: Option<String>,
}

/// Result of value-set expansion
#[derive(Debug, Clone)]
pub struct ValueSetExpansion {
    /// The expanded codes
    pub contains: Vec<ValueSetConcept>,
    /// Total count of concepts
    pub total: Option<u32>,
    /// Expansion parameters used
    pub parameters: Vec<ExpansionParameter>,
    /// Expansion timestamp
    pub timestamp: Option<String>,
}

/// A concept in a value-set expansion
#[derive(Debug, Clone)]
pub struct ValueSetConcept {
    /// The code
    pub code: String,
    /// The system
    pub system: Option<String>,
    /// Display text
    pub display: Option<String>,
}

/// Expansion parameter
#[derive(Debug, Clone)]
pub struct ExpansionParameter {
    /// Parameter name
    pub name: String,
    /// Parameter value
    pub value: String,
}

/// Result of code translation
#[derive(Debug, Clone)]
pub struct TranslationResult {
    /// Whether translation was successful
    pub success: bool,
    /// Translation targets
    pub targets: Vec<TranslationTarget>,
    /// Message if translation failed
    pub message: Option<String>,
}

/// Translation target
#[derive(Debug, Clone)]
pub struct TranslationTarget {
    /// Target code
    pub code: String,
    /// Target system
    pub system: String,
    /// Display text
    pub display: Option<String>,
    /// Equivalence level
    pub equivalence: EquivalenceLevel,
}

/// Equivalence level for translations
#[derive(Debug, Clone, PartialEq, Eq, Structural)]
pub enum EquivalenceLevel {
    /// Equivalent concepts
    Equivalent,
    /// Related concepts
    Related,
    /// Source is narrower than target
    Narrower,
    /// Source is broader than target
    Broader,
}

/// Connection status for a terminology server
#[derive(Debug, Clone)]
pub struct ConnectionStatus {
    /// Whether connection succeeded
    pub connected: bool,
    /// Response time in milliseconds
    pub response_time_ms: Option<u64>,
    /// Server version if available
    pub server_version: Option<String>,
    /// Error message if connection failed
    pub error: Option<String>,
}

/// Result of concept lookup operation
#[derive(Debug, Clone)]
pub struct LookupResult {
    /// The concept display name
    pub display: Option<String>,
    /// The concept definition
    pub definition: Option<String>,
    /// Concept properties
    pub properties: Vec<ConceptProperty>,
}

/// A concept property from lookup
#[derive(Debug, Clone)]
pub struct ConceptProperty {
    /// Property code
    pub code: String,
    /// Property value
    pub value: String,
    /// Property type
    pub property_type: Option<String>,
}

/// Result of validation operation
#[derive(Debug, Clone)]
pub struct ValidationResult {
    /// Whether validation succeeded
    pub result: bool,
    /// Display text for the code
    pub display: Option<String>,
    /// Validation message
    pub message: Option<String>,
}

/// Result of subsumption test
#[derive(Debug, Clone)]
pub struct SubsumptionResult {
    /// Subsumption outcome
    pub outcome: SubsumptionOutcome,
}

/// Subsumption outcomes
#[derive(Debug, Clone, PartialEq, Eq, Structural)]
pub enum SubsumptionOutcome {
    /// Parent subsumes child
    Subsumes,
    /// Child subsumes parent
    SubsumedBy,
    /// Concepts are equivalent
    Equivalent,
    /// No subsumption relationship
    NotSubsumed,
}

/// A terminology provider that talks to no server: codes always validate,
/// expansions are empty, and translations echo the source code.
#[derive(Debug, Clone)]
pub struct NoOpTerminologyProvider;

impl NoOpTerminologyProvider {
    /// Every code is accepted.
    pub fn validate_code(&self, code: &str, system: &str, version: Option<&str>) -> (r: bool)
        ensures
            r,
    {
        true
    }

    /// The empty expansion with a total of zero.
    pub fn expand_valueset(&self, valueset_url: &str, parameters: Option<&ExpansionParameters>) -> (r:
        ValueSetExpansion)
        ensures
            r.contains@.len() == 0,
            r.total == Some(0u32),
            r.parameters@.len() == 0,
            r.timestamp is None,
    {
        ValueSetExpansion {
            contains: Vec::new(),
            total: Some(0),
            parameters: Vec::new(),
            timestamp: None,
        }
    }

    /// A successful translation echoing the source code into the target
    /// system as an equivalent concept.
    pub fn translate_code(&self, source_code: &str, target_system: &str, concept_map_url: Option<
        &str,
    >) -> (r: TranslationResult)
        ensures
            r.success,
            r.targets@.len() == 1,
            r.targets@[0].code@ == source_code@,
            r.targets@[0].system@ == target_system@,
            r.targets@[0].display is None,
            r.targets@[0].equivalence == EquivalenceLevel::Equivalent,
            r.message is None,
    {
        let mut targets: Vec<TranslationTarget> = Vec::new();
        targets.push(
            TranslationTarget {
                code: source_code.to_owned(),
                system: target_system.to_owned(),
                display: None,
                equivalence: EquivalenceLevel::Equivalent,
            },
        );
        TranslationResult { success: true, targets, message: None }
    }

    /// A mock display and definition for the requested code.
    pub fn lookup_code(&self, system: &str, code: &str, version: Option<&str>) -> (r: LookupResult)
        ensures
            (r.display matches Some(d) && d@ == "Mock display for "@ + code@),
            (r.definition matches Some(d) && d@ == "Mock definition for "@ + code@),
            r.properties@.len() == 0,
    {
        let mut display = String::new();
        display.append("Mock display for ");
        display.append(code);
        let mut definition = String::new();
        definition.append("Mock definition for ");
        definition.append(code);
        LookupResult { display: Some(display), definition: Some(definition), properties: Vec::new() }
    }

    /// Every code validates against every value set, with a mock display.
    pub fn validate_code_vs(
        &self,
        valueset: &str,
        system: Option<&str>,
        code: &str,
        display: Option<&str>,
    ) -> (r: ValidationResult)
        ensures
            r.result,
            (r.display matches Some(d) && d@ == "Mock display"@),
            r.message is None,
    {
        ValidationResult { result: true, display: Some("Mock display".to_owned()), message: None }
    }

    /// No subsumption relationship is ever reported.
    pub fn subsumes(&self, system: &str, parent: &str, child: &str) -> (r: SubsumptionResult)
        ensures
            r.outcome == SubsumptionOutcome::NotSubsumed,
    {
        SubsumptionResult { outcome: SubsumptionOutcome::NotSubsumed }
    }

    /// The connection always reports success instantly.
    pub fn test_connection(&self) -> (r: ConnectionStatus)
        ensures
            r.connected,
            r.response_time_ms == Some(0u64),
            (r.server_version matches Some(v) && v@ == "NoOp-1.0.0"@),
            r.error is None,
    {
        ConnectionStatus {
            connected: true,
            response_time_ms: Some(0),
            server_version: Some("NoOp-1.0.0".to_owned()),
            error: None,
        }
    }
}

/// Relies on Duration's `Clone`: a copy equals the original, since the
/// type is plain data.
pub assume_specification [ <core::time::Duration as Clone>::clone ](d: &core::time::Duration) -> (r:
    core::time::Duration)
    ensures
        r == *d,
;

/// The duration a given number of whole seconds denotes.
pub uninterp spec fn duration_of_secs(secs: u64) -> core::time::Duration;

/// Relies on Duration::from_secs: the duration built from a second count is
/// a pure function of that count.
pub assume_specification [ core::time::Duration::from_secs ](secs: u64) -> (r: core::time::Duration)
    ensures
        r == duration_of_secs(secs),
;

/// Cache configuration for terminology operations: a time-to-live and a
/// maximum entry count for each kind of cached operation.
#[derive(Debug, Clone)]
pub struct TerminologyCacheConfig {
    /// Time-to-live for validation cache entries (default: 1 hour)
    pub validation_ttl: core::time::Duration,
    /// Maximum entries in validation cache (default: 10,000)
    pub validation_max_size: u64,
    /// Time-to-live for expansion cache entries (default: 1 hour)
    pub expansion_ttl: core::time::Duration,
    /// Maximum entries in expansion cache (default: 1,000)
    pub expansion_max_size: u64,
    /// Time-to-live for lookup cache entries (default: 24 hours)
    pub lookup_ttl: core::time::Duration,
    /// Maximum entries in lookup cache (default: 5,000)
    pub lookup_max_size: u64,
}

impl Default for TerminologyCacheConfig {
    /// One-hour validation and expansion entries, day-long lookup entries,
    /// and the default size bounds.
    fn default() -> (r: Self)
        ensures
            r.validation_ttl == duration_of_secs(3600),
            r.validation_max_size == 10000,
            r.expansion_ttl == duration_of_secs(3600),
            r.expansion_max_size == 1000,
            r.lookup_ttl == duration_of_secs(86400),
            r.lookup_max_size == 5000,
    {
        TerminologyCacheConfig {
            validation_ttl: core::time::Duration::from_secs(3600),
            validation_max_size: 10_000,
            expansion_ttl: core::time::Duration::from_secs(3600),
            expansion_max_size: 1_000,
            lookup_ttl: core::time::Duration::from_secs(86400),
            lookup_max_size: 5_000,
        }
    }
}

impl TerminologyCacheConfig {
    /// Create a new cache configuration with custom times-to-live and the
    /// default size bounds.
    pub fn new(
        validation_ttl: core::time::Duration,
        expansion_ttl: core::time::Duration,
        lookup_ttl: core::time::Duration,
    ) -> (r: TerminologyCacheConfig)
        ensures
            r.validation_ttl == validation_ttl,
            r.expansion_ttl == expansion_ttl,
            r.lookup_ttl == lookup_ttl,
            r.validation_max_size == 10000,
            r.expansion_max_size == 1000,
            r.lookup_max_size == 5000,
    {
        let mut r = TerminologyCacheConfig::default();
        r.validation_ttl = validation_ttl;
        r.expansion_ttl = expansion_ttl;
        r.lookup_ttl = lookup_ttl;
        r
    }

    /// Set validation cache time-to-live
    pub fn with_validation_ttl(self, ttl: core::time::Duration) -> (r: TerminologyCacheConfig)
        ensures
            r == (TerminologyCacheConfig { validation_ttl: ttl, ..self }),
    {
        let mut r = self;
        r.validation_ttl = ttl;
        r
    }

    /// Set validation cache max size
    pub fn with_validation_max_size(self, size: u64) -> (r: TerminologyCacheConfig)
        ensures
            r == (TerminologyCacheConfig { validation_max_size: size, ..self }),
    {
        let mut r = self;
        r.validation_max_size = size;
        r
    }

    /// Set expansion cache time-to-live
    pub fn with_expansion_ttl(self, ttl: core::time::Duration) -> (r: TerminologyCacheConfig)
        ensures
            r == (TerminologyCacheConfig { expansion_ttl: ttl, ..self }),
    {
        let mut r = self;
        r.expansion_ttl = ttl;
        r
    }

    /// Set expansion cache max size
    pub fn with_expansion_max_size(self, size: u64) -> (r: TerminologyCacheConfig)
        ensures
            r == (TerminologyCacheConfig { expansion_max_size: size, ..self }),
    {
        let mut r = self;
        r.expansion_max_size = size;
        r
    }

    /// Set lookup cache time-to-live
    pub fn with_lookup_ttl(self, ttl: core::time::Duration) -> (r: TerminologyCacheConfig)
        ensures
            r == (TerminologyCacheConfig { lookup_ttl: ttl, ..self }),
    {
        let mut r = self;
        r.lookup_ttl = ttl;
        r
    }

    /// Set lookup cache max size
    pub fn with_lookup_max_size(self, size: u64) -> (r: TerminologyCacheConfig)
        ensures
            r == (TerminologyCacheConfig { lookup_max_size: size, ..self }),
    {
        let mut r = self;
        r.lookup_max_size = size;
        r
    }
}

/// Cache statistics for a terminology provider
#[derive(Debug, Clone, Default)]
pub struct TerminologyCacheStats {
    /// Number of entries in the validation cache
    pub validation_entries: u64,
    /// Number of entries in the expansion cache
    pub expansion_entries: u64,
    /// Number of entries in the lookup cache
    pub lookup_entries: u64,
}

/// Key for validation cache
#[derive(Debug, Clone, Hash, PartialEq, Eq)]
pub struct ValidationCacheKey {
    /// Value set URL for value-set validation, or system for code validation
    pub key: String,
    /// System (optional for value-set validation)
    pub system: Option<String>,
    /// Code being validated
    pub code: String,
    /// Version (optional)
    pub version: Option<String>,
}

/// Key for lookup cache
#[derive(Debug, Clone, Hash, PartialEq, Eq)]
pub struct LookupCacheKey {
    /// Code system URL
    pub system: String,
    /// Code
    pub code: String,
    /// Version (optional)
    pub version: Option<String>,
}

} // verus!
