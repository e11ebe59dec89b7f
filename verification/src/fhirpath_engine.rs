//! Engine-facing configuration and capability records for constraint
//! evaluation.

use vstd::prelude::*;

verus! {

/// Configuration for path-expression constraint evaluation
#[derive(Debug, Clone)]
pub struct FhirPathEvaluationConfig {
    /// Maximum evaluation time in milliseconds
    pub timeout_ms: u64,
    /// Maximum recursion depth
    pub max_recursion_depth: usize,
    /// Whether to collect detailed metrics
    pub collect_metrics: bool,
    /// Whether to include evaluation details in results
    pub include_details: bool,
    /// Additional configuration parameters as key/value pairs
    pub parameters: Vec<(String, String)>,
}

impl Default for FhirPathEvaluationConfig {
    /// Five-second timeout, recursion depth one hundred, and no metrics or
    /// details collection.
    fn default() -> (r: Self)
        ensures
            r.timeout_ms == 5000,
            r.max_recursion_depth == 100,
            !r.collect_metrics,
            !r.include_details,
            r.parameters@.len() == 0,
    {
        FhirPathEvaluationConfig {
            timeout_ms: 5000,
            max_recursion_depth: 100,
            collect_metrics: false,
            include_details: false,
            parameters: Vec::new(),
        }
    }
}

/// Metrics for batch constraint evaluation
#[derive(Debug, Clone)]
pub struct BatchEvaluationMetrics {
    /// Total batch execution time in microseconds
    pub total_time_us: u64,
    /// Number of constraints processed
    pub constraints_processed: usize,
    /// Number of successful evaluations
    pub successful_evaluations: usize,
    /// Number of failed evaluations
    pub failed_evaluations: usize,
    /// Number of evaluation errors
    pub evaluation_errors: usize,
}

/// Capabilities and metadata for a path-expression engine
#[derive(Debug, Clone)]
pub struct FhirPathEngineCapabilities {
    /// Maximum supported recursion depth
    pub max_recursion_depth: usize,
    /// Whether the engine supports async evaluation
    pub supports_async: bool,
    /// Whether the engine can provide detailed evaluation metrics
    pub supports_metrics: bool,
    /// Whether the engine supports batch evaluation optimizations
    pub supports_batch_optimization: bool,
    /// Supported language features
    pub supported_features: Vec<String>,
    /// Whether the engine supports constraint pre-compilation
    pub supports_precompilation: bool,
    /// FHIR versions supported by this engine
    pub supported_fhir_versions: Vec<String>,
}

impl Default for FhirPathEngineCapabilities {
    /// Depth one hundred, async support, and the R4 and R5 versions.
    fn default() -> (r: Self)
        ensures
            r.max_recursion_depth == 100,
            r.supports_async,
            !r.supports_metrics,
            !r.supports_batch_optimization,
            r.supported_features@.len() == 0,
            !r.supports_precompilation,
            r.supported_fhir_versions@.len() == 2,
            r.supported_fhir_versions@[0]@ == "R4"@,
            r.supported_fhir_versions@[1]@ == "R5"@,
    {
        let mut versions: Vec<String> = Vec::new();
        versions.push("R4".to_owned());
        versions.push("R5".to_owned());
        FhirPathEngineCapabilities {
            max_recursion_depth: 100,
            supports_async: true,
            supports_metrics: false,
            supports_batch_optimization: false,
            supported_features: Vec::new(),
            supports_precompilation: false,
            supported_fhir_versions: versions,
        }
    }
}

/// Information about a path-expression engine factory
#[derive(Debug, Clone)]
pub struct FactoryInfo {
    /// Factory name
    pub name: String,
    /// Factory version
    pub version: String,
    /// Description of the engines this factory creates
    pub description: String,
    /// Default configuration used by this factory
    pub default_config: FhirPathEvaluationConfig,
}

} // verus!
