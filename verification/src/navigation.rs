//! Navigation paths: typed path segments, per-segment costs and the path
//! complexity model.
//!
//! Costs and scores over the unit interval are held in hundredths (0 to 100).

use vstd::prelude::*;

use crate::reflection::TypeReflectionInfo;
use crate::strutil::str_eq;
use crate::type_system::{
    spec_default_collection_info, spec_default_navigation_metadata, Cardinality, CollectionInfo,
    NavigationMetadata,
};

verus! {

/// Optimization hint for performance improvements
#[derive(Debug, Clone)]
pub struct OptimizationHint {
    /// Type of optimization
    pub optimization_type: String,
    /// Description of the optimization
    pub description: String,
    /// Estimated performance impact in hundredths (0 = none, 100 = significant)
    pub impact: u32,
    /// Suggested action to apply the optimization
    pub suggested_action: String,
}

/// Type-safe path representation for navigation
#[derive(Debug, Clone)]
pub struct NavigationPath {
    /// Ordered segments that make up this path
    pub segments: Vec<NavigationSegment>,
    /// The full path as a string (e.g., "Patient.name.given")
    pub full_path: String,
    /// Whether this path is type-safe (all segments validated)
    pub is_type_safe: bool,
    /// Any validation errors found during path analysis
    pub validation_errors: Vec<String>,
    /// Optimization hints for this path
    pub optimization_hints: Vec<OptimizationHint>,
    /// Path complexity metrics
    pub complexity: PathComplexity,
}

/// Individual segment in a navigation path
#[derive(Debug, Clone)]
pub struct NavigationSegment {
    /// Segment name (e.g., "name", "given", "valueString")
    pub name: String,
    /// Type of navigation segment
    pub segment_type: SegmentType,
    /// Source type for this segment
    pub source_type: String,
    /// Target type after this segment
    pub target_type: String,
    /// Cardinality of the target
    pub cardinality: Cardinality,
    /// Whether this segment can fail at runtime
    pub can_fail: bool,
    /// Performance cost of this segment in hundredths (0 = free, 100 = expensive)
    pub cost: u32,
}

/// Types of navigation segments
#[derive(Debug, Clone, PartialEq)]
pub enum SegmentType {
    /// Simple property access (e.g., "name")
    Property,
    /// Choice type expansion (e.g., "value" -> "valueString")
    ChoiceExpansion {
        /// Base property name
        base_property: String,
        /// Expanded type name
        expanded_type: String,
    },
    /// Collection navigation (e.g., "name[0]")
    Collection {
        /// Optional collection index
        index: Option<usize>,
    },
    /// Function call (e.g., "exists()", "first()")
    Function {
        /// Function name
        function_name: String,
        /// Function parameters
        parameters: Vec<String>,
    },
    /// Type cast operation (e.g., "as(Patient)")
    TypeCast {
        /// Target type for casting
        target_type: String,
    },
    /// Type filter operation (e.g., "ofType(Patient)")
    TypeFilter {
        /// Type to filter by
        filter_type: String,
    },
    /// Where clause navigation (e.g., "name.where(use = 'official')")
    WhereClause {
        /// Where condition
        condition: String,
    },
}

/// Path complexity analysis
#[derive(Debug, Clone)]
pub struct PathComplexity {
    /// Number of segments in the path
    pub segment_count: usize,
    /// Depth of navigation
    pub depth: usize,
    /// Number of choice type expansions
    pub choice_expansions: usize,
    /// Number of function calls
    pub function_calls: usize,
    /// Overall complexity score in hundredths (0 = simple, 100 = very complex)
    pub complexity_score: u32,
    /// Whether path has potential performance issues
    pub has_performance_concerns: bool,
}

/// Function parameter for navigation
#[derive(Debug, Clone)]
pub struct FunctionParameter {
    /// Parameter name
    pub name: String,
    /// Parameter value (as a path expression)
    pub value: String,
    /// Expected parameter type
    pub expected_type: String,
}

/// Navigation constraint
#[derive(Debug, Clone)]
pub struct NavigationConstraint {
    /// Constraint identifier
    pub constraint_id: String,
    /// Constraint type
    pub constraint_type: ConstraintType,
    /// Constraint expression
    pub expression: String,
    /// Error message if constraint violated
    pub error_message: String,
    /// Severity of constraint violation
    pub severity: ConstraintSeverity,
}

/// Types of navigation constraints
#[derive(Debug, Clone, PartialEq, Eq, Structural)]
pub enum ConstraintType {
    /// Type safety constraint
    TypeSafety,
    /// Cardinality constraint
    Cardinality,
    /// Business rule constraint
    BusinessRule,
    /// Performance constraint
    Performance,
}

/// Constraint severity levels
#[derive(Debug, Clone, PartialEq, Eq, Structural)]
pub enum ConstraintSeverity {
    /// Must be satisfied
    Error,
    /// Should be satisfied
    Warning,
    /// For information only
    Information,
}

/// Types of type operations
#[derive(Debug, Clone, PartialEq, Eq, Structural)]
pub enum TypeOperationType {
    /// Type checking (is)
    Check,
    /// Type casting (as)
    Cast,
    /// Type filtering (ofType)
    Filter,
}

/// Comprehensive navigation result
#[derive(Debug, Clone)]
pub struct NavigationResult {
    /// Final result type after navigation
    pub result_type: TypeReflectionInfo,
    /// Collection information if result is a collection
    pub collection_info: CollectionInfo,
    /// Navigation metadata preserved during traversal
    pub navigation_metadata: NavigationMetadata,
    /// Validation results from navigation
    pub validation_results: Vec<ValidationResult>,
    /// Performance hints for optimization
    pub performance_hints: Vec<OptimizationHint>,
    /// Whether navigation succeeded without errors
    pub is_success: bool,
    /// Any errors encountered during navigation
    pub errors: Vec<NavigationError>,
}

/// Choice type resolution information
#[derive(Debug, Clone)]
pub struct ChoiceResolution {
    /// Original choice property name
    pub choice_property: String,
    /// Resolved specific type
    pub resolved_type: String,
    /// Confidence in this resolution, in hundredths
    pub confidence: u32,
    /// Method used for resolution
    pub resolution_method: String,
}

/// Function call information
#[derive(Debug, Clone)]
pub struct FunctionCall {
    /// Function name
    pub function_name: String,
    /// Function parameters
    pub parameters: Vec<FunctionParameter>,
    /// Return type
    pub return_type: String,
    /// Whether function call succeeded
    pub succeeded: bool,
}

/// Type operation information
#[derive(Debug, Clone)]
pub struct TypeOperation {
    /// Operation type
    pub operation_type: TypeOperationType,
    /// Operand type
    pub operand_type: String,
    /// Operation result
    pub result: bool,
}

/// Validation result for navigation
#[derive(Debug, Clone)]
pub struct ValidationResult {
    /// Whether validation passed
    pub is_valid: bool,
    /// Validation rule that was applied
    pub rule_id: String,
    /// Validation message
    pub message: String,
    /// Severity of validation result
    pub severity: ConstraintSeverity,
    /// Location where validation was applied
    pub location: String,
}

/// Navigation error
#[derive(Debug, Clone)]
pub struct NavigationError {
    /// Error type
    pub error_type: NavigationErrorType,
    /// Error message
    pub message: String,
    /// Location where error occurred
    pub location: String,
    /// Suggested fixes
    pub suggestions: Vec<String>,
}

/// Types of navigation errors
#[derive(Debug, Clone, PartialEq, Eq, Structural)]
pub enum NavigationErrorType {
    /// Property does not exist
    PropertyNotFound,
    /// Type mismatch
    TypeMismatch,
    /// Cardinality violation
    CardinalityViolation,
    /// Function not supported
    UnsupportedFunction,
    /// Invalid function parameters
    InvalidParameters,
    /// Collection index out of bounds
    IndexOutOfBounds,
    /// Choice type resolution failed
    ChoiceResolutionFailed,
}

/// Path validation summary
#[derive(Debug, Clone)]
pub struct PathValidation {
    /// Path being validated
    pub path: String,
    /// Whether path is valid
    pub is_valid: bool,
    /// Validation errors found
    pub validation_errors: Vec<ValidationError>,
    /// Validation warnings
    pub validation_warnings: Vec<ValidationWarning>,
    /// Suggested corrections
    pub suggested_corrections: Vec<String>,
    /// Type safety analysis
    pub type_safety_analysis: TypeSafetyAnalysis,
    /// Performance analysis
    pub performance_analysis: PerformanceAnalysis,
}

/// Validation error
#[derive(Debug, Clone)]
pub struct ValidationError {
    /// Error code
    pub error_code: String,
    /// Error message
    pub message: String,
    /// Location in path where error occurred
    pub location: PathLocation,
    /// Severity of error
    pub severity: ConstraintSeverity,
}

/// Validation warning
#[derive(Debug, Clone)]
pub struct ValidationWarning {
    /// Warning code
    pub warning_code: String,
    /// Warning message
    pub message: String,
    /// Location in path where warning applies
    pub location: PathLocation,
    /// Recommendation to address warning
    pub recommendation: Option<String>,
}

/// Location within a path
#[derive(Debug, Clone)]
pub struct PathLocation {
    /// Segment index in path
    pub segment_index: usize,
    /// Character position in full path string
    pub character_position: usize,
    /// Segment name
    pub segment_name: String,
}

/// Type safety analysis for paths
#[derive(Debug, Clone)]
pub struct TypeSafetyAnalysis {
    /// Type violations found
    pub type_violations: Vec<TypeViolation>,
    /// Unsafe operations detected
    pub unsafe_operations: Vec<UnsafeOperation>,
    /// Recommended type casts
    pub recommended_casts: Vec<RecommendedCast>,
    /// Overall safety score in hundredths (0 = unsafe, 100 = completely safe)
    pub safety_score: u32,
}

/// Type violation in path
#[derive(Debug, Clone)]
pub struct TypeViolation {
    /// Location of violation
    pub location: PathLocation,
    /// Expected type
    pub expected_type: String,
    /// Actual type
    pub actual_type: String,
    /// Violation message
    pub message: String,
}

/// Unsafe operation in path
#[derive(Debug, Clone)]
pub struct UnsafeOperation {
    /// Location of unsafe operation
    pub location: PathLocation,
    /// Operation that is unsafe
    pub operation: String,
    /// Why it is unsafe
    pub reason: String,
    /// How to make it safe
    pub mitigation: String,
}

/// Recommended type cast
#[derive(Debug, Clone)]
pub struct RecommendedCast {
    /// Location where cast should be applied
    pub location: PathLocation,
    /// Source type
    pub from_type: String,
    /// Target type
    pub to_type: String,
    /// Cast expression to use
    pub cast_expression: String,
}

/// Performance analysis for paths
#[derive(Debug, Clone)]
pub struct PerformanceAnalysis {
    /// Overall performance score in hundredths (0 = slow, 100 = fast)
    pub performance_score: u32,
    /// Estimated execution time in milliseconds
    pub estimated_time_ms: u64,
    /// Memory usage estimate in bytes
    pub estimated_memory_bytes: usize,
    /// Performance bottlenecks identified
    pub bottlenecks: Vec<PerformanceBottleneck>,
    /// Optimization suggestions
    pub optimizations: Vec<OptimizationHint>,
}

/// Performance bottleneck
#[derive(Debug, Clone)]
pub struct PerformanceBottleneck {
    /// Location of bottleneck
    pub location: PathLocation,
    /// Type of bottleneck
    pub bottleneck_type: BottleneckType,
    /// Description of the issue
    pub description: String,
    /// Impact level
    pub impact: ImpactLevel,
}

/// Types of performance bottlenecks
#[derive(Debug, Clone, PartialEq, Eq, Structural)]
pub enum BottleneckType {
    /// Expensive function call
    ExpensiveFunction,
    /// Large collection traversal
    CollectionTraversal,
    /// Complex type resolution
    TypeResolution,
    /// Inefficient pattern matching
    PatternMatching,
}

/// Impact level of issues
#[derive(Debug, Clone, PartialEq, Eq, Structural)]
pub enum ImpactLevel {
    /// Low impact
    Low,
    /// Medium impact
    Medium,
    /// High impact
    High,
    /// Critical impact
    Critical,
}

/// How many segments of a path are choice expansions.
pub open spec fn count_choice_expansions(s: Seq<NavigationSegment>) -> nat
    decreases s.len(),
{
    if s.len() == 0 {
        0
    } else {
        count_choice_expansions(s.drop_last()) + if s.last().segment_type matches
            SegmentType::ChoiceExpansion { .. } {
            1nat
        } else {
            0nat
        }
    }
}

/// How many segments of a path are function calls.
pub open spec fn count_function_calls(s: Seq<NavigationSegment>) -> nat
    decreases s.len(),
{
    if s.len() == 0 {
        0
    } else {
        count_function_calls(s.drop_last()) + if s.last().segment_type matches SegmentType::Function {
            ..
        } {
            1nat
        } else {
            0nat
        }
    }
}

/// The complexity score in hundredths: ten per segment, thirty per choice
/// expansion and twenty per function call, capped at one hundred.
pub open spec fn spec_complexity_score(s: Seq<NavigationSegment>) -> u32 {
    let raw = 10 * s.len() + 30 * count_choice_expansions(s) + 20 * count_function_calls(s);
    if raw > 100 {
        100u32
    } else {
        raw as u32
    }
}

/// The complexity record recomputed for a list of segments.
pub open spec fn spec_complexity_of(s: Seq<NavigationSegment>) -> PathComplexity {
    PathComplexity {
        segment_count: s.len() as usize,
        depth: s.len() as usize,
        choice_expansions: count_choice_expansions(s) as usize,
        function_calls: count_function_calls(s) as usize,
        complexity_score: spec_complexity_score(s),
        has_performance_concerns: spec_complexity_score(s) > 70,
    }
}

/// The total cost of a path in hundredths: the sum of its segment costs.
pub open spec fn spec_path_cost(s: Seq<NavigationSegment>) -> nat
    decreases s.len(),
{
    if s.len() == 0 {
        0
    } else {
        spec_path_cost(s.drop_last()) + s.last().cost as nat
    }
}

/// Appending a segment never decreases the complexity score or the total
/// cost of a path.
pub proof fn lemma_append_monotone(s: Seq<NavigationSegment>, x: NavigationSegment)
    ensures
        spec_complexity_score(s.push(x)) >= spec_complexity_score(s),
        spec_path_cost(s.push(x)) >= spec_path_cost(s),
{
    assert(s.push(x).drop_last() =~= s);
}

/// Path analysis is deterministic: the complexity record and the total cost
/// are functions of the segment list alone, so identical paths always
/// analyze identically.
pub proof fn lemma_analysis_deterministic(a: Seq<NavigationSegment>, b: Seq<NavigationSegment>)
    requires
        a == b,
    ensures
        spec_complexity_of(a) == spec_complexity_of(b),
        spec_path_cost(a) == spec_path_cost(b),
{
}

impl NavigationPath {
    /// Create a new navigation path with no segments and zero complexity.
    pub fn new(full_path: &str) -> (r: NavigationPath)
        ensures
            r.full_path@ == full_path@,
            r.segments@.len() == 0,
            !r.is_type_safe,
            r.validation_errors@.len() == 0,
            r.optimization_hints@.len() == 0,
            r.complexity == spec_complexity_of(r.segments@),
    {
        let r = NavigationPath {
            segments: Vec::new(),
            full_path: full_path.to_owned(),
            is_type_safe: false,
            validation_errors: Vec::new(),
            optimization_hints: Vec::new(),
            complexity: PathComplexity {
                segment_count: 0,
                depth: 0,
                choice_expansions: 0,
                function_calls: 0,
                complexity_score: 0,
                has_performance_concerns: false,
            },
        };
        proof {
            assert(r.complexity == spec_complexity_of(r.segments@));
        }
        r
    }

    /// Append a segment and recompute the complexity record.
    pub fn add_segment(&mut self, segment: NavigationSegment)
        ensures
            final(self).segments@ == old(self).segments@.push(segment),
            final(self).complexity == spec_complexity_of(final(self).segments@),
            final(self).full_path == old(self).full_path,
            final(self).is_type_safe == old(self).is_type_safe,
            final(self).validation_errors == old(self).validation_errors,
            final(self).optimization_hints == old(self).optimization_hints,
    {
        self.segments.push(segment);
        self.update_complexity();
    }

    /// Check if path is empty
    pub fn is_empty(&self) -> (r: bool)
        ensures
            r == (self.segments@.len() == 0),
    {
        self.segments.len() == 0
    }

    /// The target type of the last segment, if the path has one.
    pub fn target_type(&self) -> (r: Option<&str>)
        ensures
            match r {
                Some(t) => self.segments@.len() > 0 && t@ == self.segments@.last().target_type@,
                None => self.segments@.len() == 0,
            },
    {
        if self.segments.len() > 0 {
            Some(self.segments[self.segments.len() - 1].target_type.as_str())
        } else {
            None
        }
    }

    /// Calculate the total cost of path traversal, saturating at the
    /// largest representable value.
    #[verifier::loop_isolation(false)]
    pub fn total_cost(&self) -> (r: u64)
        ensures
            r == if spec_path_cost(self.segments@) > u64::MAX {
                u64::MAX as nat
            } else {
                spec_path_cost(self.segments@)
            },
    {
        let mut sum: u64 = 0;
        let mut i: usize = 0;
        while i < self.segments.len()
            invariant
                i <= self.segments@.len(),
                sum == if spec_path_cost(self.segments@.subrange(0, i as int)) > u64::MAX {
                    u64::MAX as nat
                } else {
                    spec_path_cost(self.segments@.subrange(0, i as int))
                },
            decreases self.segments@.len() - i,
        {
            let ghost pre = self.segments@.subrange(0, i as int);
            let ghost post = self.segments@.subrange(0, i as int + 1);
            proof {
                assert(post.drop_last() =~= pre);
                assert(post.last() == self.segments@[i as int]);
            }
            let c = self.segments[i].cost as u64;
            if sum > u64::MAX - c {
                sum = u64::MAX;
            } else {
                sum = sum + c;
            }
            i += 1;
        }
        proof {
            assert(self.segments@.subrange(0, self.segments@.len() as int) =~= self.segments@);
        }
        sum
    }

    /// Recompute the complexity record from the current segments.
    #[verifier::loop_isolation(false)]
    fn update_complexity(&mut self)
        ensures
            final(self).complexity == spec_complexity_of(final(self).segments@),
            final(self).segments == old(self).segments,
            final(self).full_path == old(self).full_path,
            final(self).is_type_safe == old(self).is_type_safe,
            final(self).validation_errors == old(self).validation_errors,
            final(self).optimization_hints == old(self).optimization_hints,
    {
        let segment_count = self.segments.len();
        let mut choice_expansions: usize = 0;
        let mut function_calls: usize = 0;
        let mut i: usize = 0;
        while i < self.segments.len()
            invariant
                i <= self.segments@.len(),
                choice_expansions == count_choice_expansions(self.segments@.subrange(0, i as int)),
                function_calls == count_function_calls(self.segments@.subrange(0, i as int)),
                choice_expansions <= i,
                function_calls <= i,
            decreases self.segments@.len() - i,
        {
            let ghost pre = self.segments@.subrange(0, i as int);
            let ghost post = self.segments@.subrange(0, i as int + 1);
            proof {
                assert(post.drop_last() =~= pre);
                assert(post.last() == self.segments@[i as int]);
            }
            match self.segments[i].segment_type {
                SegmentType::ChoiceExpansion { .. } => {
                    choice_expansions += 1;
                },
                SegmentType::Function { .. } => {
                    function_calls += 1;
                },
                _ => {},
            }
            i += 1;
        }
        proof {
            assert(self.segments@.subrange(0, self.segments@.len() as int) =~= self.segments@);
        }
        let capped_seg: usize = if segment_count > 10 {
            10
        } else {
            segment_count
        };
        let capped_ce: usize = if choice_expansions > 4 {
            4
        } else {
            choice_expansions
        };
        let capped_fc: usize = if function_calls > 5 {
            5
        } else {
            function_calls
        };
        let raw: usize = 10 * capped_seg + 30 * capped_ce + 20 * capped_fc;
        let score: u32 = if raw > 100 {
            100
        } else {
            raw as u32
        };
        proof {
            assert(score == spec_complexity_score(self.segments@));
        }
        self.complexity = PathComplexity {
            segment_count,
            depth: segment_count,
            choice_expansions,
            function_calls,
            complexity_score: score,
            has_performance_concerns: score > 70,
        };
    }
}

impl NavigationSegment {
    /// Create a simple property segment: cost ten hundredths, cannot fail.
    pub fn property(name: &str, source_type: &str, target_type: &str, cardinality: Cardinality) -> (r:
        NavigationSegment)
        ensures
            r.name@ == name@,
            r.segment_type == SegmentType::Property,
            r.source_type@ == source_type@,
            r.target_type@ == target_type@,
            r.cardinality == cardinality,
            !r.can_fail,
            r.cost == 10,
    {
        NavigationSegment {
            name: name.to_owned(),
            segment_type: SegmentType::Property,
            source_type: source_type.to_owned(),
            target_type: target_type.to_owned(),
            cardinality,
            can_fail: false,
            cost: 10,
        }
    }

    /// Create a choice expansion segment: cost thirty hundredths, can fail.
    pub fn choice_expansion(
        name: &str,
        base_property: &str,
        expanded_type: &str,
        source_type: &str,
        target_type: &str,
        cardinality: Cardinality,
    ) -> (r: NavigationSegment)
        ensures
            r.name@ == name@,
            (r.segment_type matches SegmentType::ChoiceExpansion { base_property: b, expanded_type: e }
                && b@ == base_property@ && e@ == expanded_type@),
            r.source_type@ == source_type@,
            r.target_type@ == target_type@,
            r.cardinality == cardinality,
            r.can_fail,
            r.cost == 30,
    {
        NavigationSegment {
            name: name.to_owned(),
            segment_type: SegmentType::ChoiceExpansion {
                base_property: base_property.to_owned(),
                expanded_type: expanded_type.to_owned(),
            },
            source_type: source_type.to_owned(),
            target_type: target_type.to_owned(),
            cardinality,
            can_fail: true,
            cost: 30,
        }
    }

    /// The cost of a function segment in hundredths: twenty for the simple
    /// membership and occurrence tests, fifty for filters, projections and
    /// quantifiers, and forty for anything else.
    pub open spec fn spec_function_cost(name: Seq<char>) -> u32 {
        if name == "exists"@ || name == "empty"@ || name == "first"@ || name == "last"@ {
            20u32
        } else if name == "where"@ || name == "select"@ || name == "all"@ || name == "any"@ {
            50u32
        } else {
            40u32
        }
    }

    /// Create a function call segment with the cost table above; can fail.
    pub fn function(
        name: &str,
        function_name: &str,
        parameters: Vec<String>,
        source_type: &str,
        target_type: &str,
        cardinality: Cardinality,
    ) -> (r: NavigationSegment)
        ensures
            r.name@ == name@,
            (r.segment_type matches SegmentType::Function { function_name: f, parameters: p } && f@
                == function_name@ && p == parameters),
            r.source_type@ == source_type@,
            r.target_type@ == target_type@,
            r.cardinality == cardinality,
            r.can_fail,
            r.cost == NavigationSegment::spec_function_cost(function_name@),
    {
        let cost = if str_eq(function_name, "exists") || str_eq(function_name, "empty") || str_eq(
            function_name,
            "first",
        ) || str_eq(function_name, "last") {
            20
        } else if str_eq(function_name, "where") || str_eq(function_name, "select") || str_eq(
            function_name,
            "all",
        ) || str_eq(function_name, "any") {
            50
        } else {
            40
        };
        NavigationSegment {
            name: name.to_owned(),
            segment_type: SegmentType::Function {
                function_name: function_name.to_owned(),
                parameters,
            },
            source_type: source_type.to_owned(),
            target_type: target_type.to_owned(),
            cardinality,
            can_fail: true,
            cost,
        }
    }
}

impl Default for PathComplexity {
    /// Zero counts, zero score and no performance concerns.
    fn default() -> (r: Self)
        ensures
            r == spec_complexity_of(Seq::<NavigationSegment>::empty()),
    {
        let r = PathComplexity {
            segment_count: 0,
            depth: 0,
            choice_expansions: 0,
            function_calls: 0,
            complexity_score: 0,
            has_performance_concerns: false,
        };
        proof {
            assert(r == spec_complexity_of(Seq::<NavigationSegment>::empty()));
        }
        r
    }
}

impl PathComplexity {
    /// Check if complexity is high
    pub fn is_high_complexity(&self) -> (r: bool)
        ensures
            r == (self.complexity_score > 70),
    {
        self.complexity_score > 70
    }

    /// Check if path has many segments
    pub fn is_deep_path(&self) -> (r: bool)
        ensures
            r == (self.depth > 5),
    {
        self.depth > 5
    }
}

impl NavigationResult {
    /// Create successful navigation result: the given result type with
    /// default collection info and metadata and no findings of any kind.
    pub fn success(result_type: TypeReflectionInfo) -> (r: NavigationResult)
        ensures
            r.result_type == result_type,
            r.is_success,
            r.errors@.len() == 0,
            r.validation_results@.len() == 0,
            r.performance_hints@.len() == 0,
            spec_default_collection_info(r.collection_info),
            spec_default_navigation_metadata(r.navigation_metadata),
    {
        NavigationResult {
            result_type,
            collection_info: CollectionInfo::default(),
            navigation_metadata: NavigationMetadata::default(),
            validation_results: Vec::new(),
            performance_hints: Vec::new(),
            is_success: true,
            errors: Vec::new(),
        }
    }

    /// Create failed navigation result carrying the given errors as data;
    /// the result type is the unknown System type, and everything else is
    /// empty or defaulted.
    pub fn failure(errors: Vec<NavigationError>) -> (r: NavigationResult)
        ensures
            !r.is_success,
            r.errors == errors,
            (r.result_type matches TypeReflectionInfo::SimpleType { namespace: ns, name: n, base_type: b }
                && ns@ == "System"@ && n@ == "Unknown"@ && b is None),
            r.validation_results@.len() == 0,
            r.performance_hints@.len() == 0,
            spec_default_collection_info(r.collection_info),
            spec_default_navigation_metadata(r.navigation_metadata),
    {
        NavigationResult {
            result_type: TypeReflectionInfo::simple_type("System", "Unknown"),
            collection_info: CollectionInfo::default(),
            navigation_metadata: NavigationMetadata::default(),
            validation_results: Vec::new(),
            performance_hints: Vec::new(),
            is_success: false,
            errors,
        }
    }
}

impl PathValidation {
    /// Create a new, not yet validated path validation record.
    pub fn new(path: &str) -> (r: PathValidation)
        ensures
            r.path@ == path@,
            !r.is_valid,
            r.validation_errors@.len() == 0,
            r.validation_warnings@.len() == 0,
            r.suggested_corrections@.len() == 0,
            r.type_safety_analysis.safety_score == 100,
            r.performance_analysis.performance_score == 100,
    {
        PathValidation {
            path: path.to_owned(),
            is_valid: false,
            validation_errors: Vec::new(),
            validation_warnings: Vec::new(),
            suggested_corrections: Vec::new(),
            type_safety_analysis: TypeSafetyAnalysis::default(),
            performance_analysis: PerformanceAnalysis::default(),
        }
    }

    /// Create a successful path validation record.
    pub fn success(path: &str) -> (r: PathValidation)
        ensures
            r.path@ == path@,
            r.is_valid,
            r.validation_errors@.len() == 0,
            r.validation_warnings@.len() == 0,
            r.suggested_corrections@.len() == 0,
    {
        PathValidation {
            path: path.to_owned(),
            is_valid: true,
            validation_errors: Vec::new(),
            validation_warnings: Vec::new(),
            suggested_corrections: Vec::new(),
            type_safety_analysis: TypeSafetyAnalysis::default(),
            performance_analysis: PerformanceAnalysis::default(),
        }
    }

    /// Check if validation passed
    pub fn passed(&self) -> (r: bool)
        ensures
            r == (self.is_valid && self.validation_errors@.len() == 0),
    {
        self.is_valid && self.validation_errors.len() == 0
    }

    /// Get error count
    pub fn error_count(&self) -> (r: usize)
        ensures
            r == self.validation_errors@.len(),
    {
        self.validation_errors.len()
    }

    /// Get warning count
    pub fn warning_count(&self) -> (r: usize)
        ensures
            r == self.validation_warnings@.len(),
    {
        self.validation_warnings.len()
    }
}

impl Default for TypeSafetyAnalysis {
    /// No findings and a perfect safety score.
    fn default() -> (r: Self)
        ensures
            r.type_violations@.len() == 0,
            r.unsafe_operations@.len() == 0,
            r.recommended_casts@.len() == 0,
            r.safety_score == 100,
    {
        TypeSafetyAnalysis {
            type_violations: Vec::new(),
            unsafe_operations: Vec::new(),
            recommended_casts: Vec::new(),
            safety_score: 100,
        }
    }
}

impl TypeSafetyAnalysis {
    /// Check if analysis found issues
    pub fn has_issues(&self) -> (r: bool)
        ensures
            r == (self.type_violations@.len() > 0 || self.unsafe_operations@.len() > 0),
    {
        self.type_violations.len() > 0 || self.unsafe_operations.len() > 0
    }
}

impl Default for PerformanceAnalysis {
    /// A perfect performance score with baseline estimates.
    fn default() -> (r: Self)
        ensures
            r.performance_score == 100,
            r.estimated_time_ms == 1,
            r.estimated_memory_bytes == 1024,
            r.bottlenecks@.len() == 0,
            r.optimizations@.len() == 0,
    {
        PerformanceAnalysis {
            performance_score: 100,
            estimated_time_ms: 1,
            estimated_memory_bytes: 1024,
            bottlenecks: Vec::new(),
            optimizations: Vec::new(),
        }
    }
}

impl PerformanceAnalysis {
    /// Check if performance is good
    pub fn is_performant(&self) -> (r: bool)
        ensures
            r == (self.performance_score > 70),
    {
        self.performance_score > 70
    }
}

} // verus!
