//! Expression-level type analysis: type references, operations, issues,
//! the type dependency graph with direct-cycle detection and resolution
//! ordering, and type-checking results.
//!
//! Scores over the unit interval are held in hundredths (0 to 100).

use vstd::prelude::*;

use crate::navigation::{NavigationPath, OptimizationHint};
use crate::reflection::TypeReflectionInfo;
use crate::strutil::{
    lemma_push_unique, seq_has_str, sort_strings, str_eq, strs_sorted, strs_unique, vec_has_str,
};

verus! {

/// Comprehensive analysis of a path expression
#[derive(Debug, Clone)]
pub struct ExpressionTypeAnalysis {
    /// The expression being analyzed
    pub expression: String,
    /// All types referenced in the expression
    pub referenced_types: Vec<TypeReference>,
    /// Type operations performed in the expression
    pub type_operations: Vec<TypeOperation>,
    /// Navigation paths extracted from the expression
    pub navigation_paths: Vec<NavigationPath>,
    /// Potential issues identified during analysis
    pub potential_issues: Vec<TypeIssue>,
    /// Optimization opportunities for performance
    pub optimization_opportunities: Vec<OptimizationHint>,
    /// Overall complexity score of the expression, in hundredths
    pub complexity_score: u32,
    /// Expected result type after evaluation
    pub result_type: Option<TypeReflectionInfo>,
}

/// Reference to a type within an expression
#[derive(Debug, Clone)]
pub struct TypeReference {
    /// Name of the referenced type
    pub typename: String,
    /// Context in which the type is used
    pub usage_context: String,
    /// Whether the type reference is explicit or inferred
    pub is_explicit: bool,
    /// Confidence in the type reference, in hundredths
    pub confidence: u32,
    /// Location within the expression
    pub location: ExpressionLocation,
    /// Additional metadata about the reference, as key/value pairs
    pub metadata: Vec<(String, String)>,
}

/// Location within an expression
#[derive(Debug, Clone)]
pub struct ExpressionLocation {
    /// Start position in expression
    pub start: usize,
    /// End position in expression
    pub end: usize,
    /// Line number (for multiline expressions)
    pub line: Option<usize>,
    /// Column number
    pub column: Option<usize>,
}

/// Type operation within an expression
#[derive(Debug, Clone)]
pub struct TypeOperation {
    /// Type of operation being performed
    pub operation_type: TypeOperationType,
    /// Source type for the operation
    pub source_type: String,
    /// Target type (if applicable)
    pub target_type: Option<String>,
    /// Parameters for the operation
    pub parameters: Vec<TypeOperationParameter>,
    /// Location within the expression
    pub location: ExpressionLocation,
    /// Whether the operation is type-safe
    pub is_type_safe: bool,
}

/// Types of type operations
#[derive(Debug, Clone, PartialEq, Eq, Structural)]
pub enum TypeOperationType {
    /// Type casting (as)
    TypeCast,
    /// Type checking (is)
    TypeCheck,
    /// Type filtering (ofType)
    TypeFilter,
    /// Reference resolution (resolve)
    ReferenceResolution,
    /// Conformance checking (conforms)
    ConformanceCheck,
    /// Extension access
    ExtensionAccess,
    /// Choice type access
    ChoiceTypeAccess,
    /// Function invocation
    FunctionInvocation,
}

/// Parameter for a type operation
#[derive(Debug, Clone)]
pub struct TypeOperationParameter {
    /// Parameter name
    pub name: String,
    /// Parameter value
    pub value: String,
    /// Expected type for the parameter
    pub expected_type: String,
    /// Actual inferred type
    pub actual_type: Option<String>,
}

/// Issue identified during type analysis
#[derive(Debug, Clone)]
pub struct TypeIssue {
    /// Severity of the issue
    pub severity: IssueSeverity,
    /// Category of the issue
    pub category: IssueCategory,
    /// Human-readable description
    pub description: String,
    /// Location within the expression
    pub location: ExpressionLocation,
    /// Suggested resolution
    pub suggested_resolution: Option<String>,
    /// Impact on performance or correctness
    pub impact: ImpactLevel,
}

/// Severity levels for type issues
#[derive(Debug, Clone, PartialEq, Eq, Structural)]
pub enum IssueSeverity {
    /// Critical error - expression will fail
    Error,
    /// Warning - potential issue
    Warning,
    /// Information - for optimization
    Info,
}

/// Categories of type issues
#[derive(Debug, Clone, PartialEq, Eq, Structural)]
pub enum IssueCategory {
    /// Type mismatch
    TypeMismatch,
    /// Missing type information
    MissingType,
    /// Ambiguous type resolution
    AmbiguousType,
    /// Performance concern
    Performance,
    /// Deprecated usage
    Deprecation,
    /// Security concern
    Security,
}

/// Impact levels for issues
#[derive(Debug, Clone, PartialEq, Eq, Structural)]
pub enum ImpactLevel {
    /// High impact - significant performance or correctness issue
    High,
    /// Medium impact - moderate issue
    Medium,
    /// Low impact - minor issue
    Low,
}

/// Type dependency tracking for complex expressions
#[derive(Debug, Clone)]
pub struct TypeDependency {
    /// Source type in the dependency
    pub source_type: String,
    /// Target type that depends on source
    pub target_type: String,
    /// Kind of dependency relationship
    pub dependency_kind: DependencyKind,
    /// Strength of the dependency, in hundredths
    pub dependency_strength: u32,
    /// Context in which dependency occurs
    pub context: String,
    /// Whether dependency is required or optional
    pub is_required: bool,
}

/// Types of dependency relationships
#[derive(Debug, Clone, PartialEq, Eq, Structural)]
pub enum DependencyKind {
    /// Type inheritance relationship
    Inheritance,
    /// Composition relationship
    Composition,
    /// Reference relationship
    Reference,
    /// Extension relationship
    Extension,
    /// Choice type relationship
    ChoiceType,
    /// Function parameter relationship
    FunctionParameter,
    /// Constraint relationship
    Constraint,
}

/// Dependency graph for tracking type relationships
#[derive(Debug, Clone)]
pub struct DependencyGraph {
    /// All dependencies in the graph
    pub dependencies: Vec<TypeDependency>,
    /// Types involved in the graph
    pub involved_types: Vec<String>,
    /// Circular dependencies detected
    pub circular_dependencies: Vec<CircularDependency>,
    /// Optimized resolution order
    pub resolution_order: Vec<String>,
    /// Graph complexity metrics
    pub complexity_metrics: GraphComplexityMetrics,
}

/// Circular dependency in type graph
#[derive(Debug, Clone)]
pub struct CircularDependency {
    /// Types involved in the cycle
    pub cycle_types: Vec<String>,
    /// Cycle length
    pub cycle_length: usize,
    /// Severity of the circular dependency
    pub severity: IssueSeverity,
    /// Suggested resolution strategy
    pub resolution_strategy: String,
}

/// Metrics for dependency graph complexity
#[derive(Debug, Clone)]
pub struct GraphComplexityMetrics {
    /// Total number of nodes
    pub node_count: usize,
    /// Total number of edges
    pub edge_count: usize,
    /// Maximum depth of dependencies
    pub max_depth: usize,
    /// Average fan-out per node, in hundredths
    pub average_fan_out: u64,
    /// Graph density, in hundredths
    pub density: u64,
}

/// Comprehensive type checking result
#[derive(Debug, Clone)]
pub struct TypeCheckResult {
    /// Whether the expression passed type checking
    pub is_valid: bool,
    /// Type errors found during checking
    pub type_errors: Vec<TypeError>,
    /// Type warnings for potential issues
    pub type_warnings: Vec<TypeWarning>,
    /// Suggested fixes for issues
    pub suggested_fixes: Vec<TypeFix>,
    /// Overall confidence in the result, in hundredths
    pub confidence: u32,
    /// Type checking statistics
    pub statistics: TypeCheckStatistics,
}

/// Type error during checking
#[derive(Debug, Clone)]
pub struct TypeError {
    /// Kind of type error
    pub error_type: TypeErrorKind,
    /// Human-readable error message
    pub message: String,
    /// Location within the expression
    pub location: ExpressionLocation,
    /// Expected type
    pub expected_type: String,
    /// Actual type encountered
    pub actual_type: String,
    /// Additional context information, as key/value pairs
    pub context: Vec<(String, String)>,
}

/// Categories of type errors
#[derive(Debug, Clone, PartialEq, Eq, Structural)]
pub enum TypeErrorKind {
    /// Type mismatch between expected and actual
    TypeMismatch,
    /// Unknown or undefined type
    UnknownType,
    /// Invalid operation for type
    InvalidOperation,
    /// Missing required type information
    MissingTypeInfo,
    /// Circular type reference
    CircularReference,
    /// Constraint violation
    ConstraintViolation,
    /// Incompatible choice type usage
    IncompatibleChoiceType,
}

/// Type warning for potential issues
#[derive(Debug, Clone)]
pub struct TypeWarning {
    /// Kind of warning
    pub warning_type: TypeWarningKind,
    /// Warning message
    pub message: String,
    /// Location within the expression
    pub location: ExpressionLocation,
    /// Recommendation for addressing the warning
    pub recommendation: Option<String>,
    /// Potential impact if ignored
    pub potential_impact: ImpactLevel,
}

/// Categories of type warnings
#[derive(Debug, Clone, PartialEq, Eq, Structural)]
pub enum TypeWarningKind {
    /// Potentially inefficient operation
    Performance,
    /// Deprecated type usage
    Deprecation,
    /// Ambiguous type resolution
    Ambiguity,
    /// Unsafe type operation
    Safety,
    /// Missing best practice
    BestPractice,
}

/// Suggested fix for a type issue
#[derive(Debug, Clone)]
pub struct TypeFix {
    /// Description of the fix
    pub description: String,
    /// Type of fix being suggested
    pub fix_type: TypeFixKind,
    /// Location where fix should be applied
    pub location: ExpressionLocation,
    /// Replacement text for the fix
    pub replacement_text: String,
    /// Confidence in the fix, in hundredths
    pub confidence: u32,
    /// Whether the fix can be applied automatically
    pub is_automatic: bool,
}

/// Categories of type fixes
#[derive(Debug, Clone, PartialEq, Eq, Structural)]
pub enum TypeFixKind {
    /// Add explicit type cast
    AddTypeCast,
    /// Change operation type
    ChangeOperation,
    /// Add type constraint
    AddConstraint,
    /// Replace with equivalent expression
    ReplaceExpression,
    /// Add missing type information
    AddTypeInfo,
    /// Optimize for performance
    PerformanceOptimization,
}

/// Performance bottleneck identification
#[derive(Debug, Clone)]
pub struct PerformanceBottleneck {
    /// Type of bottleneck
    pub bottleneck_type: BottleneckType,
    /// Description of the issue
    pub description: String,
    /// Location within the expression
    pub location: ExpressionLocation,
    /// Severity of the bottleneck
    pub severity: ImpactLevel,
    /// Suggested mitigation
    pub mitigation: String,
}

/// Types of performance bottlenecks
#[derive(Debug, Clone, PartialEq, Eq, Structural)]
pub enum BottleneckType {
    /// Expensive type operation
    ExpensiveOperation,
    /// Inefficient navigation pattern
    InefficientNavigation,
    /// Redundant computation
    RedundantComputation,
    /// Memory intensive operation
    MemoryIntensive,
    /// Network-dependent operation
    NetworkDependent,
}

/// Statistics from type checking
#[derive(Debug, Clone)]
pub struct TypeCheckStatistics {
    /// Number of types analyzed
    pub types_analyzed: usize,
    /// Number of operations checked
    pub operations_checked: usize,
    /// Number of paths validated
    pub paths_validated: usize,
    /// Time taken for type checking, in milliseconds
    pub checking_time_ms: u64,
    /// Memory used during checking, in bytes
    pub memory_used_bytes: usize,
}

impl ExpressionTypeAnalysis {
    /// Create a new, empty expression analysis.
    pub fn new(expression: &str) -> (r: ExpressionTypeAnalysis)
        ensures
            r.expression@ == expression@,
            r.referenced_types@.len() == 0,
            r.type_operations@.len() == 0,
            r.navigation_paths@.len() == 0,
            r.potential_issues@.len() == 0,
            r.optimization_opportunities@.len() == 0,
            r.complexity_score == 0,
            r.result_type is None,
    {
        ExpressionTypeAnalysis {
            expression: expression.to_owned(),
            referenced_types: Vec::new(),
            type_operations: Vec::new(),
            navigation_paths: Vec::new(),
            potential_issues: Vec::new(),
            optimization_opportunities: Vec::new(),
            complexity_score: 0,
            result_type: None,
        }
    }

    /// Add a type reference to the analysis
    pub fn add_type_reference(self, reference: TypeReference) -> (r: ExpressionTypeAnalysis)
        ensures
            r.referenced_types@ == self.referenced_types@.push(reference),
            r == (ExpressionTypeAnalysis { referenced_types: r.referenced_types, ..self }),
    {
        let mut r = self;
        r.referenced_types.push(reference);
        r
    }

    /// Add a type operation to the analysis
    pub fn add_type_operation(self, operation: TypeOperation) -> (r: ExpressionTypeAnalysis)
        ensures
            r.type_operations@ == self.type_operations@.push(operation),
            r == (ExpressionTypeAnalysis { type_operations: r.type_operations, ..self }),
    {
        let mut r = self;
        r.type_operations.push(operation);
        r
    }

    /// The complexity score in hundredths: ten per referenced type, twenty
    /// per type operation, fifteen per navigation path and thirty per
    /// potential issue, capped at one hundred.
    pub open spec fn spec_complexity(self) -> u32 {
        let raw = 10 * self.referenced_types@.len() + 20 * self.type_operations@.len() + 15
            * self.navigation_paths@.len() + 30 * self.potential_issues@.len();
        if raw > 100 {
            100u32
        } else {
            raw as u32
        }
    }

    /// Calculate complexity score based on analysis
    pub fn calculate_complexity(&mut self)
        ensures
            final(self).complexity_score == old(self).spec_complexity(),
            *final(self) == (ExpressionTypeAnalysis {
                complexity_score: final(self).complexity_score,
                ..*old(self)
            }),
    {
        let t = self.referenced_types.len();
        let o = self.type_operations.len();
        let p = self.navigation_paths.len();
        let i = self.potential_issues.len();
        let tc: usize = if t > 10 {
            10
        } else {
            t
        };
        let oc: usize = if o > 5 {
            5
        } else {
            o
        };
        let pc: usize = if p > 7 {
            7
        } else {
            p
        };
        let ic: usize = if i > 4 {
            4
        } else {
            i
        };
        let raw: usize = 10 * tc + 20 * oc + 15 * pc + 30 * ic;
        let score: u32 = if raw > 100 {
            100
        } else {
            raw as u32
        };
        proof {
            assert(score == self.spec_complexity());
        }
        self.complexity_score = score;
    }

    /// Check if analysis indicates high complexity
    pub fn is_high_complexity(&self) -> (r: bool)
        ensures
            r == (self.complexity_score > 70),
    {
        self.complexity_score > 70
    }

    /// The issues of a given severity, in order.
    pub open spec fn spec_issues_of(s: Seq<TypeIssue>, sev: IssueSeverity) -> Seq<TypeIssue>
        decreases s.len(),
    {
        if s.len() == 0 {
            Seq::empty()
        } else {
            let rest = ExpressionTypeAnalysis::spec_issues_of(s.drop_last(), sev);
            if s.last().severity == sev {
                rest.push(s.last())
            } else {
                rest
            }
        }
    }

    /// Get all error-level issues, in order.
    pub fn get_error_issues(&self) -> (r: Vec<&TypeIssue>)
        ensures
            ({
                let expect = ExpressionTypeAnalysis::spec_issues_of(
                    self.potential_issues@,
                    IssueSeverity::Error,
                );
                r@.len() == expect.len() && forall|k: int|
                    0 <= k < r@.len() ==> *(#[trigger] r@[k]) == expect[k]
            }),
    {
        self.issues_of(IssueSeverity::Error)
    }

    /// Get all warning-level issues, in order.
    pub fn get_warning_issues(&self) -> (r: Vec<&TypeIssue>)
        ensures
            ({
                let expect = ExpressionTypeAnalysis::spec_issues_of(
                    self.potential_issues@,
                    IssueSeverity::Warning,
                );
                r@.len() == expect.len() && forall|k: int|
                    0 <= k < r@.len() ==> *(#[trigger] r@[k]) == expect[k]
            }),
    {
        self.issues_of(IssueSeverity::Warning)
    }

    /// The issues of one severity, in order.
    fn issues_of(&self, sev: IssueSeverity) -> (r: Vec<&TypeIssue>)
        ensures
            ({
                let expect = ExpressionTypeAnalysis::spec_issues_of(self.potential_issues@, sev);
                r@.len() == expect.len() && forall|k: int|
                    0 <= k < r@.len() ==> *(#[trigger] r@[k]) == expect[k]
            }),
    {
        let mut r: Vec<&TypeIssue> = Vec::new();
        let mut i: usize = 0;
        while i < self.potential_issues.len()
            invariant
                i <= self.potential_issues@.len(),
                ({
                    let expect = ExpressionTypeAnalysis::spec_issues_of(
                        self.potential_issues@.subrange(0, i as int),
                        sev,
                    );
                    r@.len() == expect.len() && forall|k: int|
                        0 <= k < r@.len() ==> *(#[trigger] r@[k]) == expect[k]
                }),
            decreases self.potential_issues@.len() - i,
        {
            let ghost pre = self.potential_issues@.subrange(0, i as int);
            let ghost post = self.potential_issues@.subrange(0, i as int + 1);
            proof {
                assert(post.drop_last() =~= pre);
                assert(post.last() == self.potential_issues@[i as int]);
            }
            if self.potential_issues[i].severity == sev {
                r.push(&self.potential_issues[i]);
            }
            i += 1;
        }
        proof {
            assert(self.potential_issues@.subrange(0, self.potential_issues@.len() as int)
                =~= self.potential_issues@);
        }
        r
    }
}

/// Whether the graph holds a direct edge from one type name to another.
pub open spec fn spec_has_edge(deps: Seq<TypeDependency>, from: Seq<char>, to: Seq<char>) -> bool {
    exists|j: int|
        0 <= j < deps.len() && (#[trigger] deps[j]).source_type@ == from && deps[j].target_type@
            == to
}

/// The ordered source/target pairs whose reverse edge is also present,
/// keeping only the first edge of each mutual pair.
pub open spec fn spec_direct_cycles(deps: Seq<TypeDependency>) -> Seq<(Seq<char>, Seq<char>)> {
    Seq::new(deps.len(), |i: int| i).filter(
        |i: int| spec_cycle_at(deps, i),
    ).map_values(|i: int| (deps[i].source_type@, deps[i].target_type@))
}

/// Edge `i` starts a newly found two-cycle: the reverse edge exists and no
/// earlier edge already reported the same pair in either direction.
pub open spec fn spec_cycle_at(deps: Seq<TypeDependency>, i: int) -> bool {
    &&& 0 <= i < deps.len()
    &&& spec_has_edge(deps, deps[i].target_type@, deps[i].source_type@)
    &&& forall|j: int|
        0 <= j < i ==> !((#[trigger] deps[j]).source_type@ == deps[i].target_type@
            && deps[j].target_type@ == deps[i].source_type@)
}

impl Default for DependencyGraph {
    /// The empty graph.
    fn default() -> (r: Self)
        ensures
            r.dependencies@.len() == 0,
            r.involved_types@.len() == 0,
            r.circular_dependencies@.len() == 0,
            r.resolution_order@.len() == 0,
            r.complexity_metrics.node_count == 0,
            r.complexity_metrics.edge_count == 0,
    {
        DependencyGraph::new()
    }
}

impl DependencyGraph {
    /// Create a new, empty dependency graph.
    pub fn new() -> (r: DependencyGraph)
        ensures
            r.dependencies@.len() == 0,
            r.involved_types@.len() == 0,
            r.circular_dependencies@.len() == 0,
            r.resolution_order@.len() == 0,
            r.complexity_metrics.node_count == 0,
            r.complexity_metrics.edge_count == 0,
            r.complexity_metrics.max_depth == 0,
            r.complexity_metrics.average_fan_out == 0,
            r.complexity_metrics.density == 0,
    {
        DependencyGraph {
            dependencies: Vec::new(),
            involved_types: Vec::new(),
            circular_dependencies: Vec::new(),
            resolution_order: Vec::new(),
            complexity_metrics: GraphComplexityMetrics {
                node_count: 0,
                edge_count: 0,
                max_depth: 0,
                average_fan_out: 0,
                density: 0,
            },
        }
    }

    /// The average fan-out in hundredths: one hundred times the edge count
    /// divided by the node count, zero for an empty graph, saturating.
    pub open spec fn spec_fan_out(nodes: nat, edges: nat) -> u64 {
        if nodes == 0 {
            0u64
        } else {
            let v = 100 * edges / nodes;
            if v > u64::MAX {
                u64::MAX
            } else {
                v as u64
            }
        }
    }

    /// The graph density in hundredths: one hundred times the edge count
    /// divided by the number of possible directed edges, zero when fewer
    /// than two nodes exist, saturating.
    pub open spec fn spec_density(nodes: nat, edges: nat) -> u64 {
        if nodes as int * (nodes as int - 1) == 0 {
            0u64
        } else {
            let v = 100 * edges as int / (nodes as int * (nodes as int - 1));
            if v > u64::MAX {
                u64::MAX
            } else {
                v as u64
            }
        }
    }

    /// Add a dependency: registers both endpoint types (once each), appends
    /// the edge and recomputes the metrics. A duplicate-free type list
    /// stays duplicate-free, so node registration is idempotent.
    pub fn add_dependency(self, dependency: TypeDependency) -> (r: DependencyGraph)
        ensures
            r.dependencies@ == self.dependencies@.push(dependency),
            seq_has_str(r.involved_types@, dependency.source_type@),
            seq_has_str(r.involved_types@, dependency.target_type@),
            forall|t: Seq<char>|
                seq_has_str(r.involved_types@, t) <==> (seq_has_str(self.involved_types@, t) || t
                    == dependency.source_type@ || t == dependency.target_type@),
            strs_unique(self.involved_types@) ==> strs_unique(r.involved_types@),
            r.circular_dependencies == self.circular_dependencies,
            r.resolution_order == self.resolution_order,
            r.complexity_metrics.node_count == r.involved_types@.len(),
            r.complexity_metrics.edge_count == r.dependencies@.len(),
            r.complexity_metrics.average_fan_out == DependencyGraph::spec_fan_out(
                r.involved_types@.len() as nat,
                r.dependencies@.len() as nat,
            ),
            r.complexity_metrics.density == DependencyGraph::spec_density(
                r.involved_types@.len() as nat,
                r.dependencies@.len() as nat,
            ),
            r.complexity_metrics.max_depth == self.complexity_metrics.max_depth,
    {
        let mut r = self;
        let ghost orig = r.involved_types@;
        if !vec_has_str(&r.involved_types, dependency.source_type.as_str()) {
            let owned = dependency.source_type.clone();
            proof {
                crate::strutil::lemma_push_has_str(r.involved_types@, owned);
                if strs_unique(r.involved_types@) {
                    lemma_push_unique(r.involved_types@, owned);
                }
            }
            r.involved_types.push(owned);
        }
        if !vec_has_str(&r.involved_types, dependency.target_type.as_str()) {
            let owned = dependency.target_type.clone();
            proof {
                crate::strutil::lemma_push_has_str(r.involved_types@, owned);
                if strs_unique(r.involved_types@) {
                    lemma_push_unique(r.involved_types@, owned);
                }
            }
            r.involved_types.push(owned);
        }
        r.dependencies.push(dependency);
        r.update_metrics();
        r
    }

    /// Whether a direct edge runs between the two type names.
    #[verifier::loop_isolation(false)]
    fn has_path(&self, from: &str, to: &str) -> (r: bool)
        ensures
            r == spec_has_edge(self.dependencies@, from@, to@),
    {
        let mut j: usize = 0;
        while j < self.dependencies.len()
            invariant
                j <= self.dependencies@.len(),
                forall|k: int|
                    0 <= k < j ==> !((#[trigger] self.dependencies@[k]).source_type@ == from@
                        && self.dependencies@[k].target_type@ == to@),
            decreases self.dependencies@.len() - j,
        {
            if str_eq(self.dependencies[j].source_type.as_str(), from) && str_eq(
                self.dependencies[j].target_type.as_str(),
                to,
            ) {
                return true;
            }
            j += 1;
        }
        false
    }

    /// Detect direct two-cycles: every pair of types joined by edges in both
    /// directions yields exactly one recorded cycle of length two, holding
    /// the two type names.
    #[verifier::loop_isolation(false)]
    pub fn detect_cycles(&mut self)
        ensures
            final(self).dependencies == old(self).dependencies,
            final(self).involved_types == old(self).involved_types,
            final(self).resolution_order == old(self).resolution_order,
            final(self).complexity_metrics == old(self).complexity_metrics,
            ({
                let cs = spec_direct_cycles(final(self).dependencies@);
                &&& final(self).circular_dependencies@.len() == cs.len()
                &&& forall|k: int|
                    0 <= k < cs.len() ==> {
                        let c = #[trigger] final(self).circular_dependencies@[k];
                        &&& c.cycle_types@.len() == 2
                        &&& c.cycle_types@[0]@ == cs[k].0
                        &&& c.cycle_types@[1]@ == cs[k].1
                        &&& c.cycle_length == 2
                        &&& c.severity == IssueSeverity::Warning
                        &&& c.resolution_strategy@
                            == "Consider breaking the cycle with abstraction"@
                    }
            }),
    {
        let mut cycles: Vec<CircularDependency> = Vec::new();
        let mut i: usize = 0;
        while i < self.dependencies.len()
            invariant
                i <= self.dependencies@.len(),
                ({
                    let cs = spec_direct_cycles_upto(self.dependencies@, i as int);
                    &&& cycles@.len() == cs.len()
                    &&& forall|k: int|
                        0 <= k < cs.len() ==> {
                            let c = #[trigger] cycles@[k];
                            &&& c.cycle_types@.len() == 2
                            &&& c.cycle_types@[0]@ == cs[k].0
                            &&& c.cycle_types@[1]@ == cs[k].1
                            &&& c.cycle_length == 2
                            &&& c.severity == IssueSeverity::Warning
                            &&& c.resolution_strategy@
                                == "Consider breaking the cycle with abstraction"@
                        }
                }),
            decreases self.dependencies@.len() - i,
        {
            let reverse_exists = self.has_path(
                self.dependencies[i].target_type.as_str(),
                self.dependencies[i].source_type.as_str(),
            );
            let mut seen_before = false;
            let mut j: usize = 0;
            while j < i
                invariant
                    j <= i,
                    i < self.dependencies@.len(),
                    seen_before == exists|k: int|
                        0 <= k < j && (#[trigger] self.dependencies@[k]).source_type@
                            == self.dependencies@[i as int].target_type@
                            && self.dependencies@[k].target_type@
                            == self.dependencies@[i as int].source_type@,
                decreases i - j,
            {
                if str_eq(
                    self.dependencies[j].source_type.as_str(),
                    self.dependencies[i].target_type.as_str(),
                ) && str_eq(
                    self.dependencies[j].target_type.as_str(),
                    self.dependencies[i].source_type.as_str(),
                ) {
                    seen_before = true;
                }
                j += 1;
            }
            proof {
                lemma_direct_cycles_step(self.dependencies@, i as int);
            }
            if reverse_exists && !seen_before {
                let mut ct: Vec<String> = Vec::new();
                ct.push(self.dependencies[i].source_type.clone());
                ct.push(self.dependencies[i].target_type.clone());
                cycles.push(
                    CircularDependency {
                        cycle_types: ct,
                        cycle_length: 2,
                        severity: IssueSeverity::Warning,
                        resolution_strategy: "Consider breaking the cycle with abstraction"
                            .to_owned(),
                    },
                );
            }
            i += 1;
        }
        proof {
            lemma_direct_cycles_full(self.dependencies@);
        }
        self.circular_dependencies = cycles;
    }

    /// Compute the resolution order as the involved types in lexicographic
    /// order: the same names, sorted.
    pub fn compute_resolution_order(&mut self)
        ensures
            final(self).dependencies == old(self).dependencies,
            final(self).involved_types == old(self).involved_types,
            final(self).circular_dependencies == old(self).circular_dependencies,
            final(self).complexity_metrics == old(self).complexity_metrics,
            final(self).resolution_order@.to_multiset() == old(self).involved_types@.to_multiset(),
            strs_sorted(final(self).resolution_order@),
    {
        self.resolution_order = sort_strings(&self.involved_types);
    }

    /// Recompute node and edge counts, fan-out and density.
    fn update_metrics(&mut self)
        ensures
            *final(self) == (DependencyGraph { complexity_metrics: final(self).complexity_metrics, ..*old(self) }),
            final(self).complexity_metrics.node_count == final(self).involved_types@.len(),
            final(self).complexity_metrics.edge_count == final(self).dependencies@.len(),
            final(self).complexity_metrics.average_fan_out == DependencyGraph::spec_fan_out(
                final(self).involved_types@.len() as nat,
                final(self).dependencies@.len() as nat,
            ),
            final(self).complexity_metrics.density == DependencyGraph::spec_density(
                final(self).involved_types@.len() as nat,
                final(self).dependencies@.len() as nat,
            ),
            final(self).complexity_metrics.max_depth == old(self).complexity_metrics.max_depth,
    {
        let nodes = self.involved_types.len();
        let edges = self.dependencies.len();
        let fan_out: u64 = if nodes == 0 {
            0
        } else {
            let v = (100u128 * edges as u128) / (nodes as u128);
            if v > u64::MAX as u128 {
                u64::MAX
            } else {
                v as u64
            }
        };
        let density: u64 = if nodes == 0 || nodes == 1 {
            0
        } else {
            proof {
                let n128 = nodes as u128;
                assert(n128 * (n128 - 1) <= u128::MAX && n128 * (n128 - 1) >= 2) by (nonlinear_arith)
                    requires
                        2 <= n128,
                        n128 < 0x1_0000_0000_0000_0000u128,
                ;
            }
            let denom = (nodes as u128) * ((nodes - 1) as u128);
            let v = (100u128 * edges as u128) / denom;
            if v > u64::MAX as u128 {
                u64::MAX
            } else {
                v as u64
            }
        };
        proof {
            assert(fan_out == DependencyGraph::spec_fan_out(
                self.involved_types@.len() as nat,
                self.dependencies@.len() as nat,
            ));
            assert(density == DependencyGraph::spec_density(
                self.involved_types@.len() as nat,
                self.dependencies@.len() as nat,
            ));
        }
        self.complexity_metrics = GraphComplexityMetrics {
            node_count: nodes,
            edge_count: edges,
            max_depth: self.complexity_metrics.max_depth,
            average_fan_out: fan_out,
            density,
        };
    }
}

/// The direct cycles found among the first `n` edges.
pub open spec fn spec_direct_cycles_upto(deps: Seq<TypeDependency>, n: int) -> Seq<
    (Seq<char>, Seq<char>),
> {
    Seq::new(if n < 0 { 0nat } else if n > deps.len() { deps.len() } else { n as nat }, |i: int| i)
        .filter(|i: int| spec_cycle_at(deps, i)).map_values(
        |i: int| (deps[i].source_type@, deps[i].target_type@),
    )
}

/// Extending the scan by one edge appends that edge's cycle record exactly
/// when the edge starts a newly found two-cycle.
proof fn lemma_direct_cycles_step(deps: Seq<TypeDependency>, i: int)
    requires
        0 <= i < deps.len(),
    ensures
        spec_cycle_at(deps, i) ==> spec_direct_cycles_upto(deps, i + 1) == spec_direct_cycles_upto(
            deps,
            i,
        ).push((deps[i].source_type@, deps[i].target_type@)),
        !spec_cycle_at(deps, i) ==> spec_direct_cycles_upto(deps, i + 1)
            == spec_direct_cycles_upto(deps, i),
{
    let idx_i = Seq::new(i as nat, |k: int| k);
    let idx_i1 = Seq::new((i + 1) as nat, |k: int| k);
    assert(idx_i1.drop_last() =~= idx_i);
    assert(idx_i1.last() == i);
    reveal_with_fuel(Seq::filter, 2);
    assert(idx_i1.filter(|k: int| spec_cycle_at(deps, k)) == if spec_cycle_at(deps, i) {
        idx_i.filter(|k: int| spec_cycle_at(deps, k)).push(i)
    } else {
        idx_i.filter(|k: int| spec_cycle_at(deps, k))
    });
    if spec_cycle_at(deps, i) {
        assert(spec_direct_cycles_upto(deps, i + 1) =~= spec_direct_cycles_upto(deps, i).push(
            (deps[i].source_type@, deps[i].target_type@),
        ));
    } else {
        assert(spec_direct_cycles_upto(deps, i + 1) =~= spec_direct_cycles_upto(deps, i));
    }
}

/// Scanning every edge gives the full cycle list.
proof fn lemma_direct_cycles_full(deps: Seq<TypeDependency>)
    ensures
        spec_direct_cycles_upto(deps, deps.len() as int) == spec_direct_cycles(deps),
{
    assert(spec_direct_cycles_upto(deps, deps.len() as int) =~= spec_direct_cycles(deps));
}

impl TypeCheckResult {
    /// Create a successful type check result with full confidence.
    pub fn success() -> (r: TypeCheckResult)
        ensures
            r.is_valid,
            r.type_errors@.len() == 0,
            r.type_warnings@.len() == 0,
            r.suggested_fixes@.len() == 0,
            r.confidence == 100,
    {
        TypeCheckResult {
            is_valid: true,
            type_errors: Vec::new(),
            type_warnings: Vec::new(),
            suggested_fixes: Vec::new(),
            confidence: 100,
            statistics: TypeCheckStatistics::default(),
        }
    }

    /// Create a failed type check result with zero confidence.
    pub fn failure(errors: Vec<TypeError>) -> (r: TypeCheckResult)
        ensures
            !r.is_valid,
            r.type_errors == errors,
            r.type_warnings@.len() == 0,
            r.suggested_fixes@.len() == 0,
            r.confidence == 0,
    {
        TypeCheckResult {
            is_valid: false,
            type_errors: errors,
            type_warnings: Vec::new(),
            suggested_fixes: Vec::new(),
            confidence: 0,
            statistics: TypeCheckStatistics::default(),
        }
    }

    /// Add a type error; the result is no longer valid.
    pub fn add_error(self, error: TypeError) -> (r: TypeCheckResult)
        ensures
            r.type_errors@ == self.type_errors@.push(error),
            !r.is_valid,
            r.type_warnings == self.type_warnings,
            r.suggested_fixes == self.suggested_fixes,
            r.confidence == self.confidence,
            r.statistics == self.statistics,
    {
        let mut r = self;
        r.type_errors.push(error);
        r.is_valid = false;
        r
    }

    /// Add a type warning
    pub fn add_warning(self, warning: TypeWarning) -> (r: TypeCheckResult)
        ensures
            r.type_warnings@ == self.type_warnings@.push(warning),
            r == (TypeCheckResult { type_warnings: r.type_warnings, ..self }),
    {
        let mut r = self;
        r.type_warnings.push(warning);
        r
    }

    /// Check if result has any issues
    pub fn has_issues(&self) -> (r: bool)
        ensures
            r == (self.type_errors@.len() > 0 || self.type_warnings@.len() > 0),
    {
        self.type_errors.len() > 0 || self.type_warnings.len() > 0
    }

    /// The severity of the worst recorded issue, if any: errors outrank
    /// warnings.
    pub fn worst_issue_severity(&self) -> (r: Option<IssueSeverity>)
        ensures
            self.type_errors@.len() > 0 ==> r == Some(IssueSeverity::Error),
            self.type_errors@.len() == 0 && self.type_warnings@.len() > 0 ==> r == Some(
                IssueSeverity::Warning,
            ),
            self.type_errors@.len() == 0 && self.type_warnings@.len() == 0 ==> r is None,
    {
        if self.type_errors.len() > 0 {
            Some(IssueSeverity::Error)
        } else if self.type_warnings.len() > 0 {
            Some(IssueSeverity::Warning)
        } else {
            None
        }
    }
}

impl Default for TypeCheckStatistics {
    /// All counters and times at zero.
    fn default() -> (r: Self)
        ensures
            r.types_analyzed == 0,
            r.operations_checked == 0,
            r.paths_validated == 0,
            r.checking_time_ms == 0,
            r.memory_used_bytes == 0,
    {
        TypeCheckStatistics {
            types_analyzed: 0,
            operations_checked: 0,
            paths_validated: 0,
            checking_time_ms: 0,
            memory_used_bytes: 0,
        }
    }
}

} // verus!
