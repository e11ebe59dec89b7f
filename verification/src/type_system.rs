//! Type-system abstractions: inheritance hierarchies, conversion metadata,
//! polymorphic-resolution contexts and collection semantics.
//!
//! Scores and costs that range over the unit interval are held in hundredths
//! (0 to 100) throughout.

use vstd::prelude::*;

use crate::strutil::{
    lemma_push_has_str, lemma_views_has, seq_first_str, seq_has_str, seqs_has, str_eq, vec_has_str,
    vec_find_str, views_of,
};

verus! {

/// Type hierarchy with complete inheritance chain information
#[derive(Debug, Clone)]
pub struct TypeHierarchy {
    /// The type name this hierarchy describes
    pub typename: String,
    /// All ancestor types up to the root (ordered from immediate parent to root)
    pub ancestors: Vec<String>,
    /// All descendant types (all children and their descendants)
    pub descendants: Vec<String>,
    /// Immediate parent type (if any)
    pub direct_parent: Option<String>,
    /// Immediate child types
    pub direct_children: Vec<String>,
    /// Whether this is an abstract type
    pub is_abstract: bool,
    /// Type derivation method
    pub derivation: DerivationType,
    /// Depth in the type hierarchy (0 = root)
    pub hierarchy_depth: u32,
}

/// Type derivation methods
#[derive(Debug, Clone, PartialEq, Eq, Structural)]
pub enum DerivationType {
    /// Type specialization (adding new elements)
    Specialization,
    /// Constraint application (restricting existing elements)
    Constraint,
    /// Extension (adding extensions)
    Extension,
}

/// Information about a type conversion
#[derive(Debug, Clone)]
pub struct ConversionInfo {
    /// Type of conversion
    pub conversion_type: ConversionType,
    /// Function name if function-based conversion
    pub conversion_function: Option<String>,
    /// Whether data loss is possible during conversion
    pub data_loss_possible: bool,
    /// Additional validation rules that apply
    pub validation_rules: Vec<ValidationRule>,
    /// Performance cost of this conversion in hundredths (0 = free, 100 = expensive)
    pub performance_cost: u32,
}

/// Types of conversions between types
#[derive(Debug, Clone, PartialEq, Eq, Structural)]
pub enum ConversionType {
    /// Automatic conversion with no data loss (Integer -> Decimal)
    Implicit,
    /// Explicit cast required, may have data loss (String -> Integer)
    Explicit,
    /// Requires function call (toString(), toDecimal())
    Function,
    /// Conversion not allowed
    Forbidden,
    /// Conversion requires validation
    Conditional,
}

/// Function-based conversion definition
#[derive(Debug, Clone)]
pub struct ConversionFunction {
    /// Function name (e.g., "toString", "toInteger")
    pub function_name: String,
    /// Target type this function converts to
    pub target_type: String,
    /// Whether the function can fail
    pub can_fail: bool,
    /// Validation requirements
    pub validation_requirements: Vec<String>,
}

/// Validation rule for type operations
#[derive(Debug, Clone)]
pub struct ValidationRule {
    /// Rule identifier
    pub rule_id: String,
    /// Human-readable description
    pub description: String,
    /// Path expression to validate
    pub validation_expression: Option<String>,
    /// Error message if validation fails
    pub error_message: String,
}

/// Context for polymorphic type resolution
#[derive(Debug, Clone)]
pub struct PolymorphicContext {
    /// Current navigation path
    pub current_path: String,
    /// Base type being navigated from
    pub base_type: String,
    /// Types available in this polymorphic context
    pub available_types: Vec<String>,
    /// Context-specific constraints
    pub constraints: Vec<TypeConstraint>,
    /// Hints for type inference
    pub inference_hints: Vec<InferenceHint>,
    /// Strategy for resolving ambiguous types
    pub resolution_strategy: ResolutionStrategy,
    /// Additional context metadata as key/value pairs
    pub metadata: Vec<(String, String)>,
}

/// Type constraint for polymorphic resolution
#[derive(Debug, Clone)]
pub struct TypeConstraint {
    /// Constraint identifier
    pub constraint_id: String,
    /// Types this constraint applies to
    pub applicable_types: Vec<String>,
    /// Constraint expression
    pub constraint_expression: String,
    /// Constraint severity
    pub severity: ConstraintSeverity,
}

/// Hint for type inference
#[derive(Debug, Clone)]
pub struct InferenceHint {
    /// Hint type
    pub hint_type: InferenceHintType,
    /// Suggested type
    pub suggested_type: String,
    /// Confidence score in hundredths (0 to 100)
    pub confidence: u32,
    /// Reasoning for this hint
    pub reasoning: String,
}

/// Types of inference hints
#[derive(Debug, Clone, PartialEq, Eq, Structural)]
pub enum InferenceHintType {
    /// Based on usage statistics
    Statistical,
    /// Based on context analysis
    Contextual,
    /// Based on type constraints
    Constraint,
    /// User-provided hint
    UserProvided,
    /// Based on default type rules
    Default,
}

/// Strategy for resolving polymorphic types
#[derive(Debug, Clone, PartialEq, Eq, Structural)]
pub enum ResolutionStrategy {
    /// Use first matching type
    FirstMatch,
    /// Use most specific type in hierarchy
    MostSpecific,
    /// Use statistically most common type
    MostCommon,
    /// Infer type from usage context
    ContextInferred,
    /// Require explicit type specification
    ExplicitOnly,
    /// Use confidence-based selection
    ConfidenceBased,
}

/// Severity levels for constraints
#[derive(Debug, Clone, PartialEq, Eq, Structural)]
pub enum ConstraintSeverity {
    /// Must be satisfied
    Error,
    /// Should be satisfied
    Warning,
    /// For information only
    Information,
}

/// Metadata preserved during navigation
#[derive(Debug, Clone)]
pub struct NavigationMetadata {
    /// Full navigation path
    pub path: String,
    /// Source type at start of navigation
    pub source_type: String,
    /// Target type at end of navigation
    pub target_type: String,
    /// All intermediate types during navigation
    pub intermediate_types: Vec<String>,
    /// Collection information
    pub collection_info: CollectionInfo,
    /// Polymorphic resolution information
    pub polymorphic_resolution: Option<PolymorphicResolution>,
    /// Navigation warnings
    pub navigation_warnings: Vec<NavigationWarning>,
    /// Performance metadata
    pub performance_metadata: PerformanceMetadata,
}

/// Information about collection behavior
#[derive(Debug, Clone)]
pub struct CollectionInfo {
    /// Whether result is a collection
    pub is_collection: bool,
    /// Type of elements in the collection
    pub element_type: String,
    /// Cardinality constraints
    pub cardinality: Cardinality,
    /// Collection behavior semantics
    pub collection_semantics: CollectionSemantics,
}

/// Cardinality specification
#[derive(Debug, Clone, PartialEq, Eq, Structural)]
pub struct Cardinality {
    /// Minimum number of elements
    pub min: u32,
    /// Maximum number of elements (None = unbounded)
    pub max: Option<u32>,
}

/// Collection behavior semantics
#[derive(Debug, Clone)]
pub struct CollectionSemantics {
    /// Whether collections maintain order
    pub is_ordered: bool,
    /// Whether duplicates are allowed
    pub allows_duplicates: bool,
    /// Indexing behavior
    pub indexing_type: IndexingType,
    /// Behavior for empty collections
    pub empty_behavior: EmptyBehavior,
    /// Singleton evaluation rules
    pub singleton_evaluation: SingletonEvaluation,
}

/// Collection indexing types
#[derive(Debug, Clone, PartialEq, Eq, Structural)]
pub enum IndexingType {
    /// 0-based indexing
    ZeroBased,
    /// 1-based indexing
    OneBased,
    /// Collection cannot be indexed
    NotIndexable,
}

/// Empty collection behavior
#[derive(Debug, Clone, PartialEq, Eq, Structural)]
pub enum EmptyBehavior {
    /// Empty collections propagate through operations
    Propagate,
    /// Empty collections are treated as null
    TreatAsNull,
    /// Empty collections cause errors
    Error,
}

/// Singleton evaluation rules
#[derive(Debug, Clone, PartialEq, Eq, Structural)]
pub enum SingletonEvaluation {
    /// Automatically unwrap single-item collections
    Automatic,
    /// Require explicit single() function call
    Explicit,
    /// Never unwrap collections
    Forbidden,
}

/// Result of polymorphic type resolution
#[derive(Debug, Clone)]
pub struct PolymorphicResolution {
    /// The resolved type
    pub resolved_type: String,
    /// Confidence score for this resolution in hundredths (0 to 100)
    pub confidence_score: u32,
    /// Method used for resolution
    pub resolution_method: ResolutionMethod,
    /// Alternative types that were considered
    pub alternative_types: Vec<AlternativeType>,
    /// Context used for resolution
    pub resolution_context: PolymorphicContext,
}

/// Method used for polymorphic resolution
#[derive(Debug, Clone, PartialEq, Eq, Structural)]
pub enum ResolutionMethod {
    /// Type was explicitly specified
    ExplicitType,
    /// Inferred from usage context
    ContextInference,
    /// Based on statistical analysis
    StatisticalAnalysis,
    /// Used default/fallback type
    DefaultFallback,
    /// Based on user preferences
    UserPreference,
}

/// Alternative type considered during resolution
#[derive(Debug, Clone)]
pub struct AlternativeType {
    /// Alternative type name
    pub typename: String,
    /// Confidence score for this alternative in hundredths (0 to 100)
    pub confidence: u32,
    /// Reason this type was considered
    pub reasoning: String,
}

/// Warning during navigation
#[derive(Debug, Clone)]
pub struct NavigationWarning {
    /// Warning type
    pub warning_type: NavigationWarningType,
    /// Warning message
    pub message: String,
    /// Path where warning occurred
    pub path: String,
    /// Suggested resolution
    pub suggestion: Option<String>,
}

/// Types of navigation warnings
#[derive(Debug, Clone, PartialEq, Eq, Structural)]
pub enum NavigationWarningType {
    /// Type safety concern
    TypeSafety,
    /// Performance concern
    Performance,
    /// Deprecated element usage
    Deprecated,
    /// Ambiguous type resolution
    AmbiguousType,
    /// Potential null reference
    NullReference,
}

/// Performance metadata for operations
#[derive(Debug, Clone)]
pub struct PerformanceMetadata {
    /// Estimated operation cost in hundredths (relative scale)
    pub operation_cost: u32,
    /// Whether result can be cached
    pub is_cacheable: bool,
    /// Cache key if cacheable
    pub cache_key: Option<String>,
    /// Memory usage estimate in bytes
    pub memory_estimate: Option<usize>,
}

impl TypeHierarchy {
    /// Create a new type hierarchy with no recorded relations.
    pub fn new(typename: &str) -> (r: TypeHierarchy)
        ensures
            r.typename@ == typename@,
            r.ancestors@ =~= Seq::<String>::empty(),
            r.descendants@ =~= Seq::<String>::empty(),
            r.direct_parent is None,
            r.direct_children@ =~= Seq::<String>::empty(),
            !r.is_abstract,
            r.derivation == DerivationType::Specialization,
            r.hierarchy_depth == 0,
    {
        TypeHierarchy {
            typename: typename.to_owned(),
            ancestors: Vec::new(),
            descendants: Vec::new(),
            direct_parent: None,
            direct_children: Vec::new(),
            is_abstract: false,
            derivation: DerivationType::Specialization,
            hierarchy_depth: 0,
        }
    }

    /// Check if this type is an ancestor of another type
    pub fn is_ancestor_of(&self, other_type: &str) -> (r: bool)
        ensures
            r == seq_has_str(self.descendants@, other_type@),
    {
        vec_has_str(&self.descendants, other_type)
    }

    /// Check if this type is a descendant of another type
    pub fn is_descendant_of(&self, other_type: &str) -> (r: bool)
        ensures
            r == seq_has_str(self.ancestors@, other_type@),
    {
        vec_has_str(&self.ancestors, other_type)
    }

    /// Get the nearest ancestor of this type that the other hierarchy also
    /// lists among its ancestors.
    pub fn common_ancestor(&self, other: &TypeHierarchy) -> (r: Option<String>)
        ensures
            match r {
                Some(a) => exists|i: int|
                    0 <= i < self.ancestors@.len() && #[trigger] self.ancestors@[i]@ == a@
                        && seq_has_str(other.ancestors@, a@) && forall|j: int|
                        0 <= j < i ==> !seq_has_str(other.ancestors@, #[trigger] self.ancestors@[j]@),
                None => forall|i: int|
                    0 <= i < self.ancestors@.len() ==> !seq_has_str(
                        other.ancestors@,
                        #[trigger] self.ancestors@[i]@,
                    ),
            },
    {
        let mut i: usize = 0;
        while i < self.ancestors.len()
            invariant
                i <= self.ancestors@.len(),
                forall|j: int|
                    0 <= j < i ==> !seq_has_str(other.ancestors@, #[trigger] self.ancestors@[j]@),
            decreases self.ancestors@.len() - i,
        {
            if vec_has_str(&other.ancestors, self.ancestors[i].as_str()) {
                let a = self.ancestors[i].clone();
                proof {
                    assert(self.ancestors@[i as int]@ == a@);
                }
                return Some(a);
            }
            i += 1;
        }
        None
    }

    /// Distance from this type to the target: 0 for the type itself, the
    /// position (nearest first) plus one within the ancestor or descendant
    /// list, or absent when the target is unrelated.
    pub open spec fn spec_type_distance(self, target: Seq<char>) -> Option<int> {
        if self.typename@ == target {
            Some(0int)
        } else if seq_has_str(self.ancestors@, target) {
            Some(seq_first_str(self.ancestors@, target) + 1)
        } else if seq_has_str(self.descendants@, target) {
            Some(seq_first_str(self.descendants@, target) + 1)
        } else {
            None
        }
    }

    /// Calculate type distance (for type compatibility scoring)
    pub fn type_distance(&self, target_type: &str) -> (r: Option<usize>)
        ensures
            match (r, self.spec_type_distance(target_type@)) {
                (Some(a), Some(b)) => a == b,
                (None, None) => true,
                _ => false,
            },
    {
        if str_eq(self.typename.as_str(), target_type) {
            return Some(0);
        }
        if let Some(pos) = vec_find_str(&self.ancestors, target_type) {
            let n = self.ancestors.len();
            assert(pos < n);
            return Some(pos + 1);
        }
        if let Some(pos) = vec_find_str(&self.descendants, target_type) {
            let n = self.descendants.len();
            assert(pos < n);
            return Some(pos + 1);
        }
        None
    }
}

impl Cardinality {
    /// Create cardinality with min and max
    pub fn new(min: u32, max: Option<u32>) -> (r: Cardinality)
        ensures
            r == (Cardinality { min, max }),
    {
        Cardinality { min, max }
    }

    /// Create required cardinality (1..1)
    pub fn required() -> (r: Cardinality)
        ensures
            r == (Cardinality { min: 1u32, max: Some(1u32) }),
    {
        Cardinality::new(1, Some(1))
    }

    /// Create optional cardinality (0..1)
    pub fn optional() -> (r: Cardinality)
        ensures
            r == (Cardinality { min: 0u32, max: Some(1u32) }),
    {
        Cardinality::new(0, Some(1))
    }

    /// Create multiple cardinality (0..*)
    pub fn multiple() -> (r: Cardinality)
        ensures
            r == (Cardinality { min: 0u32, max: None }),
    {
        Cardinality::new(0, None)
    }

    /// Create required multiple cardinality (1..*)
    pub fn required_multiple() -> (r: Cardinality)
        ensures
            r == (Cardinality { min: 1u32, max: None }),
    {
        Cardinality::new(1, None)
    }

    /// Check if this cardinality is required
    pub fn is_required(&self) -> (r: bool)
        ensures
            r == (self.min > 0),
    {
        self.min > 0
    }

    /// Check if this cardinality allows multiple values
    pub fn is_multiple(&self) -> (r: bool)
        ensures
            r == match self.max {
                Some(m) => m > 1,
                None => true,
            },
    {
        match self.max {
            Some(m) => m > 1,
            None => true,
        }
    }

    /// Check if a count satisfies this cardinality
    pub fn satisfies(&self, count: u32) -> (r: bool)
        ensures
            r == (count >= self.min && match self.max {
                Some(m) => count <= m,
                None => true,
            }),
    {
        count >= self.min && match self.max {
            Some(m) => count <= m,
            None => true,
        }
    }
}

/// The default collection semantics: ordered, duplicate-keeping and
/// zero-based, with propagating empties and automatic singleton evaluation.
pub open spec fn spec_default_collection_semantics(s: CollectionSemantics) -> bool {
    &&& s.is_ordered
    &&& s.allows_duplicates
    &&& s.indexing_type == IndexingType::ZeroBased
    &&& s.empty_behavior == EmptyBehavior::Propagate
    &&& s.singleton_evaluation == SingletonEvaluation::Automatic
}

/// The default collection record: a non-collection of unknown element type
/// with optional cardinality and the default semantics.
pub open spec fn spec_default_collection_info(c: CollectionInfo) -> bool {
    &&& !c.is_collection
    &&& c.element_type@ == "Unknown"@
    &&& c.cardinality == (Cardinality { min: 0u32, max: Some(1u32) })
    &&& spec_default_collection_semantics(c.collection_semantics)
}

/// The default navigation metadata: empty paths and types, the default
/// collection record, no resolution, no warnings, and cost-free
/// performance metadata.
pub open spec fn spec_default_navigation_metadata(m: NavigationMetadata) -> bool {
    &&& m.path@ == Seq::<char>::empty()
    &&& m.source_type@ == Seq::<char>::empty()
    &&& m.target_type@ == Seq::<char>::empty()
    &&& m.intermediate_types@.len() == 0
    &&& spec_default_collection_info(m.collection_info)
    &&& m.polymorphic_resolution is None
    &&& m.navigation_warnings@.len() == 0
    &&& m.performance_metadata.operation_cost == 0
    &&& !m.performance_metadata.is_cacheable
    &&& m.performance_metadata.cache_key is None
    &&& m.performance_metadata.memory_estimate == Some(0usize)
}

impl Default for CollectionInfo {
    /// A non-collection of unknown element type with optional cardinality
    /// and the default collection semantics.
    fn default() -> (r: Self)
        ensures
            spec_default_collection_info(r),
    {
        CollectionInfo {
            is_collection: false,
            element_type: "Unknown".to_owned(),
            cardinality: Cardinality::optional(),
            collection_semantics: CollectionSemantics::default(),
        }
    }
}

impl Default for CollectionSemantics {
    /// Ordered, duplicate-keeping, zero-based semantics with propagating
    /// empties and automatic singleton evaluation.
    fn default() -> (r: Self)
        ensures
            spec_default_collection_semantics(r),
    {
        CollectionSemantics {
            is_ordered: true,
            allows_duplicates: true,
            indexing_type: IndexingType::ZeroBased,
            empty_behavior: EmptyBehavior::Propagate,
            singleton_evaluation: SingletonEvaluation::Automatic,
        }
    }
}

impl Default for NavigationMetadata {
    /// Empty paths and types, default collection info, no resolution,
    /// no warnings, and cost-free performance metadata.
    fn default() -> (r: Self)
        ensures
            spec_default_navigation_metadata(r),
    {
        NavigationMetadata {
            path: String::new(),
            source_type: String::new(),
            target_type: String::new(),
            intermediate_types: Vec::new(),
            collection_info: CollectionInfo::default(),
            polymorphic_resolution: None,
            navigation_warnings: Vec::new(),
            performance_metadata: PerformanceMetadata {
                operation_cost: 0,
                is_cacheable: false,
                cache_key: None,
                memory_estimate: Some(0),
            },
        }
    }
}

impl Default for PolymorphicResolution {
    /// An unresolved placeholder: unknown type, zero confidence, fallback
    /// method and an empty first-match context.
    fn default() -> (r: Self)
        ensures
            r.resolved_type@ == "Unknown"@,
            r.confidence_score == 0,
            r.resolution_method == ResolutionMethod::DefaultFallback,
            r.alternative_types@.len() == 0,
            r.resolution_context.current_path@ == Seq::<char>::empty(),
            r.resolution_context.base_type@ == Seq::<char>::empty(),
            r.resolution_context.available_types@.len() == 0,
            r.resolution_context.constraints@.len() == 0,
            r.resolution_context.inference_hints@.len() == 0,
            r.resolution_context.resolution_strategy == ResolutionStrategy::FirstMatch,
            r.resolution_context.metadata@.len() == 0,
    {
        PolymorphicResolution {
            resolved_type: "Unknown".to_owned(),
            confidence_score: 0,
            resolution_method: ResolutionMethod::DefaultFallback,
            alternative_types: Vec::new(),
            resolution_context: PolymorphicContext {
                current_path: String::new(),
                base_type: String::new(),
                available_types: Vec::new(),
                constraints: Vec::new(),
                inference_hints: Vec::new(),
                resolution_strategy: ResolutionStrategy::FirstMatch,
                metadata: Vec::new(),
            },
        }
    }
}


#[verifier::external_type_specification]
#[verifier::external_body]
#[verifier::reject_recursive_types(K)]
#[verifier::reject_recursive_types(V)]
#[verifier::reject_recursive_types(S)]
/// The concurrent hash map of the papaya crate, declared so that it can
/// stand in fields; its values are reached only through the named contents
/// below.
pub struct ExPapayaHashMap<K, V, S>(papaya::HashMap<K, V, S>);

/// The contents of a conversion catalog: what it associates, by character
/// content of the two names, with each ordered (from, to) pair.
pub uninterp spec fn conv_pair_map(m: papaya::HashMap<(String, String), ConversionInfo>) -> Map<
    (Seq<char>, Seq<char>),
    ConversionInfo,
>;

/// The contents of a name-to-names lookup: which list of names it
/// associates with each name.
pub uninterp spec fn str_list_map(m: papaya::HashMap<String, Vec<String>>) -> Map<
    Seq<char>,
    Seq<Seq<char>>,
>;

/// The contents of a name-to-conversion-functions lookup.
pub uninterp spec fn conv_fn_map(m: papaya::HashMap<String, Vec<ConversionFunction>>) -> Map<
    Seq<char>,
    Seq<ConversionFunction>,
>;

/// Relies on papaya::HashMap::new: the new map is empty.
#[verifier::external_body]
fn conv_pair_map_new() -> (r: papaya::HashMap<(String, String), ConversionInfo>)
    ensures
        conv_pair_map(r) =~= Map::empty(),
{
    papaya::HashMap::new()
}

/// Relies on papaya::HashMap::new: the new map is empty.
#[verifier::external_body]
fn str_list_map_new() -> (r: papaya::HashMap<String, Vec<String>>)
    ensures
        str_list_map(r) =~= Map::empty(),
{
    papaya::HashMap::new()
}

/// Relies on papaya::HashMap::new: the new map is empty.
#[verifier::external_body]
fn conv_fn_map_new() -> (r: papaya::HashMap<String, Vec<ConversionFunction>>)
    ensures
        conv_fn_map(r) =~= Map::empty(),
{
    papaya::HashMap::new()
}

/// Relies on papaya::HashMap::get: a copy of the list stored under the key,
/// if one is present; keys hash and compare by their characters.
#[verifier::external_body]
fn str_list_map_get(m: &papaya::HashMap<String, Vec<String>>, k: &str) -> (r: Option<Vec<String>>)
    ensures
        r is Some <==> str_list_map(*m).contains_key(k@),
        r matches Some(v) ==> views_of(v@) == str_list_map(*m)[k@],
{
    m.get(k, &m.guard()).cloned()
}

/// Relies on papaya::HashMap::get: a copy of the conversion record stored
/// under the ordered pair of names, if one is present.
#[verifier::external_body]
fn conv_pair_map_get(m: &papaya::HashMap<(String, String), ConversionInfo>, from: &str, to: &str) -> (r:
    Option<ConversionInfo>)
    ensures
        r is Some <==> conv_pair_map(*m).contains_key((from@, to@)),
        r matches Some(ci) ==> {
            let stored = conv_pair_map(*m)[(from@, to@)];
            &&& ci.conversion_type == stored.conversion_type
            &&& crate::strutil::opt_str_eqv(ci.conversion_function, stored.conversion_function)
            &&& ci.data_loss_possible == stored.data_loss_possible
            &&& ci.performance_cost == stored.performance_cost
            &&& ci.validation_rules@.len() == stored.validation_rules@.len()
        },
{
    m.get(&(from.to_owned(), to.to_owned()), &m.guard()).cloned()
}

/// Relies on papaya::HashMap::insert: stores the list under the key,
/// replacing any previous one. papaya inserts through a shared reference;
/// this wrapper demands an exclusive one, and the catalogs holding these
/// maps are private, so the modelled contents change nowhere else.
#[verifier::external_body]
fn str_list_map_insert(m: &mut papaya::HashMap<String, Vec<String>>, k: &str, v: Vec<String>)
    ensures
        str_list_map(*final(m)) == str_list_map(*old(m)).insert(k@, views_of(v@)),
{
    let guard = m.guard();
    m.insert(k.to_owned(), v, &guard);
}

/// Relies on papaya::HashMap::insert: stores the conversion record under
/// the ordered pair of names, replacing any previous one; reached through
/// an exclusive reference, as above.
#[verifier::external_body]
fn conv_pair_map_insert(
    m: &mut papaya::HashMap<(String, String), ConversionInfo>,
    from: &str,
    to: &str,
    info: ConversionInfo,
)
    ensures
        conv_pair_map(*final(m)) == conv_pair_map(*old(m)).insert((from@, to@), info),
{
    let guard = m.guard();
    m.insert((from.to_owned(), to.to_owned()), info, &guard);
}

/// Add a target to the list registered under a source name, creating the
/// list when the name is new and keeping it free of duplicates: afterwards
/// the pair is registered and every other pair is as before.
fn register_target(map: &mut papaya::HashMap<String, Vec<String>>, from_type: &str, to_type: &str)
    ensures
        spec_registered(str_list_map(*final(map)), from_type@, to_type@),
        forall|f: Seq<char>, t: Seq<char>|
            !(f == from_type@ && t == to_type@) ==> (spec_registered(
                str_list_map(*final(map)),
                f,
                t,
            ) <==> spec_registered(str_list_map(*old(map)), f, t)),
{
    let ghost m0 = str_list_map(*map);
    let current = str_list_map_get(map, from_type);
    let ghost had_key = current is Some;
    let mut list = match current {
        Some(v) => v,
        None => Vec::new(),
    };
    let ghost before = list@;
    if !vec_has_str(&list, to_type) {
        let owned = to_type.to_owned();
        proof {
            lemma_push_has_str(list@, owned);
        }
        list.push(owned);
    }
    proof {
        assert(forall|t: Seq<char>|
            seq_has_str(list@, t) <==> (seq_has_str(before, t) || t == to_type@));
    }
    let ghost stored = list@;
    str_list_map_insert(map, from_type, list);
    proof {
        let m1 = str_list_map(*map);
        lemma_views_has(stored, to_type@);
        assert(spec_registered(m1, from_type@, to_type@));
        assert forall|f: Seq<char>, t: Seq<char>|
            !(f == from_type@ && t == to_type@) implies (spec_registered(m1, f, t)
            <==> spec_registered(m0, f, t)) by {
            if f == from_type@ {
                lemma_views_has(stored, t);
                lemma_views_has(before, t);
                if had_key {
                    assert(views_of(before) == m0[from_type@]);
                } else {
                    assert(!seq_has_str(before, t));
                }
            } else {
                assert(m1.contains_key(f) == m0.contains_key(f));
                if m0.contains_key(f) {
                    assert(m1[f] == m0[f]);
                }
            }
        }
    }
}

/// Type compatibility matrix: a directional catalog of legal conversions
/// between type names, held in concurrent read-mostly maps. The catalogs
/// are private and change only through the register methods, which take
/// the matrix exclusively, so that the modelled contents follow the value.
#[derive(Debug)]
pub struct TypeCompatibilityMatrix {
    /// All type conversion mappings (from_type, to_type) -> ConversionInfo
    conversions: papaya::HashMap<(String, String), ConversionInfo>,
    /// Quick lookup for implicit conversions
    implicit_conversions: papaya::HashMap<String, Vec<String>>,
    /// Quick lookup for explicit conversions
    explicit_conversions: papaya::HashMap<String, Vec<String>>,
    /// Function-based conversions (toString(), toInteger(), etc.)
    function_conversions: papaya::HashMap<String, Vec<ConversionFunction>>,
}

/// Whether a registry of directional conversions lets `from` reach `to`.
pub open spec fn spec_registered(
    reg: Map<Seq<char>, Seq<Seq<char>>>,
    from: Seq<char>,
    to: Seq<char>,
) -> bool {
    reg.contains_key(from) && seqs_has(reg[from], to)
}

impl TypeCompatibilityMatrix {
    /// The implicit-conversion registry this matrix holds: which target
    /// names each source name may be converted to without a cast.
    pub closed spec fn implicit_registry(self) -> Map<Seq<char>, Seq<Seq<char>>> {
        str_list_map(self.implicit_conversions)
    }

    /// The explicit-conversion registry this matrix holds.
    pub closed spec fn explicit_registry(self) -> Map<Seq<char>, Seq<Seq<char>>> {
        str_list_map(self.explicit_conversions)
    }

    /// The conversion records this matrix holds, by ordered (from, to) pair.
    pub closed spec fn conversion_catalog(self) -> Map<(Seq<char>, Seq<char>), ConversionInfo> {
        conv_pair_map(self.conversions)
    }

    /// The function-based conversions this matrix holds, by source name.
    pub closed spec fn function_catalog(self) -> Map<Seq<char>, Seq<ConversionFunction>> {
        conv_fn_map(self.function_conversions)
    }

    /// Create a new compatibility matrix with all four catalogs empty.
    pub fn new() -> (r: TypeCompatibilityMatrix)
        ensures
            r.conversion_catalog() == Map::<(Seq<char>, Seq<char>), ConversionInfo>::empty(),
            r.implicit_registry() == Map::<Seq<char>, Seq<Seq<char>>>::empty(),
            r.explicit_registry() == Map::<Seq<char>, Seq<Seq<char>>>::empty(),
            r.function_catalog() == Map::<Seq<char>, Seq<ConversionFunction>>::empty(),
    {
        TypeCompatibilityMatrix {
            conversions: conv_pair_map_new(),
            implicit_conversions: str_list_map_new(),
            explicit_conversions: str_list_map_new(),
            function_conversions: conv_fn_map_new(),
        }
    }

    /// Register a safe implicit conversion from one name to another; every
    /// other pair of the implicit registry, and the other catalogs, are
    /// unchanged.
    pub fn register_implicit(&mut self, from_type: &str, to_type: &str)
        ensures
            spec_registered(final(self).implicit_registry(), from_type@, to_type@),
            forall|f: Seq<char>, t: Seq<char>|
                !(f == from_type@ && t == to_type@) ==> (spec_registered(
                    final(self).implicit_registry(),
                    f,
                    t,
                ) <==> spec_registered(old(self).implicit_registry(), f, t)),
            final(self).explicit_registry() == old(self).explicit_registry(),
            final(self).conversion_catalog() == old(self).conversion_catalog(),
            final(self).function_catalog() == old(self).function_catalog(),
    {
        register_target(&mut self.implicit_conversions, from_type, to_type);
    }

    /// Register an explicit conversion from one name to another; every
    /// other pair of the explicit registry, and the other catalogs, are
    /// unchanged.
    pub fn register_explicit(&mut self, from_type: &str, to_type: &str)
        ensures
            spec_registered(final(self).explicit_registry(), from_type@, to_type@),
            forall|f: Seq<char>, t: Seq<char>|
                !(f == from_type@ && t == to_type@) ==> (spec_registered(
                    final(self).explicit_registry(),
                    f,
                    t,
                ) <==> spec_registered(old(self).explicit_registry(), f, t)),
            final(self).implicit_registry() == old(self).implicit_registry(),
            final(self).conversion_catalog() == old(self).conversion_catalog(),
            final(self).function_catalog() == old(self).function_catalog(),
    {
        register_target(&mut self.explicit_conversions, from_type, to_type);
    }

    /// Register the conversion record for an ordered pair of names,
    /// replacing any previous record for that pair; the other catalogs are
    /// unchanged.
    pub fn register_conversion(&mut self, from_type: &str, to_type: &str, info: ConversionInfo)
        ensures
            final(self).conversion_catalog() == old(self).conversion_catalog().insert(
                (from_type@, to_type@),
                info,
            ),
            final(self).implicit_registry() == old(self).implicit_registry(),
            final(self).explicit_registry() == old(self).explicit_registry(),
            final(self).function_catalog() == old(self).function_catalog(),
    {
        conv_pair_map_insert(&mut self.conversions, from_type, to_type, info);
    }

    /// Check if implicit conversion is registered from one name to another.
    pub fn can_convert_implicitly(&self, from_type: &str, to_type: &str) -> (r: bool)
        ensures
            r == spec_registered(self.implicit_registry(), from_type@, to_type@),
    {
        if let Some(targets) = str_list_map_get(&self.implicit_conversions, from_type) {
            proof {
                lemma_views_has(targets@, to_type@);
            }
            vec_has_str(&targets, to_type)
        } else {
            false
        }
    }

    /// Check if explicit conversion is registered from one name to another.
    pub fn can_convert_explicitly(&self, from_type: &str, to_type: &str) -> (r: bool)
        ensures
            r == spec_registered(self.explicit_registry(), from_type@, to_type@),
    {
        if let Some(targets) = str_list_map_get(&self.explicit_conversions, from_type) {
            proof {
                lemma_views_has(targets@, to_type@);
            }
            vec_has_str(&targets, to_type)
        } else {
            false
        }
    }

    /// Get the conversion record for the ordered pair, if one is
    /// registered; an unknown pair is reported as absent, never as an
    /// error.
    pub fn get_conversion_info(&self, from_type: &str, to_type: &str) -> (r: Option<ConversionInfo>)
        ensures
            r is Some <==> self.conversion_catalog().contains_key((from_type@, to_type@)),
            r matches Some(ci) ==> {
                let stored = self.conversion_catalog()[(from_type@, to_type@)];
                &&& ci.conversion_type == stored.conversion_type
                &&& crate::strutil::opt_str_eqv(ci.conversion_function, stored.conversion_function)
                &&& ci.data_loss_possible == stored.data_loss_possible
                &&& ci.performance_cost == stored.performance_cost
                &&& ci.validation_rules@.len() == stored.validation_rules@.len()
            },
    {
        conv_pair_map_get(&self.conversions, from_type, to_type)
    }

    /// A single-hop conversion path: the two endpoints when an implicit
    /// conversion is registered, absent otherwise.
    pub fn find_conversion_path(&self, from_type: &str, to_type: &str) -> (r: Option<Vec<String>>)
        ensures
            match r {
                Some(path) => spec_registered(self.implicit_registry(), from_type@, to_type@)
                    && path@.len() == 2 && path@[0]@ == from_type@ && path@[1]@ == to_type@,
                None => !spec_registered(self.implicit_registry(), from_type@, to_type@),
            },
    {
        if self.can_convert_implicitly(from_type, to_type) {
            let mut path: Vec<String> = Vec::new();
            path.push(from_type.to_owned());
            path.push(to_type.to_owned());
            Some(path)
        } else {
            None
        }
    }
}

impl Default for TypeCompatibilityMatrix {
    /// The empty matrix.
    fn default() -> (r: Self)
        ensures
            r.implicit_registry() == Map::<Seq<char>, Seq<Seq<char>>>::empty(),
            r.explicit_registry() == Map::<Seq<char>, Seq<Seq<char>>>::empty(),
            r.conversion_catalog() == Map::<(Seq<char>, Seq<char>), ConversionInfo>::empty(),
    {
        TypeCompatibilityMatrix::new()
    }
}

/// Registered conversions are directional: when the registry holds exactly
/// one promotion, from one name to a second, different name, the opposite
/// direction is not registered.
pub proof fn lemma_implicit_directional(
    reg: Map<Seq<char>, Seq<Seq<char>>>,
    a: Seq<char>,
    b: Seq<char>,
)
    requires
        reg.dom() =~= set![a],
        reg[a] =~= seq![b],
        a != b,
    ensures
        spec_registered(reg, a, b),
        !spec_registered(reg, b, a),
{
    assert(reg.contains_key(a));
    assert(reg[a][0] == b);
    assert(seqs_has(reg[a], b));
    if reg.contains_key(b) {
        assert(reg.dom().contains(b));
        assert(b == a);
    }
}

} // verus!
