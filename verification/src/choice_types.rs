//! Choice-type definitions and the bidirectional expansion map between type
//! names and type-suffixed property names.
//!
//! Frequencies and scores over the unit interval are held in hundredths
//! (0 to 100).

use vstd::prelude::*;

use crate::reflection::TypeReflectionInfo;
use crate::strutil::str_eq;
use crate::type_system::Cardinality;

verus! {

/// Comprehensive choice type definition with metadata
#[derive(Debug, Clone)]
pub struct ChoiceTypeDefinition {
    /// Base path of the choice type (e.g., "value")
    pub base_path: String,
    /// Property name with choice suffix (e.g., "value[x]")
    pub choice_property: String,
    /// All possible types for this choice
    pub possible_types: Vec<ChoiceTypeOption>,
    /// Rules for expanding choice types
    pub expansion_rules: Vec<ExpansionRule>,
    /// Metadata for choice resolution
    pub resolution_metadata: ChoiceResolutionMetadata,
    /// Constraints that apply to this choice
    pub constraints: Vec<ChoiceConstraint>,
}

/// Individual option in a choice type
#[derive(Debug, Clone)]
pub struct ChoiceTypeOption {
    /// Type name (e.g., "string", "boolean")
    pub typename: String,
    /// Expanded property name (e.g., "valueString")
    pub expanded_property: String,
    /// Complete type information
    pub type_info: TypeReflectionInfo,
    /// Statistical usage frequency in hundredths (0 to 100)
    pub usage_frequency: u32,
    /// Type-specific compatibility rules
    pub compatibility_rules: Vec<CompatibilityRule>,
}

/// Rule for expanding choice types
#[derive(Debug, Clone)]
pub struct ExpansionRule {
    /// Rule identifier
    pub rule_id: String,
    /// Source type pattern
    pub source_pattern: String,
    /// Target expansion pattern
    pub target_pattern: String,
    /// Rule priority (higher = more important)
    pub priority: u32,
    /// Context where rule applies
    pub applicable_contexts: Vec<String>,
}

/// Metadata for choice type resolution
#[derive(Debug, Clone)]
pub struct ChoiceResolutionMetadata {
    /// Default resolution strategy
    pub default_strategy: ResolutionStrategy,
    /// Confidence threshold for automatic resolution, in hundredths
    pub confidence_threshold: u32,
    /// Whether to allow ambiguous resolution
    pub allow_ambiguous: bool,
    /// Fallback type if resolution fails
    pub fallback_type: Option<String>,
    /// Performance hints for resolution, as key/value pairs
    pub performance_hints: Vec<(String, String)>,
}

/// Strategy for resolving choice types
#[derive(Debug, Clone)]
pub enum ResolutionStrategy {
    /// Use most frequent type
    MostFrequent,
    /// Use first matching type
    FirstMatch,
    /// Use type with highest confidence
    HighestConfidence,
    /// Use context-aware resolution
    ContextAware,
    /// Custom resolution logic
    Custom {
        /// Name of the custom strategy
        strategy_name: String,
    },
}

/// Constraint on choice type usage
#[derive(Debug, Clone)]
pub struct ChoiceConstraint {
    /// Constraint identifier
    pub constraint_id: String,
    /// Type of constraint
    pub constraint_type: ChoiceConstraintType,
    /// Constraint expression
    pub expression: String,
    /// Error message if violated
    pub error_message: String,
    /// Contexts where constraint applies
    pub applicable_contexts: Vec<String>,
}

/// Types of choice constraints
#[derive(Debug, Clone, PartialEq, Eq, Structural)]
pub enum ChoiceConstraintType {
    /// Mutual exclusion constraint
    MutualExclusion,
    /// Required together constraint
    RequiredTogether,
    /// Type hierarchy constraint
    TypeHierarchy,
    /// Cardinality constraint
    Cardinality,
    /// Context-specific constraint
    ContextSpecific,
}

/// Compatibility rule for type selection
#[derive(Debug, Clone)]
pub struct CompatibilityRule {
    /// Rule identifier
    pub rule_id: String,
    /// Source type or pattern
    pub source_type: String,
    /// Compatible target types
    pub compatible_types: Vec<String>,
    /// Compatibility score in hundredths (0 to 100)
    pub compatibility_score: u32,
    /// Conversion requirements
    pub conversion_requirements: Vec<ConversionRequirement>,
}

/// Requirement for type conversion
#[derive(Debug, Clone)]
pub struct ConversionRequirement {
    /// Requirement type
    pub requirement_type: RequirementType,
    /// Description of requirement
    pub description: String,
    /// Whether requirement is mandatory
    pub is_mandatory: bool,
}

/// Types of conversion requirements
#[derive(Debug, Clone, PartialEq, Eq, Structural)]
pub enum RequirementType {
    /// Data format validation
    FormatValidation,
    /// Value range check
    RangeValidation,
    /// Pattern matching
    PatternMatching,
    /// Custom validation
    CustomValidation,
}

/// Choice type expansion with bidirectional mappings
#[derive(Debug, Clone)]
pub struct ChoiceExpansion {
    /// Original choice property
    pub choice_property: String,
    /// Expanded property mappings (type -> property)
    pub forward_mappings: Vec<(String, String)>,
    /// Reverse mappings (property -> type)
    pub reverse_mappings: Vec<(String, String)>,
    /// Expanded paths with constraints
    pub expanded_paths: Vec<ExpandedPath>,
    /// Expansion context
    pub expansion_context: ExpansionContext,
}

/// Expanded path with type-specific constraints
#[derive(Debug, Clone)]
pub struct ExpandedPath {
    /// Full expanded path
    pub path: String,
    /// Type for this path
    pub target_type: String,
    /// Type reflection information
    pub type_info: TypeReflectionInfo,
    /// Path-specific constraints
    pub path_constraints: Vec<PathConstraint>,
    /// Cardinality for this path
    pub cardinality: Cardinality,
}

/// Context for choice type expansion
#[derive(Debug, Clone)]
pub struct ExpansionContext {
    /// Resource type context
    pub resource_type: Option<String>,
    /// Profile context
    pub profile: Option<String>,
    /// Extension context
    pub extension_context: Option<String>,
    /// Additional context metadata as key/value pairs
    pub metadata: Vec<(String, String)>,
}

/// Constraint on expanded path
#[derive(Debug, Clone)]
pub struct PathConstraint {
    /// Constraint identifier
    pub constraint_id: String,
    /// Constraint expression
    pub expression: String,
    /// Severity level
    pub severity: ConstraintSeverity,
    /// Human-readable description
    pub description: String,
}

/// Severity levels for constraints
#[derive(Debug, Clone, PartialEq, Eq, Structural)]
pub enum ConstraintSeverity {
    /// Error - must be satisfied
    Error,
    /// Warning - should be satisfied
    Warning,
    /// Information - for guidance only
    Information,
}

/// What a list of key/value pairs associates with a key: the value of the
/// first pair whose key has exactly the characters of `k`.
pub open spec fn pairs_get(s: Seq<(String, String)>, k: Seq<char>) -> Option<Seq<char>>
    decreases s.len(),
{
    if s.len() == 0 {
        None
    } else if s[0].0@ == k {
        Some(s[0].1@)
    } else {
        pairs_get(s.drop_first(), k)
    }
}

/// Look a key up in a list of key/value pairs.
fn pairs_lookup(s: &Vec<(String, String)>, k: &str) -> (r: Option<String>)
    ensures
        match (r, pairs_get(s@, k@)) {
            (Some(a), Some(b)) => a@ == b,
            (None, None) => true,
            _ => false,
        },
{
    proof {
        assert(s@.skip(0) =~= s@);
    }
    let mut i: usize = 0;
    while i < s.len()
        invariant
            i <= s@.len(),
            pairs_get(s@.skip(i as int), k@) == pairs_get(s@, k@),
        decreases s@.len() - i,
    {
        proof {
            assert(s@.skip(i as int)[0] == s@[i as int]);
            assert(s@.skip(i as int).drop_first() =~= s@.skip(i as int + 1));
        }
        if str_eq(s[i].0.as_str(), k) {
            return Some(s[i].1.clone());
        }
        i += 1;
    }
    proof {
        assert(s@.skip(i as int).len() == 0);
    }
    None
}

/// Store a pair, replacing the value of the first pair with the same key, or
/// appending when the key is new.
#[verifier::loop_isolation(false)]
fn pairs_insert(s: &mut Vec<(String, String)>, k: &str, v: &str)
    ensures
        pairs_get(final(s)@, k@) == Some(v@),
        forall|other: Seq<char>|
            other != k@ ==> #[trigger] pairs_get(final(s)@, other) == pairs_get(old(s)@, other),
{
    let ghost orig = s@;
    proof {
        assert(orig.skip(0) =~= orig);
    }
    let mut i: usize = 0;
    while i < s.len()
        invariant
            i <= s@.len(),
            s@ == orig,
            forall|j: int| 0 <= j < i ==> orig[j].0@ != k@,
        decreases s@.len() - i,
    {
        if str_eq(s[i].0.as_str(), k) {
            let pair = (k.to_owned(), v.to_owned());
            s.set(i, pair);
            proof {
                lemma_pairs_get_update(orig, s@, i as int, k@, v@);
            }
            return ;
        }
        i += 1;
    }
    s.push((k.to_owned(), v.to_owned()));
    proof {
        lemma_pairs_get_append(orig, s@, k@, v@);
    }
}

/// After replacing the first pair that holds the key, lookups give the new
/// value for that key and are unchanged for every other key.
proof fn lemma_pairs_get_update(
    orig: Seq<(String, String)>,
    upd: Seq<(String, String)>,
    i: int,
    k: Seq<char>,
    v: Seq<char>,
)
    requires
        0 <= i < orig.len(),
        upd.len() == orig.len(),
        forall|j: int| 0 <= j < orig.len() && j != i ==> upd[j] == orig[j],
        upd[i].0@ == k,
        upd[i].1@ == v,
        orig[i].0@ == k,
        forall|j: int| 0 <= j < i ==> orig[j].0@ != k,
    ensures
        pairs_get(upd, k) == Some(v),
        forall|other: Seq<char>| other != k ==> #[trigger] pairs_get(upd, other) == pairs_get(
            orig,
            other,
        ),
    decreases orig.len(),
{
    if i == 0 {
        assert forall|other: Seq<char>| other != k implies #[trigger] pairs_get(upd, other)
            == pairs_get(orig, other) by {
            assert(upd.drop_first() =~= orig.drop_first());
        }
    } else {
        assert forall|j: int|
            0 <= j < orig.drop_first().len() && j != i - 1 implies upd.drop_first()[j]
            == orig.drop_first()[j] by {
            assert(upd[j + 1] == orig[j + 1]);
        }
        lemma_pairs_get_update(orig.drop_first(), upd.drop_first(), i - 1, k, v);
        assert(upd[0] == orig[0]);
        assert(orig[0].0@ != k);
        assert(pairs_get(upd, k) == pairs_get(upd.drop_first(), k));
        assert forall|other: Seq<char>| other != k implies #[trigger] pairs_get(upd, other)
            == pairs_get(orig, other) by {
            if upd[0].0@ == other {
                assert(pairs_get(upd, other) == Some(upd[0].1@));
                assert(pairs_get(orig, other) == Some(orig[0].1@));
            } else {
                assert(pairs_get(upd, other) == pairs_get(upd.drop_first(), other));
                assert(pairs_get(orig, other) == pairs_get(orig.drop_first(), other));
            }
        }
    }
}

/// After appending a pair whose key was absent, lookups give the new value
/// for that key and are unchanged for every other key.
proof fn lemma_pairs_get_append(
    orig: Seq<(String, String)>,
    upd: Seq<(String, String)>,
    k: Seq<char>,
    v: Seq<char>,
)
    requires
        upd.len() == orig.len() + 1,
        forall|j: int| 0 <= j < orig.len() ==> upd[j] == orig[j],
        upd[orig.len() as int].0@ == k,
        upd[orig.len() as int].1@ == v,
        forall|j: int| 0 <= j < orig.len() ==> orig[j].0@ != k,
    ensures
        pairs_get(upd, k) == Some(v),
        forall|other: Seq<char>| other != k ==> #[trigger] pairs_get(upd, other) == pairs_get(
            orig,
            other,
        ),
    decreases orig.len(),
{
    if orig.len() == 0 {
        assert(upd[0].0@ == k);
        assert forall|other: Seq<char>| other != k implies #[trigger] pairs_get(upd, other)
            == pairs_get(orig, other) by {
            assert(pairs_get(upd, other) == pairs_get(upd.drop_first(), other));
            assert(upd.drop_first().len() == 0);
        }
    } else {
        assert forall|j: int| 0 <= j < orig.drop_first().len() implies upd.drop_first()[j]
            == orig.drop_first()[j] by {
            assert(upd[j + 1] == orig[j + 1]);
        }
        assert(upd.drop_first().len() == orig.drop_first().len() + 1);
        assert(upd.drop_first()[orig.drop_first().len() as int] == upd[orig.len() as int]);
        lemma_pairs_get_append(orig.drop_first(), upd.drop_first(), k, v);
        assert(upd[0] == orig[0]);
        assert(orig[0].0@ != k);
        assert(pairs_get(upd, k) == pairs_get(upd.drop_first(), k));
        assert forall|other: Seq<char>| other != k implies #[trigger] pairs_get(upd, other)
            == pairs_get(orig, other) by {
            if upd[0].0@ == other {
                assert(pairs_get(upd, other) == Some(upd[0].1@));
                assert(pairs_get(orig, other) == Some(orig[0].1@));
            } else {
                assert(pairs_get(upd, other) == pairs_get(upd.drop_first(), other));
                assert(pairs_get(orig, other) == pairs_get(orig.drop_first(), other));
            }
        }
    }
}

impl ChoiceTypeDefinition {
    /// Create a new choice type definition
    pub fn new(base_path: &str, choice_property: &str) -> (r: ChoiceTypeDefinition)
        ensures
            r.base_path@ == base_path@,
            r.choice_property@ == choice_property@,
            r.possible_types@.len() == 0,
            r.expansion_rules@.len() == 0,
            r.constraints@.len() == 0,
    {
        ChoiceTypeDefinition {
            base_path: base_path.to_owned(),
            choice_property: choice_property.to_owned(),
            possible_types: Vec::new(),
            expansion_rules: Vec::new(),
            resolution_metadata: ChoiceResolutionMetadata::default(),
            constraints: Vec::new(),
        }
    }

    /// Add a possible type option
    pub fn add_type_option(self, option: ChoiceTypeOption) -> (r: ChoiceTypeDefinition)
        ensures
            r.possible_types@ == self.possible_types@.push(option),
            r.base_path == self.base_path,
            r.choice_property == self.choice_property,
            r.expansion_rules == self.expansion_rules,
            r.constraints == self.constraints,
    {
        let mut r = self;
        r.possible_types.push(option);
        r
    }

    /// Add an expansion rule
    pub fn add_expansion_rule(self, rule: ExpansionRule) -> (r: ChoiceTypeDefinition)
        ensures
            r.expansion_rules@ == self.expansion_rules@.push(rule),
            r.base_path == self.base_path,
            r.choice_property == self.choice_property,
            r.possible_types == self.possible_types,
            r.constraints == self.constraints,
    {
        let mut r = self;
        r.expansion_rules.push(rule);
        r
    }

    /// The first option declared under a type name.
    pub open spec fn spec_option_by_type(self, name: Seq<char>) -> Option<int> {
        if exists|i: int|
            0 <= i < self.possible_types@.len() && #[trigger] self.possible_types@[i].typename@
                == name {
            Some(
                choose|i: int|
                    0 <= i < self.possible_types@.len()
                        && #[trigger] self.possible_types@[i].typename@ == name && forall|j: int|
                        0 <= j < i ==> self.possible_types@[j].typename@ != name,
            )
        } else {
            None
        }
    }

    /// Get the first type option with the given type name.
    #[verifier::loop_isolation(false)]
    pub fn get_type_option(&self, typename: &str) -> (r: Option<&ChoiceTypeOption>)
        ensures
            match r {
                Some(o) => exists|i: int|
                    0 <= i < self.possible_types@.len()
                        && #[trigger] self.possible_types@[i].typename@ == typename@
                        && self.possible_types@[i] == *o,
                None => forall|i: int|
                    0 <= i < self.possible_types@.len()
                        ==> #[trigger] self.possible_types@[i].typename@ != typename@,
            },
    {
        let mut i: usize = 0;
        while i < self.possible_types.len()
            invariant
                i <= self.possible_types@.len(),
                forall|j: int| 0 <= j < i ==> #[trigger] self.possible_types@[j].typename@
                    != typename@,
            decreases self.possible_types@.len() - i,
        {
            if str_eq(self.possible_types[i].typename.as_str(), typename) {
                return Some(&self.possible_types[i]);
            }
            i += 1;
        }
        None
    }

    /// Get all expanded property names, in declaration order.
    pub fn get_expanded_properties(&self) -> (r: Vec<String>)
        ensures
            r@.len() == self.possible_types@.len(),
            forall|i: int| 0 <= i < r@.len() ==> #[trigger] r@[i]@
                == self.possible_types@[i].expanded_property@,
    {
        let mut r: Vec<String> = Vec::new();
        let mut i: usize = 0;
        while i < self.possible_types.len()
            invariant
                i <= self.possible_types@.len(),
                r@.len() == i,
                forall|j: int| 0 <= j < i ==> #[trigger] r@[j]@
                    == self.possible_types@[j].expanded_property@,
            decreases self.possible_types@.len() - i,
        {
            r.push(self.possible_types[i].expanded_property.clone());
            i += 1;
        }
        r
    }

    /// Whether some option of this choice expands to the property name.
    pub open spec fn spec_is_expanded_property(self, property: Seq<char>) -> bool {
        exists|i: int|
            0 <= i < self.possible_types@.len()
                && #[trigger] self.possible_types@[i].expanded_property@ == property
    }

    /// Check if a property is an expanded form of this choice
    #[verifier::loop_isolation(false)]
    pub fn is_expanded_property(&self, property_name: &str) -> (r: bool)
        ensures
            r == self.spec_is_expanded_property(property_name@),
    {
        let mut i: usize = 0;
        while i < self.possible_types.len()
            invariant
                i <= self.possible_types@.len(),
                forall|j: int| 0 <= j < i ==> #[trigger] self.possible_types@[j].expanded_property@
                    != property_name@,
            decreases self.possible_types@.len() - i,
        {
            if str_eq(self.possible_types[i].expanded_property.as_str(), property_name) {
                return true;
            }
            i += 1;
        }
        false
    }

    /// Get the type name of the first option that expands to the property.
    #[verifier::loop_isolation(false)]
    pub fn get_type_from_expanded_property(&self, property_name: &str) -> (r: Option<String>)
        ensures
            match r {
                Some(t) => exists|i: int|
                    0 <= i < self.possible_types@.len()
                        && #[trigger] self.possible_types@[i].expanded_property@ == property_name@
                        && self.possible_types@[i].typename@ == t@,
                None => !self.spec_is_expanded_property(property_name@),
            },
    {
        let mut i: usize = 0;
        while i < self.possible_types.len()
            invariant
                i <= self.possible_types@.len(),
                forall|j: int| 0 <= j < i ==> #[trigger] self.possible_types@[j].expanded_property@
                    != property_name@,
            decreases self.possible_types@.len() - i,
        {
            if str_eq(self.possible_types[i].expanded_property.as_str(), property_name) {
                return Some(self.possible_types[i].typename.clone());
            }
            i += 1;
        }
        None
    }
}

impl ChoiceTypeOption {
    /// Create a new choice type option
    pub fn new(typename: &str, expanded_property: &str, type_info: TypeReflectionInfo) -> (r:
        ChoiceTypeOption)
        ensures
            r.typename@ == typename@,
            r.expanded_property@ == expanded_property@,
            r.type_info == type_info,
            r.usage_frequency == 0,
            r.compatibility_rules@.len() == 0,
    {
        let owned_name = typename.to_owned();
        ChoiceTypeOption {
            typename: owned_name,
            expanded_property: expanded_property.to_owned(),
            type_info,
            usage_frequency: 0,
            compatibility_rules: Vec::new(),
        }
    }

    /// Set usage frequency in hundredths, clamped to 100.
    pub fn with_usage_frequency(self, frequency: u32) -> (r: ChoiceTypeOption)
        ensures
            r.usage_frequency == if frequency > 100 {
                100u32
            } else {
                frequency
            },
            r == (ChoiceTypeOption { usage_frequency: r.usage_frequency, ..self }),
    {
        let mut r = self;
        r.usage_frequency = if frequency > 100 {
            100
        } else {
            frequency
        };
        r
    }

    /// Add compatibility rule
    pub fn add_compatibility_rule(self, rule: CompatibilityRule) -> (r: ChoiceTypeOption)
        ensures
            r.compatibility_rules@ == self.compatibility_rules@.push(rule),
            r == (ChoiceTypeOption { compatibility_rules: r.compatibility_rules, ..self }),
    {
        let mut r = self;
        r.compatibility_rules.push(rule);
        r
    }
}

impl Default for ChoiceResolutionMetadata {
    /// Context-aware resolution with a 70-hundredths confidence threshold,
    /// no ambiguity allowed, and no fallback.
    fn default() -> (r: Self)
        ensures
            r.default_strategy matches ResolutionStrategy::ContextAware,
            r.confidence_threshold == 70,
            !r.allow_ambiguous,
            r.fallback_type is None,
            r.performance_hints@.len() == 0,
    {
        ChoiceResolutionMetadata {
            default_strategy: ResolutionStrategy::ContextAware,
            confidence_threshold: 70,
            allow_ambiguous: false,
            fallback_type: None,
            performance_hints: Vec::new(),
        }
    }
}

impl Default for ExpansionContext {
    /// No resource, profile or extension context and no metadata.
    fn default() -> (r: Self)
        ensures
            r.resource_type is None,
            r.profile is None,
            r.extension_context is None,
            r.metadata@.len() == 0,
    {
        ExpansionContext {
            resource_type: None,
            profile: None,
            extension_context: None,
            metadata: Vec::new(),
        }
    }
}

impl ChoiceExpansion {
    /// Create a new choice expansion with empty mappings.
    pub fn new(choice_property: &str) -> (r: ChoiceExpansion)
        ensures
            r.choice_property@ == choice_property@,
            r.forward_mappings@.len() == 0,
            r.reverse_mappings@.len() == 0,
            r.expanded_paths@.len() == 0,
    {
        ChoiceExpansion {
            choice_property: choice_property.to_owned(),
            forward_mappings: Vec::new(),
            reverse_mappings: Vec::new(),
            expanded_paths: Vec::new(),
            expansion_context: ExpansionContext::default(),
        }
    }

    /// Add a type mapping, updating the forward and the reverse direction
    /// together: afterwards the type expands to the property and the
    /// property leads back to the type, and every other key is unaffected.
    pub fn add_mapping(self, typename: &str, property_name: &str) -> (r: ChoiceExpansion)
        ensures
            pairs_get(r.forward_mappings@, typename@) == Some(property_name@),
            pairs_get(r.reverse_mappings@, property_name@) == Some(typename@),
            forall|other: Seq<char>|
                other != typename@ ==> #[trigger] pairs_get(r.forward_mappings@, other)
                    == pairs_get(self.forward_mappings@, other),
            forall|other: Seq<char>|
                other != property_name@ ==> #[trigger] pairs_get(r.reverse_mappings@, other)
                    == pairs_get(self.reverse_mappings@, other),
            r.choice_property == self.choice_property,
            r.expanded_paths == self.expanded_paths,
    {
        let mut r = self;
        pairs_insert(&mut r.forward_mappings, typename, property_name);
        pairs_insert(&mut r.reverse_mappings, property_name, typename);
        r
    }

    /// Expand choice type to specific type
    pub fn expand_to_type(&self, typename: &str) -> (r: Option<String>)
        ensures
            match (r, pairs_get(self.forward_mappings@, typename@)) {
                (Some(a), Some(b)) => a@ == b,
                (None, None) => true,
                _ => false,
            },
    {
        pairs_lookup(&self.forward_mappings, typename)
    }

    /// Get base type from expanded property
    pub fn get_base_type(&self, expanded_property: &str) -> (r: Option<String>)
        ensures
            match (r, pairs_get(self.reverse_mappings@, expanded_property@)) {
                (Some(a), Some(b)) => a@ == b,
                (None, None) => true,
                _ => false,
            },
    {
        pairs_lookup(&self.reverse_mappings, expanded_property)
    }
}

} // verus!
