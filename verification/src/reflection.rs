//! Type reflection: the canonical descriptor for simple, class, list and
//! tuple types, with the predicates and conversions that the rest of the
//! library builds on.

use vstd::prelude::*;

use crate::strutil::{
    first_str_where, lemma_first_str_where, lemma_push_has_str, lemma_views_has, opt_str_eqv,
    seq_has_str, seqs_has, spec_str_contains, str_contains, str_eq, vec_has_str,
    views_of,
};
use crate::type_system::{
    ConversionInfo, ConversionType, InferenceHint, InferenceHintType, PolymorphicContext,
    ResolutionStrategy, ValidationRule,
};

verus! {

/// Type reflection information: a simple (named) type, a class type with
/// elements, a list type, or an anonymous tuple type.
#[derive(Debug)]
pub enum TypeReflectionInfo {
    /// Simple primitive type information
    SimpleType {
        /// Type namespace (e.g., "System", "FHIR")
        namespace: String,
        /// Type name (e.g., "String", "Patient")
        name: String,
        /// Base type if this type inherits from another
        base_type: Option<String>,
    },
    /// Class/complex type information with elements
    ClassInfo {
        /// Type namespace
        namespace: String,
        /// Type name
        name: String,
        /// Base type if this type inherits from another
        base_type: Option<String>,
        /// Element definitions for this class
        elements: Vec<ElementInfo>,
    },
    /// Collection/list type information
    ListType {
        /// Element type information
        element_type: Box<TypeReflectionInfo>,
    },
    /// Tuple type information for anonymous types
    TupleType {
        /// Element definitions for this tuple
        elements: Vec<TupleElementInfo>,
    },
}

/// Element information for class types
#[derive(Debug)]
pub struct ElementInfo {
    /// Element name
    pub name: String,
    /// Element type information
    pub type_info: TypeReflectionInfo,
    /// Minimum cardinality
    pub min_cardinality: u32,
    /// Maximum cardinality (None for unbounded)
    pub max_cardinality: Option<u32>,
    /// Whether this is a modifier element
    pub is_modifier: bool,
    /// Whether this element appears in summaries
    pub is_summary: bool,
    /// Whether this element is one-based indexed
    pub is_one_based: bool,
    /// Element documentation
    pub documentation: Option<String>,
}

/// Element information for tuple types
#[derive(Debug)]
pub struct TupleElementInfo {
    /// Element name
    pub name: String,
    /// Element type information
    pub type_info: TypeReflectionInfo,
    /// Whether this element is one-based indexed
    pub is_one_based: bool,
}

/// Type hierarchy information for inheritance relationships
#[derive(Debug, Clone)]
pub struct TypeHierarchy {
    /// The root type name
    pub root_type: String,
    /// Parent types (inheritance chain)
    pub parents: Vec<String>,
    /// Direct child types
    pub children: Vec<String>,
    /// All descendant types (transitive children)
    pub descendants: Vec<String>,
}

/// Type suggestion for autocomplete and search
#[derive(Debug, Clone)]
pub struct TypeSuggestion {
    /// Suggested type name
    pub typename: String,
    /// Type kind (resource, complex-type, primitive-type)
    pub kind: String,
    /// Description of the type
    pub description: Option<String>,
    /// Relevance score in hundredths (0 to 100)
    pub relevance_score: u32,
    /// Namespace of the type
    pub namespace: String,
}

impl TypeReflectionInfo {
    /// The characters of the name this type reports.
    pub open spec fn spec_name(self) -> Seq<char> {
        match self {
            TypeReflectionInfo::SimpleType { name, .. } => name@,
            TypeReflectionInfo::ClassInfo { name, .. } => name@,
            TypeReflectionInfo::ListType { .. } => "List"@,
            TypeReflectionInfo::TupleType { .. } => "Tuple"@,
        }
    }

    /// The characters of the namespace, for named types.
    pub open spec fn spec_namespace(self) -> Option<Seq<char>> {
        match self {
            TypeReflectionInfo::SimpleType { namespace, .. } => Some(namespace@),
            TypeReflectionInfo::ClassInfo { namespace, .. } => Some(namespace@),
            _ => None,
        }
    }

    /// The characters of the declared base type, if any.
    pub open spec fn spec_base_type(self) -> Option<Seq<char>> {
        match self {
            TypeReflectionInfo::SimpleType { base_type, .. } => match base_type {
                Some(b) => Some(b@),
                None => None,
            },
            TypeReflectionInfo::ClassInfo { base_type, .. } => match base_type {
                Some(b) => Some(b@),
                None => None,
            },
            _ => None,
        }
    }

    /// A primitive type is a simple type in the System namespace.
    pub open spec fn spec_is_primitive(self) -> bool {
        self matches TypeReflectionInfo::SimpleType { .. } && self.spec_namespace() == Some(
            "System"@,
        )
    }

    /// A FHIR type is a named type in the FHIR namespace.
    pub open spec fn spec_is_fhir_type(self) -> bool {
        (self matches TypeReflectionInfo::SimpleType { .. } || self matches
        TypeReflectionInfo::ClassInfo { .. }) && self.spec_namespace() == Some("FHIR"@)
    }

    /// Get the type name
    pub fn name(&self) -> (r: &str)
        ensures
            r@ == self.spec_name(),
    {
        match self {
            TypeReflectionInfo::SimpleType { name, .. } => name.as_str(),
            TypeReflectionInfo::ClassInfo { name, .. } => name.as_str(),
            TypeReflectionInfo::ListType { .. } => "List",
            TypeReflectionInfo::TupleType { .. } => "Tuple",
        }
    }

    /// Get the namespace
    pub fn namespace(&self) -> (r: Option<&str>)
        ensures
            match r {
                Some(ns) => self.spec_namespace() == Some(ns@),
                None => self.spec_namespace() is None,
            },
    {
        match self {
            TypeReflectionInfo::SimpleType { namespace, .. } => Some(namespace.as_str()),
            TypeReflectionInfo::ClassInfo { namespace, .. } => Some(namespace.as_str()),
            TypeReflectionInfo::ListType { .. } => None,
            TypeReflectionInfo::TupleType { .. } => None,
        }
    }

    /// Get the base type if available
    pub fn base_type(&self) -> (r: Option<&str>)
        ensures
            match r {
                Some(b) => self.spec_base_type() == Some(b@),
                None => self.spec_base_type() is None,
            },
    {
        match self {
            TypeReflectionInfo::SimpleType { base_type, .. } => match base_type {
                Some(b) => Some(b.as_str()),
                None => None,
            },
            TypeReflectionInfo::ClassInfo { base_type, .. } => match base_type {
                Some(b) => Some(b.as_str()),
                None => None,
            },
            TypeReflectionInfo::ListType { .. } => None,
            TypeReflectionInfo::TupleType { .. } => None,
        }
    }

    /// Check if this is a primitive type
    pub fn is_primitive(&self) -> (r: bool)
        ensures
            r == self.spec_is_primitive(),
    {
        match self {
            TypeReflectionInfo::SimpleType { namespace, .. } => str_eq(namespace.as_str(), "System"),
            _ => false,
        }
    }

    /// Check if this is a FHIR type
    pub fn is_fhir_type(&self) -> (r: bool)
        ensures
            r == self.spec_is_fhir_type(),
    {
        match self {
            TypeReflectionInfo::SimpleType { namespace, .. } => str_eq(namespace.as_str(), "FHIR"),
            TypeReflectionInfo::ClassInfo { namespace, .. } => str_eq(namespace.as_str(), "FHIR"),
            _ => false,
        }
    }

    /// Check if this is a collection type
    pub fn is_collection(&self) -> (r: bool)
        ensures
            r == (self matches TypeReflectionInfo::ListType { .. }),
    {
        matches!(self, TypeReflectionInfo::ListType { .. })
    }

    /// Get the element type if this is a collection
    pub fn element_type(&self) -> (r: Option<&TypeReflectionInfo>)
        ensures
            match r {
                Some(t) => self matches TypeReflectionInfo::ListType { element_type } && *t
                    == *element_type,
                None => !(self matches TypeReflectionInfo::ListType { .. }),
            },
    {
        match self {
            TypeReflectionInfo::ListType { element_type } => Some(element_type),
            _ => None,
        }
    }

    /// Create a simple type
    pub fn simple_type(namespace: &str, name: &str) -> (r: TypeReflectionInfo)
        ensures
            r matches TypeReflectionInfo::SimpleType { namespace: ns, name: n, base_type: b } && ns@
                == namespace@ && n@ == name@ && b is None,
    {
        TypeReflectionInfo::SimpleType {
            namespace: namespace.to_owned(),
            name: name.to_owned(),
            base_type: None,
        }
    }

    /// Create a simple type with base type
    pub fn simple_type_with_base(namespace: &str, name: &str, base_type: &str) -> (r:
        TypeReflectionInfo)
        ensures
            r matches TypeReflectionInfo::SimpleType { namespace: ns, name: n, base_type: b } && ns@
                == namespace@ && n@ == name@ && (b matches Some(bs) && bs@ == base_type@),
    {
        TypeReflectionInfo::SimpleType {
            namespace: namespace.to_owned(),
            name: name.to_owned(),
            base_type: Some(base_type.to_owned()),
        }
    }

    /// Create a class type
    pub fn class_type(namespace: &str, name: &str, elements: Vec<ElementInfo>) -> (r:
        TypeReflectionInfo)
        ensures
            r matches TypeReflectionInfo::ClassInfo {
                namespace: ns,
                name: n,
                base_type: b,
                elements: es,
            } && ns@ == namespace@ && n@ == name@ && b is None && es == elements,
    {
        TypeReflectionInfo::ClassInfo {
            namespace: namespace.to_owned(),
            name: name.to_owned(),
            base_type: None,
            elements,
        }
    }

    /// Create a list type
    pub fn list_type(element_type: TypeReflectionInfo) -> (r: TypeReflectionInfo)
        ensures
            r matches TypeReflectionInfo::ListType { element_type: e } && *e == element_type,
    {
        TypeReflectionInfo::ListType { element_type: Box::new(element_type) }
    }

    /// Create a tuple type
    pub fn tuple_type(elements: Vec<TupleElementInfo>) -> (r: TypeReflectionInfo)
        ensures
            r matches TypeReflectionInfo::TupleType { elements: es } && es == elements,
    {
        TypeReflectionInfo::TupleType { elements }
    }
}

impl ElementInfo {
    /// Create a new element info with optional 0..1 cardinality and no flags set.
    pub fn new(name: &str, type_info: TypeReflectionInfo) -> (r: ElementInfo)
        ensures
            r.name@ == name@,
            r.type_info == type_info,
            r.min_cardinality == 0,
            r.max_cardinality == Some(1u32),
            !r.is_modifier,
            !r.is_summary,
            !r.is_one_based,
            r.documentation is None,
    {
        ElementInfo {
            name: name.to_owned(),
            type_info,
            min_cardinality: 0,
            max_cardinality: Some(1),
            is_modifier: false,
            is_summary: false,
            is_one_based: false,
            documentation: None,
        }
    }

    /// Set cardinality
    pub fn with_cardinality(self, min: u32, max: Option<u32>) -> (r: ElementInfo)
        ensures
            r == (ElementInfo { min_cardinality: min, max_cardinality: max, ..self }),
    {
        let mut r = self;
        r.min_cardinality = min;
        r.max_cardinality = max;
        r
    }

    /// Mark as modifier element
    pub fn with_modifier(self) -> (r: ElementInfo)
        ensures
            r == (ElementInfo { is_modifier: true, ..self }),
    {
        let mut r = self;
        r.is_modifier = true;
        r
    }

    /// Mark as summary element
    pub fn with_summary(self) -> (r: ElementInfo)
        ensures
            r == (ElementInfo { is_summary: true, ..self }),
    {
        let mut r = self;
        r.is_summary = true;
        r
    }

    /// Add documentation
    pub fn with_documentation(self, doc: &str) -> (r: ElementInfo)
        ensures
            r.documentation matches Some(d) && d@ == doc@,
            r == (ElementInfo { documentation: r.documentation, ..self }),
    {
        let mut r = self;
        r.documentation = Some(doc.to_owned());
        r
    }

    /// Mark as one-based indexed
    pub fn with_one_based(self) -> (r: ElementInfo)
        ensures
            r == (ElementInfo { is_one_based: true, ..self }),
    {
        let mut r = self;
        r.is_one_based = true;
        r
    }

    /// Check if this element is required (min > 0)
    pub fn is_required(&self) -> (r: bool)
        ensures
            r == (self.min_cardinality > 0),
    {
        self.min_cardinality > 0
    }

    /// Check if this element can have multiple values
    pub fn is_multiple(&self) -> (r: bool)
        ensures
            r == match self.max_cardinality {
                Some(m) => m > 1,
                None => true,
            },
    {
        match self.max_cardinality {
            Some(m) => m > 1,
            None => true,
        }
    }
}

impl TupleElementInfo {
    /// Create a new tuple element info
    pub fn new(name: &str, type_info: TypeReflectionInfo) -> (r: TupleElementInfo)
        ensures
            r.name@ == name@,
            r.type_info == type_info,
            !r.is_one_based,
    {
        TupleElementInfo { name: name.to_owned(), type_info, is_one_based: false }
    }

    /// Mark as one-based indexed
    pub fn with_one_based(self) -> (r: TupleElementInfo)
        ensures
            r == (TupleElementInfo { is_one_based: true, ..self }),
    {
        let mut r = self;
        r.is_one_based = true;
        r
    }
}

impl TypeHierarchy {
    /// Create a new type hierarchy with no recorded relatives.
    pub fn new(root_type: &str) -> (r: TypeHierarchy)
        ensures
            r.root_type@ == root_type@,
            r.parents@ =~= Seq::<String>::empty(),
            r.children@ =~= Seq::<String>::empty(),
            r.descendants@ =~= Seq::<String>::empty(),
    {
        TypeHierarchy {
            root_type: root_type.to_owned(),
            parents: Vec::new(),
            children: Vec::new(),
            descendants: Vec::new(),
        }
    }

    /// Add a parent type, keeping the parent list free of duplicates.
    pub fn add_parent(&mut self, parent: &str)
        ensures
            final(self).root_type == old(self).root_type,
            final(self).children == old(self).children,
            final(self).descendants == old(self).descendants,
            seq_has_str(final(self).parents@, parent@),
            seq_has_str(old(self).parents@, parent@) ==> *final(self) == *old(self),
            forall|t: Seq<char>|
                seq_has_str(final(self).parents@, t) <==> (seq_has_str(old(self).parents@, t) || t
                    == parent@),
    {
        if !vec_has_str(&self.parents, parent) {
            let ghost before = self.parents@;
            let owned = parent.to_owned();
            proof {
                lemma_push_has_str(before, owned);
            }
            self.parents.push(owned);
        }
    }

    /// Add a child type; a child seen for the first time is recorded among
    /// the descendants too.
    pub fn add_child(&mut self, child: &str)
        ensures
            final(self).root_type == old(self).root_type,
            final(self).parents == old(self).parents,
            seq_has_str(final(self).children@, child@),
            seq_has_str(old(self).children@, child@) ==> *final(self) == *old(self),
            !seq_has_str(old(self).children@, child@) ==> seq_has_str(
                final(self).descendants@,
                child@,
            ),
            forall|t: Seq<char>|
                seq_has_str(final(self).children@, t) <==> (seq_has_str(old(self).children@, t) || t
                    == child@),
            forall|t: Seq<char>|
                seq_has_str(final(self).descendants@, t) <==> (seq_has_str(
                    old(self).descendants@,
                    t,
                ) || (t == child@ && !seq_has_str(old(self).children@, child@))),
    {
        if !vec_has_str(&self.children, child) {
            let ghost cb = self.children@;
            let owned = child.to_owned();
            proof {
                lemma_push_has_str(cb, owned);
            }
            self.children.push(owned);
            if !vec_has_str(&self.descendants, child) {
                let ghost db = self.descendants@;
                let owned2 = child.to_owned();
                proof {
                    lemma_push_has_str(db, owned2);
                }
                self.descendants.push(owned2);
            }
        }
    }

    /// Check if a type is an ancestor
    pub fn is_ancestor(&self, typename: &str) -> (r: bool)
        ensures
            r == seq_has_str(self.parents@, typename@),
    {
        vec_has_str(&self.parents, typename)
    }

    /// Check if a type is a descendant
    pub fn is_descendant(&self, typename: &str) -> (r: bool)
        ensures
            r == seq_has_str(self.descendants@, typename@),
    {
        vec_has_str(&self.descendants, typename)
    }
}

impl TypeSuggestion {
    /// Create a new type suggestion; the relevance score is given in
    /// hundredths (0 to 100).
    pub fn new(typename: &str, kind: &str, namespace: &str, relevance_score: u32) -> (r:
        TypeSuggestion)
        ensures
            r.typename@ == typename@,
            r.kind@ == kind@,
            r.namespace@ == namespace@,
            r.relevance_score == relevance_score,
            r.description is None,
    {
        let owned_name = typename.to_owned();
        TypeSuggestion {
            typename: owned_name,
            kind: kind.to_owned(),
            description: None,
            relevance_score,
            namespace: namespace.to_owned(),
        }
    }

    /// Add description
    pub fn with_description(self, description: &str) -> (r: TypeSuggestion)
        ensures
            r.description matches Some(d) && d@ == description@,
            r == (TypeSuggestion { description: r.description, ..self }),
    {
        let mut r = self;
        r.description = Some(description.to_owned());
        r
    }
}


impl TypeReflectionInfo {
    /// Structural equivalence of two type descriptors: same shape and the
    /// same character content in every name, namespace and base type.
    pub open spec fn eqv(self, other: TypeReflectionInfo) -> bool
        decreases self,
    {
        match (self, other) {
            (
                TypeReflectionInfo::SimpleType { namespace: ns1, name: n1, base_type: b1 },
                TypeReflectionInfo::SimpleType { namespace: ns2, name: n2, base_type: b2 },
            ) => ns1@ == ns2@ && n1@ == n2@ && opt_str_eqv(b1, b2),
            (
                TypeReflectionInfo::ClassInfo { namespace: ns1, name: n1, base_type: b1, elements: e1 },
                TypeReflectionInfo::ClassInfo { namespace: ns2, name: n2, base_type: b2, elements: e2 },
            ) => ns1@ == ns2@ && n1@ == n2@ && opt_str_eqv(b1, b2) && e1@.len() == e2@.len()
                && forall|i: int| #![trigger e1@[i]] 0 <= i < e1@.len() ==> e1@[i].eqv(e2@[i]),
            (
                TypeReflectionInfo::ListType { element_type: t1 },
                TypeReflectionInfo::ListType { element_type: t2 },
            ) => t1.eqv(*t2),
            (
                TypeReflectionInfo::TupleType { elements: e1 },
                TypeReflectionInfo::TupleType { elements: e2 },
            ) => e1@.len() == e2@.len() && forall|i: int|
                #![trigger e1@[i]]
                0 <= i < e1@.len() ==> e1@[i].eqv(e2@[i]),
            _ => false,
        }
    }

    /// Structural equality test matching `eqv`.
    #[verifier::loop_isolation(false)]
    pub fn deep_eq(&self, other: &TypeReflectionInfo) -> (r: bool)
        ensures
            r == self.eqv(*other),
        decreases *self,
    {
        match (self, other) {
            (
                TypeReflectionInfo::SimpleType { namespace: ns1, name: n1, base_type: b1 },
                TypeReflectionInfo::SimpleType { namespace: ns2, name: n2, base_type: b2 },
            ) => str_eq(ns1.as_str(), ns2.as_str()) && str_eq(n1.as_str(), n2.as_str())
                && opt_str_eq(b1, b2),
            (
                TypeReflectionInfo::ClassInfo { namespace: ns1, name: n1, base_type: b1, elements: e1 },
                TypeReflectionInfo::ClassInfo { namespace: ns2, name: n2, base_type: b2, elements: e2 },
            ) => {
                if !(str_eq(ns1.as_str(), ns2.as_str()) && str_eq(n1.as_str(), n2.as_str())
                    && opt_str_eq(b1, b2) && e1.len() == e2.len()) {
                    false
                } else {
                    let mut i: usize = 0;
                    let mut ok = true;
                    while i < e1.len() && ok
                        invariant
                            i <= e1@.len(),
                            e1@.len() == e2@.len(),
                            ok ==> forall|j: int| #![trigger e1@[j]] 0 <= j < i ==> e1@[j].eqv(
                                e2@[j],
                            ),
                            !ok ==> exists|j: int|
                                #![trigger e1@[j]]
                                0 <= j < e1@.len() && !e1@[j].eqv(e2@[j]),
                        decreases e1@.len() - i,
                    {
                        proof {
                            assert(decreases_to!(*self => e1@[i as int]));
                        }
                        if !e1[i].elem_eq(&e2[i]) {
                            ok = false;
                        }
                        i += 1;
                    }
                    ok
                }
            },
            (
                TypeReflectionInfo::ListType { element_type: t1 },
                TypeReflectionInfo::ListType { element_type: t2 },
            ) => t1.deep_eq(t2),
            (
                TypeReflectionInfo::TupleType { elements: e1 },
                TypeReflectionInfo::TupleType { elements: e2 },
            ) => {
                if e1.len() != e2.len() {
                    false
                } else {
                    let mut i: usize = 0;
                    let mut ok = true;
                    while i < e1.len() && ok
                        invariant
                            i <= e1@.len(),
                            e1@.len() == e2@.len(),
                            ok ==> forall|j: int| #![trigger e1@[j]] 0 <= j < i ==> e1@[j].eqv(
                                e2@[j],
                            ),
                            !ok ==> exists|j: int|
                                #![trigger e1@[j]]
                                0 <= j < e1@.len() && !e1@[j].eqv(e2@[j]),
                        decreases e1@.len() - i,
                    {
                        proof {
                            assert(decreases_to!(*self => e1@[i as int]));
                        }
                        if !e1[i].tuple_elem_eq(&e2[i]) {
                            ok = false;
                        }
                        i += 1;
                    }
                    ok
                }
            },
            _ => false,
        }
    }

    /// Build an equivalent copy of this descriptor.
    #[verifier::loop_isolation(false)]
    pub fn duplicate(&self) -> (r: TypeReflectionInfo)
        ensures
            r.eqv(*self),
        decreases *self,
    {
        match self {
            TypeReflectionInfo::SimpleType { namespace, name, base_type } => {
                TypeReflectionInfo::SimpleType {
                    namespace: namespace.clone(),
                    name: name.clone(),
                    base_type: opt_str_clone(base_type),
                }
            },
            TypeReflectionInfo::ClassInfo { namespace, name, base_type, elements } => {
                let mut es: Vec<ElementInfo> = Vec::new();
                let mut i: usize = 0;
                while i < elements.len()
                    invariant
                        i <= elements@.len(),
                        es@.len() == i,
                        forall|j: int| #![trigger es@[j]] 0 <= j < i ==> es@[j].eqv(elements@[j]),
                    decreases elements@.len() - i,
                {
                    proof {
                        assert(decreases_to!(*self => elements@[i as int]));
                    }
                    es.push(elements[i].elem_duplicate());
                    i += 1;
                }
                let out = TypeReflectionInfo::ClassInfo {
                    namespace: namespace.clone(),
                    name: name.clone(),
                    base_type: opt_str_clone(base_type),
                    elements: es,
                };
                out
            },
            TypeReflectionInfo::ListType { element_type } => {
                TypeReflectionInfo::ListType { element_type: Box::new(element_type.duplicate()) }
            },
            TypeReflectionInfo::TupleType { elements } => {
                let mut es: Vec<TupleElementInfo> = Vec::new();
                let mut i: usize = 0;
                while i < elements.len()
                    invariant
                        i <= elements@.len(),
                        es@.len() == i,
                        forall|j: int| #![trigger es@[j]] 0 <= j < i ==> es@[j].eqv(elements@[j]),
                    decreases elements@.len() - i,
                {
                    proof {
                        assert(decreases_to!(*self => elements@[i as int]));
                    }
                    es.push(elements[i].tuple_elem_duplicate());
                    i += 1;
                }
                TypeReflectionInfo::TupleType { elements: es }
            },
        }
    }
}

impl Clone for TypeReflectionInfo {
    /// The clone is structurally equivalent to the original.
    fn clone(&self) -> (r: Self)
        ensures
            r.eqv(*self),
    {
        self.duplicate()
    }
}

impl ElementInfo {
    /// Equivalence of two class elements: equal names, flags, cardinalities,
    /// documentation and equivalent types.
    pub open spec fn eqv(self, other: ElementInfo) -> bool
        decreases self,
    {
        self.name@ == other.name@ && self.type_info.eqv(other.type_info)
            && self.min_cardinality == other.min_cardinality && self.max_cardinality
            == other.max_cardinality && self.is_modifier == other.is_modifier && self.is_summary
            == other.is_summary && self.is_one_based == other.is_one_based && opt_str_eqv(
            self.documentation,
            other.documentation,
        )
    }

    /// Structural equality test matching `eqv`.
    pub fn elem_eq(&self, other: &ElementInfo) -> (r: bool)
        ensures
            r == self.eqv(*other),
        decreases *self,
    {
        str_eq(self.name.as_str(), other.name.as_str()) && self.type_info.deep_eq(&other.type_info)
            && self.min_cardinality == other.min_cardinality && opt_u32_eq(
            &self.max_cardinality,
            &other.max_cardinality,
        ) && self.is_modifier == other.is_modifier && self.is_summary == other.is_summary
            && self.is_one_based == other.is_one_based && opt_str_eq(
            &self.documentation,
            &other.documentation,
        )
    }

    /// Build an equivalent copy of this element.
    pub fn elem_duplicate(&self) -> (r: ElementInfo)
        ensures
            r.eqv(*self),
        decreases *self,
    {
        ElementInfo {
            name: self.name.clone(),
            type_info: self.type_info.duplicate(),
            min_cardinality: self.min_cardinality,
            max_cardinality: self.max_cardinality,
            is_modifier: self.is_modifier,
            is_summary: self.is_summary,
            is_one_based: self.is_one_based,
            documentation: opt_str_clone(&self.documentation),
        }
    }
}

impl Clone for ElementInfo {
    /// The clone is structurally equivalent to the original.
    fn clone(&self) -> (r: Self)
        ensures
            r.eqv(*self),
    {
        self.elem_duplicate()
    }
}

impl TupleElementInfo {
    /// Equivalence of two tuple elements.
    pub open spec fn eqv(self, other: TupleElementInfo) -> bool
        decreases self,
    {
        self.name@ == other.name@ && self.type_info.eqv(other.type_info) && self.is_one_based
            == other.is_one_based
    }

    /// Structural equality test matching `eqv`.
    pub fn tuple_elem_eq(&self, other: &TupleElementInfo) -> (r: bool)
        ensures
            r == self.eqv(*other),
        decreases *self,
    {
        str_eq(self.name.as_str(), other.name.as_str()) && self.type_info.deep_eq(&other.type_info)
            && self.is_one_based == other.is_one_based
    }

    /// Build an equivalent copy of this tuple element.
    pub fn tuple_elem_duplicate(&self) -> (r: TupleElementInfo)
        ensures
            r.eqv(*self),
        decreases *self,
    {
        TupleElementInfo {
            name: self.name.clone(),
            type_info: self.type_info.duplicate(),
            is_one_based: self.is_one_based,
        }
    }
}

impl Clone for TupleElementInfo {
    /// The clone is structurally equivalent to the original.
    fn clone(&self) -> (r: Self)
        ensures
            r.eqv(*self),
    {
        self.tuple_elem_duplicate()
    }
}

/// Equality of two optional strings by character content.
pub fn opt_str_eq(a: &Option<String>, b: &Option<String>) -> (r: bool)
    ensures
        r == opt_str_eqv(*a, *b),
{
    match (a, b) {
        (Some(x), Some(y)) => str_eq(x.as_str(), y.as_str()),
        (None, None) => true,
        _ => false,
    }
}

/// Copy an optional string, keeping its character content.
pub fn opt_str_clone(a: &Option<String>) -> (r: Option<String>)
    ensures
        opt_str_eqv(r, *a),
{
    match a {
        Some(x) => Some(x.clone()),
        None => None,
    }
}

/// Equality of two optional numbers.
pub fn opt_u32_eq(a: &Option<u32>, b: &Option<u32>) -> (r: bool)
    ensures
        r == (*a == *b),
{
    match (a, b) {
        (Some(x), Some(y)) => x == y,
        (None, None) => true,
        _ => false,
    }
}


impl TypeReflectionInfo {
    /// Get elements if this is a class type
    pub fn elements(&self) -> (r: Vec<&ElementInfo>)
        ensures
            match *self {
                TypeReflectionInfo::ClassInfo { elements, .. } => r@.len() == elements@.len()
                    && forall|i: int| #![trigger r@[i]] 0 <= i < r@.len() ==> r@[i] == elements@[i],
                _ => r@.len() == 0,
            },
    {
        match self {
            TypeReflectionInfo::ClassInfo { elements, .. } => {
                let mut r: Vec<&ElementInfo> = Vec::new();
                let mut i: usize = 0;
                while i < elements.len()
                    invariant
                        i <= elements@.len(),
                        r@.len() == i,
                        forall|j: int| #![trigger r@[j]] 0 <= j < i ==> r@[j] == elements@[j],
                    decreases elements@.len() - i,
                {
                    r.push(&elements[i]);
                    i += 1;
                }
                r
            },
            _ => Vec::new(),
        }
    }

    /// Get tuple elements if this is a tuple type
    pub fn tuple_elements(&self) -> (r: Vec<&TupleElementInfo>)
        ensures
            match *self {
                TypeReflectionInfo::TupleType { elements } => r@.len() == elements@.len()
                    && forall|i: int| #![trigger r@[i]] 0 <= i < r@.len() ==> r@[i] == elements@[i],
                _ => r@.len() == 0,
            },
    {
        match self {
            TypeReflectionInfo::TupleType { elements } => {
                let mut r: Vec<&TupleElementInfo> = Vec::new();
                let mut i: usize = 0;
                while i < elements.len()
                    invariant
                        i <= elements@.len(),
                        r@.len() == i,
                        forall|j: int| #![trigger r@[j]] 0 <= j < i ==> r@[j] == elements@[j],
                    decreases elements@.len() - i,
                {
                    r.push(&elements[i]);
                    i += 1;
                }
                r
            },
            _ => Vec::new(),
        }
    }

    /// Find the first declared element with the given name, for class types.
    #[verifier::loop_isolation(false)]
    pub fn find_element(&self, name: &str) -> (r: Option<&ElementInfo>)
        ensures
            match r {
                Some(e) => *self matches TypeReflectionInfo::ClassInfo { elements, .. }
                    && (exists|i: int|
                    #![trigger elements@[i]]
                    0 <= i < elements@.len() && elements@[i] == *e && elements@[i].name@ == name@
                        && forall|j: int| 0 <= j < i ==> elements@[j].name@ != name@),
                None => match *self {
                    TypeReflectionInfo::ClassInfo { elements, .. } => forall|i: int|
                        #![trigger elements@[i]]
                        0 <= i < elements@.len() ==> elements@[i].name@ != name@,
                    _ => true,
                },
            },
    {
        match self {
            TypeReflectionInfo::ClassInfo { elements, .. } => {
                let mut i: usize = 0;
                while i < elements.len()
                    invariant
                        i <= elements@.len(),
                        forall|j: int| #![trigger elements@[j]] 0 <= j < i ==> elements@[j].name@
                            != name@,
                    decreases elements@.len() - i,
                {
                    if str_eq(elements[i].name.as_str(), name) {
                        proof {
                            assert(elements@[i as int].name@ == name@);
                        }
                        return Some(&elements[i]);
                    }
                    i += 1;
                }
                None
            },
            _ => None,
        }
    }

    /// The fully qualified name: `namespace.name` for named types (the bare
    /// name when the namespace is empty), `List<...>` for lists, and
    /// `{ a: T, ... }` for tuples.
    pub open spec fn spec_qualified_name(self) -> Seq<char>
        decreases self,
    {
        match self {
            TypeReflectionInfo::SimpleType { namespace, name, .. } => if namespace@.len() == 0 {
                name@
            } else {
                namespace@ + "."@ + name@
            },
            TypeReflectionInfo::ClassInfo { namespace, name, .. } => if namespace@.len() == 0 {
                name@
            } else {
                namespace@ + "."@ + name@
            },
            TypeReflectionInfo::ListType { element_type } => "List<"@
                + element_type.spec_qualified_name() + ">"@,
            TypeReflectionInfo::TupleType { elements } => "{ "@
                + TypeReflectionInfo::spec_tuple_parts(elements@, 0) + " }"@,
        }
    }

    /// The comma-separated `name: type` parts of a tuple name, from index `i` on.
    pub open spec fn spec_tuple_parts(elems: Seq<TupleElementInfo>, i: int) -> Seq<char>
        decreases elems, elems.len() - i,
    {
        if i < 0 || i >= elems.len() {
            Seq::empty()
        } else if i == elems.len() - 1 {
            elems[i].name@ + ": "@ + elems[i].type_info.spec_qualified_name()
        } else {
            elems[i].name@ + ": "@ + elems[i].type_info.spec_qualified_name() + ", "@
                + TypeReflectionInfo::spec_tuple_parts(elems, i + 1)
        }
    }

    /// Get the fully qualified type name
    #[verifier::loop_isolation(false)]
    pub fn qualified_name(&self) -> (r: String)
        ensures
            r@ == self.spec_qualified_name(),
        decreases *self,
    {
        match self {
            TypeReflectionInfo::SimpleType { namespace, name, .. } => {
                let mut s = String::new();
                if !str_eq(namespace.as_str(), "") {
                    s.append(namespace.as_str());
                    s.append(".");
                }
                s.append(name.as_str());
                proof {
                    reveal_strlit("");
                    if namespace@.len() == 0 {
                        assert(namespace@ =~= ""@);
                    }
                    assert(s@ =~= self.spec_qualified_name());
                }
                s
            },
            TypeReflectionInfo::ClassInfo { namespace, name, .. } => {
                let mut s = String::new();
                if !str_eq(namespace.as_str(), "") {
                    s.append(namespace.as_str());
                    s.append(".");
                }
                s.append(name.as_str());
                proof {
                    reveal_strlit("");
                    if namespace@.len() == 0 {
                        assert(namespace@ =~= ""@);
                    }
                    assert(s@ =~= self.spec_qualified_name());
                }
                s
            },
            TypeReflectionInfo::ListType { element_type } => {
                let inner = element_type.qualified_name();
                let mut s = String::new();
                s.append("List<");
                s.append(inner.as_str());
                s.append(">");
                proof {
                    assert(s@ =~= self.spec_qualified_name());
                }
                s
            },
            TypeReflectionInfo::TupleType { elements } => {
                let mut s = String::new();
                s.append("{ ");
                let mut i: usize = 0;
                while i < elements.len()
                    invariant
                        i <= elements@.len(),
                        s@ + TypeReflectionInfo::spec_tuple_parts(elements@, i as int) == "{ "@
                            + TypeReflectionInfo::spec_tuple_parts(elements@, 0),
                    decreases elements@.len() - i,
                {
                    proof {
                        assert(decreases_to!(*self => elements@[i as int].type_info));
                    }
                    let q = elements[i].type_info.qualified_name();
                    s.append(elements[i].name.as_str());
                    s.append(": ");
                    s.append(q.as_str());
                    if i + 1 < elements.len() {
                        s.append(", ");
                    }
                    proof {
                        assert(s@ + TypeReflectionInfo::spec_tuple_parts(elements@, i + 1) =~= "{ "@
                            + TypeReflectionInfo::spec_tuple_parts(elements@, 0));
                    }
                    i += 1;
                }
                s.append(" }");
                proof {
                    assert(s@ =~= self.spec_qualified_name());
                }
                s
            },
        }
    }

    /// The immediate base type as a one-element chain, or nothing.
    pub fn get_ancestors(&self) -> (r: Vec<String>)
        ensures
            match self.spec_base_type() {
                Some(b) => r@.len() == 1 && r@[0]@ == b,
                None => r@.len() == 0,
            },
    {
        let mut ancestors: Vec<String> = Vec::new();
        if let Some(base) = self.base_type() {
            ancestors.push(base.to_owned());
        }
        ancestors
    }

    /// A type is a subtype of a parent when it carries the parent's name or
    /// declares it as its base type.
    pub open spec fn spec_is_subtype_of(self, parent: Seq<char>) -> bool {
        self.spec_name() == parent || self.spec_base_type() == Some(parent)
    }

    /// Check if this type is a subtype of another
    pub fn is_subtype_of(&self, parent_type: &str) -> (r: bool)
        ensures
            r == self.spec_is_subtype_of(parent_type@),
    {
        if str_eq(self.name(), parent_type) {
            return true;
        }
        if let Some(base) = self.base_type() {
            if str_eq(base, parent_type) {
                return true;
            }
        }
        false
    }

    /// The most specific common type: one of the two when they are
    /// equivalent or one subsumes the other, the canonical String type for
    /// two primitives, the canonical Element type for two FHIR types, and
    /// absent otherwise.
    pub fn common_supertype(&self, other: &TypeReflectionInfo) -> (r: Option<TypeReflectionInfo>)
        ensures
            ({
                if self.eqv(*other) {
                    r matches Some(t) && t.eqv(*self)
                } else if self.spec_is_subtype_of(other.spec_name()) {
                    r matches Some(t) && t.eqv(*other)
                } else if other.spec_is_subtype_of(self.spec_name()) {
                    r matches Some(t) && t.eqv(*self)
                } else if self.spec_is_primitive() && other.spec_is_primitive() {
                    r matches Some(t) && t matches TypeReflectionInfo::SimpleType {
                        namespace: ns,
                        name: n,
                        base_type: b,
                    } && ns@ == "System"@ && n@ == "String"@ && b is None
                } else if self.spec_is_fhir_type() && other.spec_is_fhir_type() {
                    r matches Some(t) && t matches TypeReflectionInfo::SimpleType {
                        namespace: ns,
                        name: n,
                        base_type: b,
                    } && ns@ == "FHIR"@ && n@ == "Element"@ && b is None
                } else {
                    r is None
                }
            }),
    {
        if self.deep_eq(other) {
            return Some(self.duplicate());
        }
        if self.is_subtype_of(other.name()) {
            return Some(other.duplicate());
        }
        if other.is_subtype_of(self.name()) {
            return Some(self.duplicate());
        }
        if self.is_primitive() && other.is_primitive() {
            return Some(TypeReflectionInfo::simple_type("System", "String"));
        }
        if self.is_fhir_type() && other.is_fhir_type() {
            return Some(TypeReflectionInfo::simple_type("FHIR", "Element"));
        }
        None
    }

    /// Check if this type can be used as a collection element
    pub fn is_valid_collection_element(&self) -> (r: bool)
        ensures
            r == (self matches TypeReflectionInfo::SimpleType { .. } || self matches
            TypeReflectionInfo::ClassInfo { .. }),
    {
        match self {
            TypeReflectionInfo::SimpleType { .. } => true,
            TypeReflectionInfo::ClassInfo { .. } => true,
            TypeReflectionInfo::ListType { .. } => false,
            TypeReflectionInfo::TupleType { .. } => false,
        }
    }

    /// The default textual value of a System primitive, if it has one.
    pub open spec fn spec_default_value(self) -> Option<Seq<char>> {
        if self.spec_is_primitive() {
            if self.spec_name() == "Boolean"@ {
                Some("false"@)
            } else if self.spec_name() == "Integer"@ {
                Some("0"@)
            } else if self.spec_name() == "Decimal"@ {
                Some("0.0"@)
            } else if self.spec_name() == "String"@ {
                Some(""@)
            } else {
                None
            }
        } else {
            None
        }
    }

    /// Get default value for this type (if applicable)
    pub fn default_value(&self) -> (r: Option<String>)
        ensures
            match (r, self.spec_default_value()) {
                (Some(a), Some(b)) => a@ == b,
                (None, None) => true,
                _ => false,
            },
    {
        if let TypeReflectionInfo::SimpleType { namespace, name, .. } = self {
            if str_eq(namespace.as_str(), "System") {
                if str_eq(name.as_str(), "Boolean") {
                    return Some("false".to_owned());
                }
                if str_eq(name.as_str(), "Integer") {
                    return Some("0".to_owned());
                }
                if str_eq(name.as_str(), "Decimal") {
                    return Some("0.0".to_owned());
                }
                if str_eq(name.as_str(), "String") {
                    return Some("".to_owned());
                }
            }
        }
        None
    }

    /// FHIR types whose values need special treatment during evaluation.
    pub open spec fn spec_requires_special_handling(self) -> bool {
        self matches TypeReflectionInfo::SimpleType { .. } && self.spec_namespace() == Some("FHIR"@)
            && (self.spec_name() == "Quantity"@ || self.spec_name() == "Coding"@
            || self.spec_name() == "CodeableConcept"@ || self.spec_name() == "Reference"@
            || self.spec_name() == "DateTime"@ || self.spec_name() == "Date"@ || self.spec_name()
            == "Time"@)
    }

    /// Check if this type requires special handling
    pub fn requires_special_handling(&self) -> (r: bool)
        ensures
            r == self.spec_requires_special_handling(),
    {
        match self {
            TypeReflectionInfo::SimpleType { namespace, name, .. } => {
                str_eq(namespace.as_str(), "FHIR") && (str_eq(name.as_str(), "Quantity") || str_eq(
                    name.as_str(),
                    "Coding",
                ) || str_eq(name.as_str(), "CodeableConcept") || str_eq(name.as_str(), "Reference")
                    || str_eq(name.as_str(), "DateTime") || str_eq(name.as_str(), "Date") || str_eq(
                    name.as_str(),
                    "Time",
                ))
            },
            _ => false,
        }
    }
}


impl TypeReflectionInfo {
    /// The fixed safe conversions between System primitives, from first
    /// name to second.
    pub open spec fn spec_sys_compat(f: Seq<char>, t: Seq<char>) -> bool {
        ||| (f == "Integer"@ && t == "Decimal"@)
        ||| (f == "Integer"@ && t == "String"@)
        ||| (f == "Decimal"@ && t == "String"@)
        ||| (f == "Boolean"@ && t == "String"@)
        ||| (f == "Date"@ && t == "DateTime"@)
        ||| (f == "DateTime"@ && t == "String"@)
        ||| (f == "Date"@ && t == "String"@)
        ||| (f == "Time"@ && t == "String"@)
    }

    fn sys_compat(from_type: &str, to_type: &str) -> (r: bool)
        ensures
            r == TypeReflectionInfo::spec_sys_compat(from_type@, to_type@),
    {
        (str_eq(from_type, "Integer") && str_eq(to_type, "Decimal")) || (str_eq(from_type, "Integer")
            && str_eq(to_type, "String")) || (str_eq(from_type, "Decimal") && str_eq(
            to_type,
            "String",
        )) || (str_eq(from_type, "Boolean") && str_eq(to_type, "String")) || (str_eq(
            from_type,
            "Date",
        ) && str_eq(to_type, "DateTime")) || (str_eq(from_type, "DateTime") && str_eq(
            to_type,
            "String",
        )) || (str_eq(from_type, "Date") && str_eq(to_type, "String")) || (str_eq(from_type, "Time")
            && str_eq(to_type, "String"))
    }

    /// Compatibility of this type with another: equivalence, a declared base
    /// type carrying the other's name, element-wise compatibility of two
    /// lists, or a safe System conversion between two System primitives.
    pub open spec fn spec_is_compatible_with(self, other: TypeReflectionInfo) -> bool
        decreases self,
    {
        if self.eqv(other) {
            true
        } else {
            match self {
                TypeReflectionInfo::SimpleType { namespace: ns1, name: n1, base_type } => {
                    match base_type {
                        Some(b) => b@ == other.spec_name(),
                        None => match other {
                            TypeReflectionInfo::SimpleType { namespace: ns2, name: n2, .. } => ns1@
                                == "System"@ && ns2@ == "System"@
                                && TypeReflectionInfo::spec_sys_compat(n1@, n2@),
                            _ => false,
                        },
                    }
                },
                TypeReflectionInfo::ClassInfo { base_type, .. } => match base_type {
                    Some(b) => b@ == other.spec_name(),
                    None => false,
                },
                TypeReflectionInfo::ListType { element_type: e1 } => match other {
                    TypeReflectionInfo::ListType { element_type: e2 } => e1.spec_is_compatible_with(
                        *e2,
                    ),
                    _ => false,
                },
                TypeReflectionInfo::TupleType { .. } => false,
            }
        }
    }

    /// Check if this type is compatible with another type
    pub fn is_compatible_with(&self, other: &TypeReflectionInfo) -> (r: bool)
        ensures
            r == self.spec_is_compatible_with(*other),
        decreases *self,
    {
        if self.deep_eq(other) {
            return true;
        }
        match self {
            TypeReflectionInfo::SimpleType { namespace: ns1, name: n1, base_type } => {
                match base_type {
                    Some(b) => str_eq(b.as_str(), other.name()),
                    None => match other {
                        TypeReflectionInfo::SimpleType { namespace: ns2, name: n2, .. } => {
                            str_eq(ns1.as_str(), "System") && str_eq(ns2.as_str(), "System")
                                && TypeReflectionInfo::sys_compat(n1.as_str(), n2.as_str())
                        },
                        _ => false,
                    },
                }
            },
            TypeReflectionInfo::ClassInfo { base_type, .. } => match base_type {
                Some(b) => str_eq(b.as_str(), other.name()),
                None => false,
            },
            TypeReflectionInfo::ListType { element_type: e1 } => match other {
                TypeReflectionInfo::ListType { element_type: e2 } => e1.is_compatible_with(e2),
                _ => false,
            },
            TypeReflectionInfo::TupleType { .. } => false,
        }
    }

    /// An ordered type supports the comparison operators.
    pub open spec fn spec_is_ordered_type(self) -> bool {
        self.spec_is_primitive() && (self.spec_name() == "Integer"@ || self.spec_name()
            == "Decimal"@ || self.spec_name() == "Date"@ || self.spec_name() == "DateTime"@
            || self.spec_name() == "Time"@ || self.spec_name() == "String"@)
    }

    /// Check if this is an ordered type (supports <, >, etc.)
    pub fn is_ordered_type(&self) -> (r: bool)
        ensures
            r == self.spec_is_ordered_type(),
    {
        self.is_primitive() && (str_eq(self.name(), "Integer") || str_eq(self.name(), "Decimal")
            || str_eq(self.name(), "Date") || str_eq(self.name(), "DateTime") || str_eq(
            self.name(),
            "Time",
        ) || str_eq(self.name(), "String"))
    }

    /// A numeric type supports arithmetic.
    pub open spec fn spec_is_numeric_type(self) -> bool {
        self.spec_is_primitive() && (self.spec_name() == "Integer"@ || self.spec_name()
            == "Decimal"@)
    }

    /// Check if this is a numeric type
    pub fn is_numeric_type(&self) -> (r: bool)
        ensures
            r == self.spec_is_numeric_type(),
    {
        self.is_primitive() && (str_eq(self.name(), "Integer") || str_eq(self.name(), "Decimal"))
    }

    /// The Boolean type supports the logical operators.
    pub open spec fn spec_is_boolean_type(self) -> bool {
        self.spec_is_primitive() && self.spec_name() == "Boolean"@
    }

    /// Check if this is a boolean type
    pub fn is_boolean_type(&self) -> (r: bool)
        ensures
            r == self.spec_is_boolean_type(),
    {
        self.is_primitive() && str_eq(self.name(), "Boolean")
    }

    /// Which operations this type supports with one operand: equality and
    /// membership for every type, comparison only for ordered types,
    /// arithmetic only for numeric types, logic only for Boolean, and the
    /// type tests for every type.
    pub open spec fn spec_supports_operation(self, op: Seq<char>, operands: nat) -> bool {
        if op == "="@ || op == "!="@ || op == "~"@ || op == "!~"@ {
            operands == 1
        } else if op == "<"@ || op == "<="@ || op == ">"@ || op == ">="@ {
            self.spec_is_ordered_type() && operands == 1
        } else if op == "+"@ || op == "-"@ || op == "*"@ || op == "/"@ {
            self.spec_is_numeric_type() && operands == 1
        } else if op == "and"@ || op == "or"@ || op == "xor"@ {
            self.spec_is_boolean_type() && operands == 1
        } else if op == "in"@ || op == "contains"@ {
            operands == 1
        } else if op == "is"@ || op == "as"@ {
            operands == 1
        } else {
            false
        }
    }

    /// Check if this type supports a specific operation with given operand types
    pub fn supports_operation(&self, operation: &str, operand_types: &[String]) -> (r: bool)
        ensures
            r == self.spec_supports_operation(operation@, operand_types@.len() as nat),
    {
        let one = operand_types.len() == 1;
        if str_eq(operation, "=") || str_eq(operation, "!=") || str_eq(operation, "~") || str_eq(
            operation,
            "!~",
        ) {
            one
        } else if str_eq(operation, "<") || str_eq(operation, "<=") || str_eq(operation, ">")
            || str_eq(operation, ">=") {
            self.is_ordered_type() && one
        } else if str_eq(operation, "+") || str_eq(operation, "-") || str_eq(operation, "*")
            || str_eq(operation, "/") {
            self.is_numeric_type() && one
        } else if str_eq(operation, "and") || str_eq(operation, "or") || str_eq(operation, "xor") {
            self.is_boolean_type() && one
        } else if str_eq(operation, "in") || str_eq(operation, "contains") {
            one
        } else if str_eq(operation, "is") || str_eq(operation, "as") {
            one
        } else {
            false
        }
    }

    /// The extra System conversions a primitive name brings along.
    pub open spec fn spec_prim_extras(name: Seq<char>) -> Seq<Seq<char>> {
        if name == "Integer"@ {
            seq!["System.Decimal"@, "System.String"@]
        } else if name == "Decimal"@ {
            seq!["System.String"@]
        } else if name == "Boolean"@ {
            seq!["System.String"@]
        } else if name == "Date"@ {
            seq!["System.DateTime"@, "System.String"@]
        } else if name == "DateTime"@ {
            seq!["System.String"@]
        } else if name == "Time"@ {
            seq!["System.String"@]
        } else {
            Seq::empty()
        }
    }

    /// Every name this type can be converted to: its own qualified name, its
    /// base type, the safe System conversions of a primitive, and always the
    /// canonical String type, without duplicating it.
    pub open spec fn spec_compatible_types(self) -> Seq<Seq<char>> {
        let s0 = seq![self.spec_qualified_name()];
        let s1 = match self.spec_base_type() {
            Some(b) => s0.push(b),
            None => s0,
        };
        let s2 = if self.spec_is_primitive() {
            s1 + TypeReflectionInfo::spec_prim_extras(self.spec_name())
        } else {
            s1
        };
        if seqs_has(s2, "System.String"@) {
            s2
        } else {
            s2.push("System.String"@)
        }
    }

    /// Get all type names that this type is compatible with
    #[verifier::loop_isolation(false)]
    pub fn get_compatible_types(&self) -> (r: Vec<String>)
        ensures
            views_of(r@) == self.spec_compatible_types(),
    {
        let mut compatible: Vec<String> = Vec::new();
        compatible.push(self.qualified_name());
        if let Some(base) = self.base_type() {
            compatible.push(base.to_owned());
        }
        if self.is_primitive() {
            if str_eq(self.name(), "Integer") {
                compatible.push("System.Decimal".to_owned());
                compatible.push("System.String".to_owned());
            } else if str_eq(self.name(), "Decimal") {
                compatible.push("System.String".to_owned());
            } else if str_eq(self.name(), "Boolean") {
                compatible.push("System.String".to_owned());
            } else if str_eq(self.name(), "Date") {
                compatible.push("System.DateTime".to_owned());
                compatible.push("System.String".to_owned());
            } else if str_eq(self.name(), "DateTime") {
                compatible.push("System.String".to_owned());
            } else if str_eq(self.name(), "Time") {
                compatible.push("System.String".to_owned());
            }
        }
        proof {
            let s2 = if self.spec_is_primitive() {
                (match self.spec_base_type() {
                    Some(b) => seq![self.spec_qualified_name()].push(b),
                    None => seq![self.spec_qualified_name()],
                }) + TypeReflectionInfo::spec_prim_extras(self.spec_name())
            } else {
                match self.spec_base_type() {
                    Some(b) => seq![self.spec_qualified_name()].push(b),
                    None => seq![self.spec_qualified_name()],
                }
            };
            assert(views_of(compatible@) =~= s2);
            lemma_views_has(compatible@, "System.String"@);
        }
        if !vec_has_str(&compatible, "System.String") {
            compatible.push("System.String".to_owned());
            proof {
                assert(views_of(compatible@) =~= self.spec_compatible_types());
            }
        } else {
            proof {
                assert(views_of(compatible@) =~= self.spec_compatible_types());
            }
        }
        compatible
    }

    /// A safe promotion between System primitives, by qualified target name.
    pub open spec fn spec_sys_promotion(self, target: Seq<char>) -> bool {
        self.spec_is_primitive() && ((self.spec_name() == "Integer"@ && target == "System.Decimal"@)
            || (self.spec_name() == "Date"@ && target == "System.DateTime"@))
    }

    fn is_system_type_promotion(&self, target_type: &str) -> (r: bool)
        ensures
            r == self.spec_sys_promotion(target_type@),
    {
        if !self.is_primitive() {
            return false;
        }
        (str_eq(self.name(), "Integer") && str_eq(target_type, "System.Decimal")) || (str_eq(
            self.name(),
            "Date",
        ) && str_eq(target_type, "System.DateTime"))
    }

    /// The function that performs a conversion, when one is needed.
    pub open spec fn spec_conversion_function(self, target: Seq<char>) -> Option<Seq<char>> {
        if self.spec_is_primitive() && target == "System.String"@ {
            Some("toString"@)
        } else if spec_str_contains(target, "Integer"@) {
            Some("toInteger"@)
        } else if spec_str_contains(target, "Decimal"@) {
            Some("toDecimal"@)
        } else if spec_str_contains(target, "Boolean"@) {
            Some("toBoolean"@)
        } else {
            None
        }
    }

    fn get_conversion_function(&self, target_type: &str) -> (r: Option<String>)
        ensures
            match (r, self.spec_conversion_function(target_type@)) {
                (Some(a), Some(b)) => a@ == b,
                (None, None) => true,
                _ => false,
            },
    {
        if self.is_primitive() && str_eq(target_type, "System.String") {
            Some("toString".to_owned())
        } else if str_contains(target_type, "Integer") {
            Some("toInteger".to_owned())
        } else if str_contains(target_type, "Decimal") {
            Some("toDecimal".to_owned())
        } else if str_contains(target_type, "Boolean") {
            Some("toBoolean".to_owned())
        } else {
            None
        }
    }

    /// Whether converting to the target can lose information.
    pub open spec fn spec_conversion_may_lose_data(self, target: Seq<char>) -> bool {
        ||| (self.spec_name() == "Decimal"@ && target == "System.Integer"@)
        ||| (self.spec_name() == "DateTime"@ && target == "System.Date"@)
        ||| (self.spec_name() == "String"@ && target != "System.String"@)
    }

    fn conversion_may_lose_data(&self, target_type: &str) -> (r: bool)
        ensures
            r == self.spec_conversion_may_lose_data(target_type@),
    {
        (str_eq(self.name(), "Decimal") && str_eq(target_type, "System.Integer")) || (str_eq(
            self.name(),
            "DateTime",
        ) && str_eq(target_type, "System.Date")) || (str_eq(self.name(), "String") && !str_eq(
            target_type,
            "System.String",
        ))
    }

    /// Whether the string-to-integer validation rule applies.
    pub open spec fn spec_needs_int_parse_rule(self, target: Seq<char>) -> bool {
        spec_str_contains(target, "Integer"@) && self.spec_name() == "String"@
    }

    fn get_conversion_validation_rules(&self, target_type: &str) -> (r: Vec<ValidationRule>)
        ensures
            self.spec_needs_int_parse_rule(target_type@) ==> r@.len() == 1 && r@[0].rule_id@
                == "string-to-integer"@ && r@[0].description@ == "String must contain valid integer"@
                && (r@[0].validation_expression matches Some(e) && e@
                == "matches('^-?\\\\d+$')"@) && r@[0].error_message@ == "Invalid integer format"@,
            !self.spec_needs_int_parse_rule(target_type@) ==> r@.len() == 0,
    {
        let mut rules: Vec<ValidationRule> = Vec::new();
        if str_contains(target_type, "Integer") && str_eq(self.name(), "String") {
            rules.push(
                ValidationRule {
                    rule_id: "string-to-integer".to_owned(),
                    description: "String must contain valid integer".to_owned(),
                    validation_expression: Some("matches('^-?\\\\d+$')".to_owned()),
                    error_message: "Invalid integer format".to_owned(),
                },
            );
        }
        rules
    }

    /// The cost of a conversion in hundredths: free for the identical type,
    /// 10 for the Integer promotion, 20 for a String conversion, 50 for
    /// parsing from String, and 30 otherwise.
    pub open spec fn spec_conversion_cost(self, target: Seq<char>) -> u32 {
        if self.spec_name() == target || self.spec_qualified_name() == target {
            0u32
        } else if self.spec_name() == "Integer"@ && target == "System.Decimal"@ {
            10u32
        } else if target == "System.String"@ {
            20u32
        } else if self.spec_name() == "String"@ {
            50u32
        } else {
            30u32
        }
    }

    fn get_conversion_cost(&self, target_type: &str) -> (r: u32)
        ensures
            r == self.spec_conversion_cost(target_type@),
    {
        if str_eq(self.name(), target_type) || str_eq(self.qualified_name().as_str(), target_type) {
            0
        } else if str_eq(self.name(), "Integer") && str_eq(target_type, "System.Decimal") {
            10
        } else if str_eq(target_type, "System.String") {
            20
        } else if str_eq(self.name(), "String") {
            50
        } else {
            30
        }
    }

    /// The kind of conversion used for a reachable target: identity is
    /// implicit, a primitive to the canonical String type goes through a
    /// function, a safe System promotion is implicit, and anything else
    /// needs an explicit cast.
    pub open spec fn spec_conversion_kind(self, target: Seq<char>) -> ConversionType {
        if self.spec_qualified_name() == target {
            ConversionType::Implicit
        } else if self.spec_is_primitive() && target == "System.String"@ {
            ConversionType::Function
        } else if self.spec_sys_promotion(target) {
            ConversionType::Implicit
        } else {
            ConversionType::Explicit
        }
    }

    /// Check if this type can be converted to the target type, and describe
    /// the conversion; an unreachable target is reported as forbidden.
    pub fn can_convert_to(&self, target_type: &str) -> (r: ConversionInfo)
        ensures
            seqs_has(self.spec_compatible_types(), target_type@) ==> {
                &&& r.conversion_type == self.spec_conversion_kind(target_type@)
                &&& match (r.conversion_function, self.spec_conversion_function(target_type@)) {
                    (Some(a), Some(b)) => a@ == b,
                    (None, None) => true,
                    _ => false,
                }
                &&& r.data_loss_possible == self.spec_conversion_may_lose_data(target_type@)
                &&& r.performance_cost == self.spec_conversion_cost(target_type@)
                &&& self.spec_needs_int_parse_rule(target_type@) ==> r.validation_rules@.len() == 1
                &&& !self.spec_needs_int_parse_rule(target_type@) ==> r.validation_rules@.len() == 0
            },
            !seqs_has(self.spec_compatible_types(), target_type@) ==> {
                &&& r.conversion_type == ConversionType::Forbidden
                &&& r.conversion_function is None
                &&& !r.data_loss_possible
                &&& r.validation_rules@.len() == 0
                &&& r.performance_cost == 0
            },
    {
        let compatible_types = self.get_compatible_types();
        proof {
            lemma_views_has(compatible_types@, target_type@);
        }
        if vec_has_str(&compatible_types, target_type) {
            let conversion_type = if str_eq(self.qualified_name().as_str(), target_type) {
                ConversionType::Implicit
            } else if self.is_primitive() && str_eq(target_type, "System.String") {
                ConversionType::Function
            } else if self.is_system_type_promotion(target_type) {
                ConversionType::Implicit
            } else {
                ConversionType::Explicit
            };
            ConversionInfo {
                conversion_type,
                conversion_function: self.get_conversion_function(target_type),
                data_loss_possible: self.conversion_may_lose_data(target_type),
                validation_rules: self.get_conversion_validation_rules(target_type),
                performance_cost: self.get_conversion_cost(target_type),
            }
        } else {
            ConversionInfo {
                conversion_type: ConversionType::Forbidden,
                conversion_function: None,
                data_loss_possible: false,
                validation_rules: Vec::new(),
                performance_cost: 0,
            }
        }
    }
}


impl TypeReflectionInfo {
    /// The derived types listed for well-known FHIR names.
    pub open spec fn spec_fhir_variant_names(self) -> Seq<Seq<char>> {
        if self.spec_is_fhir_type() {
            if self.spec_name() == "Resource"@ {
                seq!["DomainResource"@]
            } else if self.spec_name() == "DomainResource"@ {
                seq!["Patient"@, "Observation"@, "Practitioner"@]
            } else if self.spec_name() == "Element"@ {
                seq!["BackboneElement"@]
            } else {
                Seq::empty()
            }
        } else {
            Seq::empty()
        }
    }

    /// All polymorphic variants: the type itself, a simple type for its
    /// declared base in the same namespace, and the well-known derived FHIR
    /// types for FHIR base names.
    pub fn get_polymorphic_variants(&self) -> (r: Vec<TypeReflectionInfo>)
        ensures
            ({
                let base_n: int = if self.spec_base_type() is Some {
                    2int
                } else {
                    1int
                };
                let extras = self.spec_fhir_variant_names();
                &&& r@.len() == base_n + extras.len()
                &&& r@[0].eqv(*self)
                &&& (self.spec_base_type() matches Some(b) ==> (r@[1] matches
                TypeReflectionInfo::SimpleType { namespace: ns, name: n, base_type: bt } && n@ == b
                    && bt is None && ns@ == match self.spec_namespace() {
                    Some(x) => x,
                    None => Seq::<char>::empty(),
                }))
                &&& forall|k: int|
                    0 <= k < extras.len() ==> (#[trigger] r@[base_n + k] matches
                    TypeReflectionInfo::SimpleType { namespace: ns, name: n, base_type: bt } && ns@
                        == "FHIR"@ && n@ == extras[k] && bt is None)
            }),
    {
        let mut variants: Vec<TypeReflectionInfo> = Vec::new();
        variants.push(self.duplicate());
        if let Some(base) = self.base_type() {
            let ns = match self.namespace() {
                Some(n) => n,
                None => "",
            };
            proof {
                reveal_strlit("");
            }
            variants.push(TypeReflectionInfo::simple_type(ns, base));
        }
        if self.is_fhir_type() {
            if str_eq(self.name(), "Resource") {
                variants.push(TypeReflectionInfo::simple_type("FHIR", "DomainResource"));
            } else if str_eq(self.name(), "DomainResource") {
                variants.push(TypeReflectionInfo::simple_type("FHIR", "Patient"));
                variants.push(TypeReflectionInfo::simple_type("FHIR", "Observation"));
                variants.push(TypeReflectionInfo::simple_type("FHIR", "Practitioner"));
            } else if str_eq(self.name(), "Element") {
                variants.push(TypeReflectionInfo::simple_type("FHIR", "BackboneElement"));
            }
        }
        variants
    }

    /// Index of the first compatible name that is among the available types,
    /// or -1 when none is: the candidate list keeps its priority order.
    pub open spec fn spec_first_avail_compat(compat: Seq<Seq<char>>, avail: Seq<String>) -> int
    decreases compat.len(),
    {
    if compat.len() == 0 {
        -1
    } else if seq_has_str(avail, compat[0]) {
        0
    } else {
        let rest = TypeReflectionInfo::spec_first_avail_compat(compat.drop_first(), avail);
        if rest == -1 {
            -1
        } else {
            rest + 1
        }
    }
    }

    /// The first available compatible index is a real hit and nothing before it
    /// is one.
    pub proof fn lemma_first_avail_compat(compat: Seq<Seq<char>>, avail: Seq<String>)
    ensures
        TypeReflectionInfo::spec_first_avail_compat(compat, avail) == -1 ==> forall|i: int|
            0 <= i < compat.len() ==> !seq_has_str(avail, #[trigger] compat[i]),
        TypeReflectionInfo::spec_first_avail_compat(compat, avail) != -1 ==> {
            let i = TypeReflectionInfo::spec_first_avail_compat(compat, avail);
            &&& 0 <= i < compat.len()
            &&& seq_has_str(avail, compat[i])
            &&& forall|j: int| 0 <= j < i ==> !seq_has_str(avail, #[trigger] compat[j])
        },
    decreases compat.len(),
    {
    if compat.len() == 0 {
    } else {
        TypeReflectionInfo::lemma_first_avail_compat(compat.drop_first(), avail);
        if seq_has_str(avail, compat[0]) {
        } else {
            let rest = TypeReflectionInfo::spec_first_avail_compat(compat.drop_first(), avail);
            if rest == -1 {
                assert forall|i: int| 0 <= i < compat.len() implies !seq_has_str(
                    avail,
                    #[trigger] compat[i],
                ) by {
                    if i > 0 {
                        assert(compat.drop_first()[i - 1] == compat[i]);
                    }
                }
            } else {
                assert(compat.drop_first()[rest] == compat[rest + 1]);
                assert forall|j: int| 0 <= j < rest + 1 implies !seq_has_str(
                    avail,
                    #[trigger] compat[j],
                ) by {
                    if j > 0 {
                        assert(compat.drop_first()[j - 1] == compat[j]);
                    }
                }
            }
        }
    }
    }

    /// The first inference hint of the given kind whose suggested type is
    /// among the available types.
    pub open spec fn spec_first_hint(
        hints: Seq<InferenceHint>,
        kind: InferenceHintType,
        avail: Seq<String>,
    ) -> Option<Seq<char>>
        decreases hints.len(),
    {
        if hints.len() == 0 {
            None
        } else if hints[0].hint_type == kind && seq_has_str(avail, hints[0].suggested_type@) {
            Some(hints[0].suggested_type@)
        } else {
            TypeReflectionInfo::spec_first_hint(hints.drop_first(), kind, avail)
        }
    }

    /// The suggestion with the strictly highest confidence among hints whose
    /// suggested type is available, ties going to the earliest; suggestions
    /// never beat a confidence of zero.
    pub open spec fn spec_best_conf(
        hints: Seq<InferenceHint>,
        avail: Seq<String>,
        i: int,
        best: Option<Seq<char>>,
        bc: u32,
    ) -> Option<Seq<char>>
        decreases hints.len() - i,
    {
        if i < 0 || i >= hints.len() {
            best
        } else if seq_has_str(avail, hints[i].suggested_type@) && hints[i].confidence > bc {
            TypeReflectionInfo::spec_best_conf(
                hints,
                avail,
                i + 1,
                Some(hints[i].suggested_type@),
                hints[i].confidence,
            )
        } else {
            TypeReflectionInfo::spec_best_conf(hints, avail, i + 1, best, bc)
        }
    }

    /// What choice resolution yields for this type in a context: the type
    /// itself when available, else the first available compatible name, else
    /// whatever the context's strategy picks.
    pub open spec fn spec_resolve_choice_type(self, ctx: PolymorphicContext) -> Option<Seq<char>> {
        let qn = self.spec_qualified_name();
        let avail = ctx.available_types@;
        if seq_has_str(avail, qn) {
            Some(qn)
        } else {
            let compat = self.spec_compatible_types();
            let ci = TypeReflectionInfo::spec_first_avail_compat(compat, avail);
            if ci != -1 {
                Some(compat[ci])
            } else {
                match ctx.resolution_strategy {
                    ResolutionStrategy::FirstMatch => if avail.len() > 0 {
                        Some(avail[0]@)
                    } else {
                        None
                    },
                    ResolutionStrategy::MostSpecific => {
                        let si = first_str_where(
                            avail,
                            |t: Seq<char>|
                                !spec_str_contains(t, "Element"@) && !spec_str_contains(
                                    t,
                                    "Resource"@,
                                ),
                        );
                        if si != -1 {
                            Some(avail[si]@)
                        } else if avail.len() > 0 {
                            Some(avail[0]@)
                        } else {
                            None
                        }
                    },
                    ResolutionStrategy::MostCommon => TypeReflectionInfo::spec_first_hint(
                        ctx.inference_hints@,
                        InferenceHintType::Statistical,
                        avail,
                    ),
                    ResolutionStrategy::ContextInferred => TypeReflectionInfo::spec_first_hint(
                        ctx.inference_hints@,
                        InferenceHintType::Contextual,
                        avail,
                    ),
                    ResolutionStrategy::ExplicitOnly => None,
                    ResolutionStrategy::ConfidenceBased => TypeReflectionInfo::spec_best_conf(
                        ctx.inference_hints@,
                        avail,
                        0,
                        None,
                        0,
                    ),
                }
            }
        }
    }

    /// Resolve choice type based on polymorphic context
    #[verifier::loop_isolation(false)]
    pub fn resolve_choice_type(&self, context: &PolymorphicContext) -> (r: Option<String>)
        ensures
            match (r, self.spec_resolve_choice_type(*context)) {
                (Some(a), Some(b)) => a@ == b,
                (None, None) => true,
                _ => false,
            },
    {
        let qn = self.qualified_name();
        if vec_has_str(&context.available_types, qn.as_str()) {
            return Some(qn);
        }
        let compatible = self.get_compatible_types();
        let ghost compat = self.spec_compatible_types();
        proof {
            TypeReflectionInfo::lemma_first_avail_compat(compat, context.available_types@);
        }
        let mut i: usize = 0;
        while i < compatible.len()
            invariant
                i <= compat.len(),
                compat.len() == compatible@.len(),
                forall|j: int| 0 <= j < i ==> !seq_has_str(context.available_types@, #[trigger] compat[j]),
            decreases compat.len() - i,
        {
            proof {
                assert(compat[i as int] == compatible@[i as int]@);
            }
            if vec_has_str(&context.available_types, compatible[i].as_str()) {
                proof {
                    let f = TypeReflectionInfo::spec_first_avail_compat(
                        compat,
                        context.available_types@,
                    );
                    assert(seq_has_str(context.available_types@, compat[i as int]));
                    assert(f != -1);
                    if f < i {
                        assert(!seq_has_str(context.available_types@, compat[f]));
                    } else if f > i {
                        assert(!seq_has_str(context.available_types@, compat[i as int]));
                    }
                }
                return Some(compatible[i].clone());
            }
            i += 1;
        }
        match context.resolution_strategy {
            ResolutionStrategy::FirstMatch => {
                if context.available_types.len() > 0 {
                    Some(context.available_types[0].clone())
                } else {
                    None
                }
            },
            ResolutionStrategy::MostSpecific => self.find_most_specific_type(
                &context.available_types,
            ),
            ResolutionStrategy::MostCommon => self.find_most_common_type(context),
            ResolutionStrategy::ContextInferred => self.infer_from_context(context),
            ResolutionStrategy::ExplicitOnly => None,
            ResolutionStrategy::ConfidenceBased => self.find_highest_confidence_type(context),
        }
    }

    /// The first available name that does not look like an abstract root
    /// (one containing "Element" or "Resource"), else the first available.
    #[verifier::loop_isolation(false)]
    fn find_most_specific_type(&self, available_types: &Vec<String>) -> (r: Option<String>)
        ensures
            ({
                let si = first_str_where(
                    available_types@,
                    |t: Seq<char>|
                        !spec_str_contains(t, "Element"@) && !spec_str_contains(t, "Resource"@),
                );
                match r {
                    Some(a) => (si != -1 && a@ == available_types@[si]@) || (si == -1
                        && available_types@.len() > 0 && a@ == available_types@[0]@),
                    None => si == -1 && available_types@.len() == 0,
                }
            }),
    {
        let ghost pred = |t: Seq<char>|
            !spec_str_contains(t, "Element"@) && !spec_str_contains(t, "Resource"@);
        proof {
            lemma_first_str_where(available_types@, pred);
        }
        let mut i: usize = 0;
        while i < available_types.len()
            invariant
                i <= available_types@.len(),
                forall|j: int| 0 <= j < i ==> !pred(#[trigger] available_types@[j]@),
            decreases available_types@.len() - i,
        {
            if !str_contains(available_types[i].as_str(), "Element") && !str_contains(
                available_types[i].as_str(),
                "Resource",
            ) {
                proof {
                    assert(pred(available_types@[i as int]@));
                    let f = first_str_where(available_types@, pred);
                    assert(f != -1);
                    if f < i {
                        assert(!pred(available_types@[f]@));
                    } else if f > i {
                        assert(!pred(available_types@[i as int]@));
                    }
                }
                return Some(available_types[i].clone());
            }
            i += 1;
        }
        if available_types.len() > 0 {
            Some(available_types[0].clone())
        } else {
            None
        }
    }

    /// The first statistical hint whose suggestion is available.
    fn find_most_common_type(&self, context: &PolymorphicContext) -> (r: Option<String>)
        ensures
            match (
                r,
                TypeReflectionInfo::spec_first_hint(
                    context.inference_hints@,
                    InferenceHintType::Statistical,
                    context.available_types@,
                ),
            ) {
                (Some(a), Some(b)) => a@ == b,
                (None, None) => true,
                _ => false,
            },
    {
        first_matching_hint(context, InferenceHintType::Statistical)
    }

    /// The first contextual hint whose suggestion is available.
    fn infer_from_context(&self, context: &PolymorphicContext) -> (r: Option<String>)
        ensures
            match (
                r,
                TypeReflectionInfo::spec_first_hint(
                    context.inference_hints@,
                    InferenceHintType::Contextual,
                    context.available_types@,
                ),
            ) {
                (Some(a), Some(b)) => a@ == b,
                (None, None) => true,
                _ => false,
            },
    {
        first_matching_hint(context, InferenceHintType::Contextual)
    }

    /// The available suggestion with the strictly highest confidence.
    fn find_highest_confidence_type(&self, context: &PolymorphicContext) -> (r: Option<String>)
        ensures
            match (
                r,
                TypeReflectionInfo::spec_best_conf(
                    context.inference_hints@,
                    context.available_types@,
                    0,
                    None,
                    0,
                ),
            ) {
                (Some(a), Some(b)) => a@ == b,
                (None, None) => true,
                _ => false,
            },
    {
        let mut best: Option<String> = None;
        let mut best_confidence: u32 = 0;
        let mut i: usize = 0;
        while i < context.inference_hints.len()
            invariant
                i <= context.inference_hints@.len(),
                TypeReflectionInfo::spec_best_conf(
                    context.inference_hints@,
                    context.available_types@,
                    i as int,
                    match best {
                        Some(b) => Some(b@),
                        None => None,
                    },
                    best_confidence,
                ) == TypeReflectionInfo::spec_best_conf(
                    context.inference_hints@,
                    context.available_types@,
                    0,
                    None,
                    0,
                ),
            decreases context.inference_hints@.len() - i,
        {
            let hint = &context.inference_hints[i];
            if vec_has_str(&context.available_types, hint.suggested_type.as_str())
                && hint.confidence > best_confidence {
                best = Some(hint.suggested_type.clone());
                best_confidence = hint.confidence;
            }
            i += 1;
        }
        best
    }

    /// The textual validation rules for this type: the System and FHIR
    /// primitive rules, and one "required" rule per mandatory class element.
    pub open spec fn spec_validation_rules(self) -> Seq<Seq<char>> {
        match self {
            TypeReflectionInfo::SimpleType { namespace, name, .. } => {
                if namespace@ == "System"@ {
                    if name@ == "Integer"@ {
                        seq!["Must be a valid integer"@]
                    } else if name@ == "Decimal"@ {
                        seq!["Must be a valid decimal number"@]
                    } else if name@ == "Boolean"@ {
                        seq!["Must be true or false"@]
                    } else if name@ == "String"@ {
                        seq!["Must be a valid string"@]
                    } else {
                        Seq::empty()
                    }
                } else if namespace@ == "FHIR"@ {
                    if name@ == "id"@ {
                        seq!["Must match pattern [A-Za-z0-9\\-\\.]{1,64}"@]
                    } else if name@ == "uri"@ {
                        seq!["Must be a valid URI"@]
                    } else if name@ == "url"@ {
                        seq!["Must be a valid URL"@]
                    } else if name@ == "code"@ {
                        seq!["Must be a valid code"@]
                    } else {
                        Seq::empty()
                    }
                } else {
                    Seq::empty()
                }
            },
            TypeReflectionInfo::ClassInfo { elements, .. } => TypeReflectionInfo::spec_required_rules(
                elements@,
            ),
            _ => Seq::empty(),
        }
    }

    /// One "required" message per element with a minimum cardinality above
    /// zero, in declaration order.
    pub open spec fn spec_required_rules(elems: Seq<ElementInfo>) -> Seq<Seq<char>>
        decreases elems.len(),
    {
        if elems.len() == 0 {
            Seq::empty()
        } else {
            let rest = TypeReflectionInfo::spec_required_rules(elems.drop_last());
            if elems.last().min_cardinality > 0 {
                rest.push("Element '"@ + elems.last().name@ + "' is required"@)
            } else {
                rest
            }
        }
    }

    /// Get validation rules for this type
    #[verifier::loop_isolation(false)]
    pub fn validation_rules(&self) -> (r: Vec<String>)
        ensures
            views_of(r@) == self.spec_validation_rules(),
    {
        let mut rules: Vec<String> = Vec::new();
        match self {
            TypeReflectionInfo::SimpleType { namespace, name, .. } => {
                if str_eq(namespace.as_str(), "System") {
                    if str_eq(name.as_str(), "Integer") {
                        rules.push("Must be a valid integer".to_owned());
                    } else if str_eq(name.as_str(), "Decimal") {
                        rules.push("Must be a valid decimal number".to_owned());
                    } else if str_eq(name.as_str(), "Boolean") {
                        rules.push("Must be true or false".to_owned());
                    } else if str_eq(name.as_str(), "String") {
                        rules.push("Must be a valid string".to_owned());
                    }
                } else if str_eq(namespace.as_str(), "FHIR") {
                    if str_eq(name.as_str(), "id") {
                        rules.push("Must match pattern [A-Za-z0-9\\-\\.]{1,64}".to_owned());
                    } else if str_eq(name.as_str(), "uri") {
                        rules.push("Must be a valid URI".to_owned());
                    } else if str_eq(name.as_str(), "url") {
                        rules.push("Must be a valid URL".to_owned());
                    } else if str_eq(name.as_str(), "code") {
                        rules.push("Must be a valid code".to_owned());
                    }
                }
                proof {
                    assert(views_of(rules@) =~= self.spec_validation_rules());
                }
            },
            TypeReflectionInfo::ClassInfo { elements, .. } => {
                let mut i: usize = 0;
                while i < elements.len()
                    invariant
                        i <= elements@.len(),
                        views_of(rules@) == TypeReflectionInfo::spec_required_rules(
                            elements@.subrange(0, i as int),
                        ),
                    decreases elements@.len() - i,
                {
                    let ghost pre = elements@.subrange(0, i as int);
                    let ghost post = elements@.subrange(0, i as int + 1);
                    proof {
                        assert(post.drop_last() =~= pre);
                        assert(post.last() == elements@[i as int]);
                    }
                    if elements[i].is_required() {
                        let mut msg = String::new();
                        msg.append("Element '");
                        msg.append(elements[i].name.as_str());
                        msg.append("' is required");
                        rules.push(msg);
                        proof {
                            assert(views_of(rules@) =~= TypeReflectionInfo::spec_required_rules(
                                post,
                            ));
                        }
                    } else {
                        proof {
                            assert(views_of(rules@) =~= TypeReflectionInfo::spec_required_rules(
                                post,
                            ));
                        }
                    }
                    i += 1;
                }
                proof {
                    assert(elements@.subrange(0, elements@.len() as int) =~= elements@);
                    assert(views_of(rules@) =~= self.spec_validation_rules());
                }
            },
            _ => {
                proof {
                    assert(views_of(rules@) =~= self.spec_validation_rules());
                }
            },
        }
        rules
    }
}

/// The first hint of a kind whose suggested type is available in the context.
fn first_matching_hint(context: &PolymorphicContext, kind: InferenceHintType) -> (r: Option<String>)
    ensures
        match (
            r,
            TypeReflectionInfo::spec_first_hint(
                context.inference_hints@,
                kind,
                context.available_types@,
            ),
        ) {
            (Some(a), Some(b)) => a@ == b,
            (None, None) => true,
            _ => false,
        },
{
    proof {
        assert(context.inference_hints@.skip(0) =~= context.inference_hints@);
    }
    let mut i: usize = 0;
    while i < context.inference_hints.len()
        invariant
            i <= context.inference_hints@.len(),
            TypeReflectionInfo::spec_first_hint(
                context.inference_hints@.skip(i as int),
                kind,
                context.available_types@,
            ) == TypeReflectionInfo::spec_first_hint(
                context.inference_hints@,
                kind,
                context.available_types@,
            ),
        decreases context.inference_hints@.len() - i,
    {
        let hint = &context.inference_hints[i];
        proof {
            assert(context.inference_hints@.skip(i as int)[0] == context.inference_hints@[i as int]);
            assert(context.inference_hints@.skip(i as int).drop_first()
                =~= context.inference_hints@.skip(i as int + 1));
        }
        let kind_matches = match (&hint.hint_type, &kind) {
            (InferenceHintType::Statistical, InferenceHintType::Statistical) => true,
            (InferenceHintType::Contextual, InferenceHintType::Contextual) => true,
            (InferenceHintType::Constraint, InferenceHintType::Constraint) => true,
            (InferenceHintType::UserProvided, InferenceHintType::UserProvided) => true,
            (InferenceHintType::Default, InferenceHintType::Default) => true,
            _ => false,
        };
        if kind_matches && vec_has_str(&context.available_types, hint.suggested_type.as_str()) {
            return Some(hint.suggested_type.clone());
        }
        i += 1;
    }
    proof {
        assert(context.inference_hints@.skip(i as int).len() == 0);
    }
    None
}

} // verus!
