//! Model-facing type information and a built-in provider with a small,
//! fixed schema table for tests and defaults.

use vstd::prelude::*;

use crate::strutil::str_eq;

verus! {

/// Type information structure for model elements
#[derive(Debug, Clone, PartialEq)]
pub struct TypeInfo {
    /// Path-language type name ('Any', 'Boolean', 'String', 'Integer', etc.)
    pub typename: String,
    /// Single value vs collection (optional, defaults to true)
    pub singleton: Option<bool>,
    /// Indicates this is definitely an empty collection
    pub empty: Option<bool>,
    /// Model type namespace ('FHIR', 'System', etc.)
    pub namespace: Option<String>,
    /// Model type name (Patient, string, etc.)
    pub name: Option<String>,
}

impl TypeInfo {
    /// Create a singleton-or-not System type whose model name repeats the
    /// type name.
    pub fn system_type(typename: String, singleton: bool) -> (r: TypeInfo)
        ensures
            r.typename == typename,
            r.singleton == Some(singleton),
            r.empty == Some(false),
            (r.namespace matches Some(ns) && ns@ == "System"@),
            r.name == Some(typename),
    {
        let model_name = typename.clone();
        TypeInfo {
            typename,
            singleton: Some(singleton),
            empty: Some(false),
            namespace: Some("System".to_owned()),
            name: Some(model_name),
        }
    }
}

/// Element information for completion suggestions
#[derive(Debug, Clone, PartialEq)]
pub struct ElementInfo {
    /// Element name
    pub name: String,
    /// Element type
    pub element_type: String,
    /// Documentation/description
    pub documentation: Option<String>,
}

/// Choice type information for type-suffixed properties
#[derive(Debug, Clone, PartialEq)]
pub struct ChoiceTypeInfo {
    /// The suffix for the property (e.g., "String" for valueString)
    pub suffix: String,
    /// The model type name (e.g., "string")
    pub typename: String,
}

/// FHIR version enumeration
#[derive(Debug, Clone, PartialEq)]
pub enum FhirVersion {
    /// FHIR R4 (4.0.x)
    R4,
    /// FHIR R4B (4.3.x)
    R4B,
    /// FHIR R5 (5.0.x)
    R5,
    /// FHIR R6 (6.0.x)
    R6,
    /// Custom version
    Custom {
        /// Version identifier
        version: String,
    },
}

impl FhirVersion {
    /// The version label: the release name, or the custom identifier.
    pub fn label(&self) -> (r: String)
        ensures
            self == FhirVersion::R4 ==> r@ == "R4"@,
            self == FhirVersion::R4B ==> r@ == "R4B"@,
            self == FhirVersion::R5 ==> r@ == "R5"@,
            self == FhirVersion::R6 ==> r@ == "R6"@,
            (self matches FhirVersion::Custom { version } ==> r@ == version@),
    {
        match self {
            FhirVersion::R4 => "R4".to_owned(),
            FhirVersion::R4B => "R4B".to_owned(),
            FhirVersion::R5 => "R5".to_owned(),
            FhirVersion::R6 => "R6".to_owned(),
            FhirVersion::Custom { version } => version.clone(),
        }
    }
}

/// A model provider with a small fixed schema: a handful of resource,
/// complex and primitive types for tests and defaults.
#[derive(Debug, Clone, Default)]
pub struct EmptyModelProvider;

impl EmptyModelProvider {
    /// Whether the fixed table knows the type name.
    pub open spec fn spec_knows_type(name: Seq<char>) -> bool {
        ||| name == "Patient"@
        ||| name == "Observation"@
        ||| name == "Practitioner"@
        ||| name == "Organization"@
        ||| name == "Boolean"@
        ||| name == "String"@
        ||| name == "Integer"@
        ||| name == "Decimal"@
    }

    /// Look a type up: the four resource names yield FHIR types of kind
    /// Any, the four primitive names yield System types, and anything else
    /// is unknown.
    pub fn get_type(&self, typename: &str) -> (r: Option<TypeInfo>)
        ensures
            r is Some <==> EmptyModelProvider::spec_knows_type(typename@),
            r matches Some(t) ==> {
                &&& t.singleton == Some(true)
                &&& t.empty == Some(false)
                &&& (t.name matches Some(n) && n@ == typename@)
                &&& if typename@ == "Patient"@ || typename@ == "Observation"@ || typename@
                    == "Practitioner"@ || typename@ == "Organization"@ {
                    t.typename@ == "Any"@ && (t.namespace matches Some(ns) && ns@ == "FHIR"@)
                } else {
                    t.typename@ == typename@ && (t.namespace matches Some(ns) && ns@ == "System"@)
                }
            },
    {
        if str_eq(typename, "Patient") || str_eq(typename, "Observation") || str_eq(
            typename,
            "Practitioner",
        ) || str_eq(typename, "Organization") {
            Some(
                TypeInfo {
                    typename: "Any".to_owned(),
                    singleton: Some(true),
                    empty: Some(false),
                    namespace: Some("FHIR".to_owned()),
                    name: Some(typename.to_owned()),
                },
            )
        } else if str_eq(typename, "Boolean") || str_eq(typename, "String") || str_eq(
            typename,
            "Integer",
        ) || str_eq(typename, "Decimal") {
            Some(
                TypeInfo {
                    typename: typename.to_owned(),
                    singleton: Some(true),
                    empty: Some(false),
                    namespace: Some("System".to_owned()),
                    name: Some(typename.to_owned()),
                },
            )
        } else {
            None
        }
    }

    /// The model name the provider dispatches on: the `name` field when
    /// present, else the type name.
    pub open spec fn spec_model_name(t: TypeInfo) -> Seq<char> {
        match t.name {
            Some(n) => n@,
            None => t.typename@,
        }
    }

    /// The element type of a property in the fixed table: Patient.name is a
    /// collection of HumanName, HumanName.given a collection of String.
    pub fn get_element_type(&self, parent_type: &TypeInfo, property_name: &str) -> (r: Option<
        TypeInfo,
    >)
        ensures
            r is Some <==> ((EmptyModelProvider::spec_model_name(*parent_type) == "Patient"@
                && property_name@ == "name"@) || (EmptyModelProvider::spec_model_name(*parent_type)
                == "HumanName"@ && property_name@ == "given"@)),
            r matches Some(t) ==> if EmptyModelProvider::spec_model_name(*parent_type) == "Patient"@
                && property_name@ == "name"@ {
                t.typename@ == "Any"@ && t.singleton == Some(false) && (t.name matches Some(n) && n@
                    == "HumanName"@)
            } else {
                t.typename@ == "String"@ && t.singleton == Some(false) && (t.name matches Some(n)
                    && n@ == "String"@)
            },
    {
        let model_name = match &parent_type.name {
            Some(n) => n.as_str(),
            None => parent_type.typename.as_str(),
        };
        if str_eq(model_name, "Patient") && str_eq(property_name, "name") {
            Some(
                TypeInfo {
                    typename: "Any".to_owned(),
                    singleton: Some(false),
                    empty: Some(false),
                    namespace: Some("FHIR".to_owned()),
                    name: Some("HumanName".to_owned()),
                },
            )
        } else if str_eq(model_name, "HumanName") && str_eq(property_name, "given") {
            Some(
                TypeInfo {
                    typename: "String".to_owned(),
                    singleton: Some(false),
                    empty: Some(false),
                    namespace: Some("System".to_owned()),
                    name: Some("String".to_owned()),
                },
            )
        } else {
            None
        }
    }

    /// The fixed subtype relation: every type derives from itself; code, id
    /// and uri derive from string; Patient from DomainResource, and
    /// DomainResource from Resource.
    pub open spec fn spec_derived_from(derived: Seq<char>, base: Seq<char>) -> bool {
        ||| derived == base
        ||| ((derived == "code"@ || derived == "id"@ || derived == "uri"@) && base == "string"@)
        ||| (derived == "Patient"@ && base == "DomainResource"@)
        ||| (derived == "DomainResource"@ && base == "Resource"@)
    }

    /// Check if one type is derived from another in the fixed hierarchy.
    pub fn is_type_derived_from(&self, derived_type: &str, base_type: &str) -> (r: bool)
        ensures
            r == EmptyModelProvider::spec_derived_from(derived_type@, base_type@),
    {
        if str_eq(derived_type, base_type) {
            return true;
        }
        ((str_eq(derived_type, "code") || str_eq(derived_type, "id") || str_eq(derived_type, "uri"))
            && str_eq(base_type, "string")) || (str_eq(derived_type, "Patient") && str_eq(
            base_type,
            "DomainResource",
        )) || (str_eq(derived_type, "DomainResource") && str_eq(base_type, "Resource"))
    }

    /// Filter a type by a target name: the type itself when its type name
    /// or model name matches or derives from the target, absent otherwise.
    pub fn of_type(&self, type_info: &TypeInfo, target_type: &str) -> (r: Option<TypeInfo>)
        ensures
            ({
                let matches_target = type_info.typename@ == target_type@ || (type_info.name matches
                    Some(n) && (n@ == target_type@ || EmptyModelProvider::spec_derived_from(
                    n@,
                    target_type@,
                ))) || EmptyModelProvider::spec_derived_from(type_info.typename@, target_type@);
                match r {
                    Some(t) => matches_target && t == *type_info,
                    None => !matches_target,
                }
            }),
    {
        if str_eq(type_info.typename.as_str(), target_type) {
            return Some(clone_type_info(type_info));
        }
        if let Some(name) = &type_info.name {
            if str_eq(name.as_str(), target_type) {
                return Some(clone_type_info(type_info));
            }
            if self.is_type_derived_from(name.as_str(), target_type) {
                return Some(clone_type_info(type_info));
            }
        }
        if self.is_type_derived_from(type_info.typename.as_str(), target_type) {
            return Some(clone_type_info(type_info));
        }
        None
    }

    /// The declared element names of the types in the fixed table.
    pub fn get_element_names(&self, parent_type: &TypeInfo) -> (r: Vec<String>)
        ensures
            ({
                let m = EmptyModelProvider::spec_model_name(*parent_type);
                if m == "Patient"@ {
                    r@.len() == 4 && r@[0]@ == "id"@ && r@[1]@ == "name"@ && r@[2]@ == "gender"@
                        && r@[3]@ == "birthDate"@
                } else if m == "HumanName"@ {
                    r@.len() == 3 && r@[0]@ == "given"@ && r@[1]@ == "family"@ && r@[2]@ == "use"@
                } else if m == "Observation"@ {
                    r@.len() == 5 && r@[0]@ == "id"@ && r@[1]@ == "status"@ && r@[2]@ == "code"@
                        && r@[3]@ == "value"@ && r@[4]@ == "subject"@
                } else {
                    r@.len() == 0
                }
            }),
    {
        let model_name = match &parent_type.name {
            Some(n) => n.as_str(),
            None => parent_type.typename.as_str(),
        };
        let mut r: Vec<String> = Vec::new();
        if str_eq(model_name, "Patient") {
            r.push("id".to_owned());
            r.push("name".to_owned());
            r.push("gender".to_owned());
            r.push("birthDate".to_owned());
        } else if str_eq(model_name, "HumanName") {
            r.push("given".to_owned());
            r.push("family".to_owned());
            r.push("use".to_owned());
        } else if str_eq(model_name, "Observation") {
            r.push("id".to_owned());
            r.push("status".to_owned());
            r.push("code".to_owned());
            r.push("value".to_owned());
            r.push("subject".to_owned());
        }
        r
    }

    /// The singleton element type of a collection, or absent for singletons.
    pub fn get_children_type(&self, parent_type: &TypeInfo) -> (r: Option<TypeInfo>)
        ensures
            ({
                let is_singleton = match parent_type.singleton {
                    Some(s) => s,
                    None => true,
                };
                match r {
                    Some(t) => !is_singleton && t.typename == parent_type.typename && t.singleton
                        == Some(true) && t.namespace == parent_type.namespace && t.name
                        == parent_type.name,
                    None => is_singleton,
                }
            }),
    {
        let is_singleton = match parent_type.singleton {
            Some(s) => s,
            None => true,
        };
        if is_singleton {
            None
        } else {
            Some(
                TypeInfo {
                    typename: parent_type.typename.clone(),
                    singleton: Some(true),
                    empty: Some(false),
                    namespace: opt_string_clone(&parent_type.namespace),
                    name: opt_string_clone(&parent_type.name),
                },
            )
        }
    }

    /// The declared elements of the types in the fixed table, with their
    /// documentation.
    pub fn get_elements(&self, typename: &str) -> (r: Vec<ElementInfo>)
        ensures
            typename@ == "Patient"@ ==> r@.len() == 2 && r@[0].name@ == "id"@
                && r@[0].element_type@ == "id"@ && r@[1].name@ == "name"@ && r@[1].element_type@
                == "HumanName[]"@,
            typename@ != "Patient"@ ==> r@.len() == 0,
    {
        let mut r: Vec<ElementInfo> = Vec::new();
        if str_eq(typename, "Patient") {
            r.push(
                ElementInfo {
                    name: "id".to_owned(),
                    element_type: "id".to_owned(),
                    documentation: Some("Logical id of this artifact".to_owned()),
                },
            );
            r.push(
                ElementInfo {
                    name: "name".to_owned(),
                    element_type: "HumanName[]".to_owned(),
                    documentation: Some("A name associated with the patient".to_owned()),
                },
            );
        }
        r
    }

    /// The known resource type names.
    pub fn get_resource_types(&self) -> (r: Vec<String>)
        ensures
            r@.len() == 4,
            r@[0]@ == "Patient"@,
            r@[1]@ == "Observation"@,
            r@[2]@ == "Practitioner"@,
            r@[3]@ == "Organization"@,
    {
        let mut r: Vec<String> = Vec::new();
        r.push("Patient".to_owned());
        r.push("Observation".to_owned());
        r.push("Practitioner".to_owned());
        r.push("Organization".to_owned());
        r
    }

    /// The known complex type names.
    pub fn get_complex_types(&self) -> (r: Vec<String>)
        ensures
            r@.len() == 5,
            r@[0]@ == "HumanName"@,
            r@[1]@ == "Address"@,
            r@[2]@ == "ContactPoint"@,
            r@[3]@ == "CodeableConcept"@,
            r@[4]@ == "Quantity"@,
    {
        let mut r: Vec<String> = Vec::new();
        r.push("HumanName".to_owned());
        r.push("Address".to_owned());
        r.push("ContactPoint".to_owned());
        r.push("CodeableConcept".to_owned());
        r.push("Quantity".to_owned());
        r
    }

    /// The known primitive type names.
    pub fn get_primitive_types(&self) -> (r: Vec<String>)
        ensures
            r@.len() == 7,
            r@[0]@ == "Boolean"@,
            r@[1]@ == "String"@,
            r@[2]@ == "Integer"@,
            r@[3]@ == "Decimal"@,
            r@[4]@ == "Date"@,
            r@[5]@ == "DateTime"@,
            r@[6]@ == "Time"@,
    {
        let mut r: Vec<String> = Vec::new();
        r.push("Boolean".to_owned());
        r.push("String".to_owned());
        r.push("Integer".to_owned());
        r.push("Decimal".to_owned());
        r.push("Date".to_owned());
        r.push("DateTime".to_owned());
        r.push("Time".to_owned());
        r
    }

    /// Whether a resource type exists in the fixed table.
    pub fn resource_type_exists(&self, resource_type: &str) -> (r: bool)
        ensures
            r == (resource_type@ == "Patient"@ || resource_type@ == "Observation"@ || resource_type@
                == "Practitioner"@ || resource_type@ == "Organization"@),
    {
        str_eq(resource_type, "Patient") || str_eq(resource_type, "Observation") || str_eq(
            resource_type,
            "Practitioner",
        ) || str_eq(resource_type, "Organization")
    }

    /// The choice options of Observation.value in the fixed table.
    pub fn get_choice_types(&self, parent_type: &str, property_name: &str) -> (r: Option<
        Vec<ChoiceTypeInfo>,
    >)
        ensures
            r is Some <==> (parent_type@ == "Observation"@ && property_name@ == "value"@),
            r matches Some(v) ==> v@.len() == 5 && v@[0].suffix@ == "String"@ && v@[0].typename@
                == "string"@ && v@[1].suffix@ == "Integer"@ && v@[1].typename@ == "integer"@
                && v@[2].suffix@ == "Boolean"@ && v@[2].typename@ == "boolean"@ && v@[3].suffix@
                == "Quantity"@ && v@[3].typename@ == "Quantity"@ && v@[4].suffix@
                == "CodeableConcept"@ && v@[4].typename@ == "CodeableConcept"@,
    {
        if str_eq(parent_type, "Observation") && str_eq(property_name, "value") {
            let mut v: Vec<ChoiceTypeInfo> = Vec::new();
            v.push(ChoiceTypeInfo { suffix: "String".to_owned(), typename: "string".to_owned() });
            v.push(ChoiceTypeInfo { suffix: "Integer".to_owned(), typename: "integer".to_owned() });
            v.push(ChoiceTypeInfo { suffix: "Boolean".to_owned(), typename: "boolean".to_owned() });
            v.push(
                ChoiceTypeInfo { suffix: "Quantity".to_owned(), typename: "Quantity".to_owned() },
            );
            v.push(
                ChoiceTypeInfo {
                    suffix: "CodeableConcept".to_owned(),
                    typename: "CodeableConcept".to_owned(),
                },
            );
            Some(v)
        } else {
            None
        }
    }

    /// Whether a type is a union type in the fixed table.
    pub fn is_union_type(&self, type_info: &TypeInfo) -> (r: bool)
        ensures
            r == (type_info.typename@ == "Union"@ || type_info.typename@ == "Choice"@),
    {
        str_eq(type_info.typename.as_str(), "Union") || str_eq(type_info.typename.as_str(), "Choice")
    }

    /// The member types of a union type: String and Integer in the fixed
    /// table.
    pub fn get_union_types(&self, type_info: &TypeInfo) -> (r: Option<Vec<TypeInfo>>)
        ensures
            r is Some <==> (type_info.typename@ == "Union"@ || type_info.typename@ == "Choice"@),
            r matches Some(v) ==> v@.len() == 2 && v@[0].typename@ == "String"@ && v@[1].typename@
                == "Integer"@,
    {
        if self.is_union_type(type_info) {
            let mut v: Vec<TypeInfo> = Vec::new();
            v.push(
                TypeInfo {
                    typename: "String".to_owned(),
                    singleton: Some(true),
                    empty: Some(false),
                    namespace: Some("System".to_owned()),
                    name: Some("String".to_owned()),
                },
            );
            v.push(
                TypeInfo {
                    typename: "Integer".to_owned(),
                    singleton: Some(true),
                    empty: Some(false),
                    namespace: Some("System".to_owned()),
                    name: Some("Integer".to_owned()),
                },
            );
            Some(v)
        } else {
            None
        }
    }
}

/// Copy an optional string, keeping its value.
fn opt_string_clone(a: &Option<String>) -> (r: Option<String>)
    ensures
        r == *a,
{
    match a {
        Some(x) => Some(x.clone()),
        None => None,
    }
}

/// Copy a type information record, keeping its value.
fn clone_type_info(t: &TypeInfo) -> (r: TypeInfo)
    ensures
        r == *t,
{
    TypeInfo {
        typename: t.typename.clone(),
        singleton: t.singleton,
        empty: t.empty,
        namespace: opt_string_clone(&t.namespace),
        name: opt_string_clone(&t.name),
    }
}

} // verus!
