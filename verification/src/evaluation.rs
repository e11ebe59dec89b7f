//! Lightweight type information reported by evaluation results.

use vstd::prelude::*;

verus! {

/// Lightweight type information for the type() reflection function
#[derive(Debug, Clone, PartialEq, Eq)]
pub struct TypeInfoResult {
    /// Type namespace (e.g., "FHIR", "System")
    pub namespace: String,
    /// Type name (e.g., "Patient", "String")
    pub name: String,
}

impl TypeInfoResult {
    /// Create new type info result
    pub fn new(namespace: &str, name: &str) -> (r: TypeInfoResult)
        ensures
            r.namespace@ == namespace@,
            r.name@ == name@,
    {
        TypeInfoResult { namespace: namespace.to_owned(), name: name.to_owned() }
    }

    /// Create a System type (for primitive types)
    pub fn system(name: &str) -> (r: TypeInfoResult)
        ensures
            r.namespace@ == "System"@,
            r.name@ == name@,
    {
        TypeInfoResult::new("System", name)
    }

    /// Create a FHIR type (for resources and complex types)
    pub fn fhir(name: &str) -> (r: TypeInfoResult)
        ensures
            r.namespace@ == "FHIR"@,
            r.name@ == name@,
    {
        TypeInfoResult::new("FHIR", name)
    }
}

} // verus!
