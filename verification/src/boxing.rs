//! Source locations attached to boxed values for debugging and error
//! reporting.

use vstd::prelude::*;

verus! {

/// Source location information for debugging and error reporting
#[derive(Debug, Clone)]
pub struct SourceLocation {
    /// Resource ID where this value originated
    pub resource_id: Option<String>,
    /// Resource type where this value originated
    pub resource_type: Option<String>,
    /// Element path within the resource
    pub element_path: String,
    /// Line number in source document (if available)
    pub line: Option<u32>,
    /// Column number in source document (if available)
    pub column: Option<u32>,
}

impl SourceLocation {
    /// Create a new source location for an element path.
    pub fn new(element_path: &str) -> (r: SourceLocation)
        ensures
            r.element_path@ == element_path@,
            r.resource_id is None,
            r.resource_type is None,
            r.line is None,
            r.column is None,
    {
        SourceLocation {
            resource_id: None,
            resource_type: None,
            element_path: element_path.to_owned(),
            line: None,
            column: None,
        }
    }

    /// Set the originating resource type and id.
    pub fn with_resource(self, resource_type: &str, resource_id: &str) -> (r: SourceLocation)
        ensures
            (r.resource_type matches Some(t) && t@ == resource_type@),
            (r.resource_id matches Some(i) && i@ == resource_id@),
            r.element_path == self.element_path,
            r.line == self.line,
            r.column == self.column,
    {
        let mut r = self;
        r.resource_type = Some(resource_type.to_owned());
        r.resource_id = Some(resource_id.to_owned());
        r
    }

    /// Set the line and column in the source document.
    pub fn with_position(self, line: u32, column: u32) -> (r: SourceLocation)
        ensures
            r.line == Some(line),
            r.column == Some(column),
            r.element_path == self.element_path,
            r.resource_id == self.resource_id,
            r.resource_type == self.resource_type,
    {
        let mut r = self;
        r.line = Some(line);
        r.column = Some(column);
        r
    }
}

} // verus!
