//! Constraint definitions: keys, severities, expressions and the violations
//! produced when a constraint fails.

use vstd::prelude::*;

use crate::strutil::str_eq;

verus! {

/// Constraint information for schema elements
#[derive(Debug, Clone)]
pub struct ConstraintInfo {
    /// Constraint key (unique identifier)
    pub key: String,
    /// Severity level
    pub severity: ConstraintSeverity,
    /// Human-readable description
    pub human: String,
    /// Path expression for the constraint
    pub expression: String,
    /// XPath expression (legacy, optional)
    pub xpath: Option<String>,
    /// Source of the constraint (e.g., structure definition URL)
    pub source: Option<String>,
    /// Additional constraint metadata as key/value pairs
    pub metadata: Vec<(String, String)>,
}

/// Severity levels for constraints
#[derive(Debug, Clone, PartialEq, Eq, Structural)]
pub enum ConstraintSeverity {
    /// Error - constraint must be satisfied
    Error,
    /// Warning - constraint should be satisfied
    Warning,
    /// Information - informational constraint
    Information,
}

/// Violation resulting from failed constraint evaluation
#[derive(Debug, Clone)]
pub struct ConstraintViolation {
    /// Constraint that was violated
    pub constraint_key: String,
    /// Human-readable message
    pub message: String,
    /// Severity of the violation
    pub severity: ConstraintSeverity,
    /// Path where the violation occurred
    pub path: String,
    /// Expected result
    pub expected: Option<String>,
    /// Actual result
    pub actual: Option<String>,
}

impl ConstraintSeverity {
    /// The lower-case label of this severity.
    pub fn label(&self) -> (r: &'static str)
        ensures
            self == ConstraintSeverity::Error ==> r@ == "error"@,
            self == ConstraintSeverity::Warning ==> r@ == "warning"@,
            self == ConstraintSeverity::Information ==> r@ == "information"@,
    {
        match self {
            ConstraintSeverity::Error => "error",
            ConstraintSeverity::Warning => "warning",
            ConstraintSeverity::Information => "information",
        }
    }
}

impl ConstraintInfo {
    /// Create a new constraint
    pub fn new(key: &str, severity: ConstraintSeverity, human: &str, expression: &str) -> (r:
        ConstraintInfo)
        ensures
            r.key@ == key@,
            r.severity == severity,
            r.human@ == human@,
            r.expression@ == expression@,
            r.xpath is None,
            r.source is None,
            r.metadata@.len() == 0,
    {
        ConstraintInfo {
            key: key.to_owned(),
            severity,
            human: human.to_owned(),
            expression: expression.to_owned(),
            xpath: None,
            source: None,
            metadata: Vec::new(),
        }
    }

    /// Create an error constraint
    pub fn error(key: &str, human: &str, expression: &str) -> (r: ConstraintInfo)
        ensures
            r.key@ == key@,
            r.severity == ConstraintSeverity::Error,
            r.human@ == human@,
            r.expression@ == expression@,
            r.xpath is None,
            r.source is None,
            r.metadata@.len() == 0,
    {
        ConstraintInfo::new(key, ConstraintSeverity::Error, human, expression)
    }

    /// Create a warning constraint
    pub fn warning(key: &str, human: &str, expression: &str) -> (r: ConstraintInfo)
        ensures
            r.key@ == key@,
            r.severity == ConstraintSeverity::Warning,
            r.human@ == human@,
            r.expression@ == expression@,
            r.xpath is None,
            r.source is None,
            r.metadata@.len() == 0,
    {
        ConstraintInfo::new(key, ConstraintSeverity::Warning, human, expression)
    }

    /// Create an informational constraint
    pub fn info(key: &str, human: &str, expression: &str) -> (r: ConstraintInfo)
        ensures
            r.key@ == key@,
            r.severity == ConstraintSeverity::Information,
            r.human@ == human@,
            r.expression@ == expression@,
            r.xpath is None,
            r.source is None,
            r.metadata@.len() == 0,
    {
        ConstraintInfo::new(key, ConstraintSeverity::Information, human, expression)
    }

    /// Set XPath expression
    pub fn with_xpath(self, xpath: &str) -> (r: ConstraintInfo)
        ensures
            (r.xpath matches Some(x) && x@ == xpath@),
            r == (ConstraintInfo { xpath: r.xpath, ..self }),
    {
        let mut r = self;
        r.xpath = Some(xpath.to_owned());
        r
    }

    /// Set source
    pub fn with_source(self, source: &str) -> (r: ConstraintInfo)
        ensures
            (r.source matches Some(s) && s@ == source@),
            r == (ConstraintInfo { source: r.source, ..self }),
    {
        let mut r = self;
        r.source = Some(source.to_owned());
        r
    }

    /// Add metadata
    pub fn with_metadata(self, key: &str, value: &str) -> (r: ConstraintInfo)
        ensures
            r.metadata@.len() == self.metadata@.len() + 1,
            r.metadata@[self.metadata@.len() as int].0@ == key@,
            r.metadata@[self.metadata@.len() as int].1@ == value@,
            r.metadata@.subrange(0, self.metadata@.len() as int) == self.metadata@,
            r == (ConstraintInfo { metadata: r.metadata, ..self }),
    {
        let mut r = self;
        r.metadata.push((key.to_owned(), value.to_owned()));
        proof {
            assert(r.metadata@.subrange(0, self.metadata@.len() as int) =~= self.metadata@);
        }
        r
    }

    /// Validate the constraint definition: the key, the expression and the
    /// human description must all be non-empty, checked in that order.
    pub fn validate(&self) -> (r: Result<(), String>)
        ensures
            self.key@.len() == 0 ==> (r matches Err(e) && e@ == "Constraint key cannot be empty"@),
            self.key@.len() != 0 && self.expression@.len() == 0 ==> (r matches Err(e) && e@
                == "Constraint expression cannot be empty"@),
            self.key@.len() != 0 && self.expression@.len() != 0 && self.human@.len() == 0 ==> (r
                matches Err(e) && e@ == "Constraint human description cannot be empty"@),
            self.key@.len() != 0 && self.expression@.len() != 0 && self.human@.len() != 0 ==> r
                is Ok,
    {
        proof {
            reveal_strlit("");
        }
        if str_eq(self.key.as_str(), "") {
            proof {
                assert(self.key@ =~= ""@);
            }
            return Err("Constraint key cannot be empty".to_owned());
        }
        if str_eq(self.expression.as_str(), "") {
            proof {
                assert(self.expression@ =~= ""@);
                if self.key@.len() == 0 {
                    assert(self.key@ =~= ""@);
                }
            }
            return Err("Constraint expression cannot be empty".to_owned());
        }
        if str_eq(self.human.as_str(), "") {
            proof {
                assert(self.human@ =~= ""@);
                if self.key@.len() == 0 {
                    assert(self.key@ =~= ""@);
                }
                if self.expression@.len() == 0 {
                    assert(self.expression@ =~= ""@);
                }
            }
            return Err("Constraint human description cannot be empty".to_owned());
        }
        proof {
            if self.key@.len() == 0 {
                assert(self.key@ =~= ""@);
            }
            if self.expression@.len() == 0 {
                assert(self.expression@ =~= ""@);
            }
            if self.human@.len() == 0 {
                assert(self.human@ =~= ""@);
            }
        }
        Ok(())
    }
}

impl ConstraintViolation {
    /// Create a new violation
    pub fn new(constraint_key: &str, message: &str, severity: ConstraintSeverity, path: &str) -> (r:
        ConstraintViolation)
        ensures
            r.constraint_key@ == constraint_key@,
            r.message@ == message@,
            r.severity == severity,
            r.path@ == path@,
            r.expected is None,
            r.actual is None,
    {
        ConstraintViolation {
            constraint_key: constraint_key.to_owned(),
            message: message.to_owned(),
            severity,
            path: path.to_owned(),
            expected: None,
            actual: None,
        }
    }

    /// Create an error violation
    pub fn error(constraint_key: &str, message: &str, path: &str) -> (r: ConstraintViolation)
        ensures
            r.constraint_key@ == constraint_key@,
            r.message@ == message@,
            r.severity == ConstraintSeverity::Error,
            r.path@ == path@,
            r.expected is None,
            r.actual is None,
    {
        ConstraintViolation::new(constraint_key, message, ConstraintSeverity::Error, path)
    }

    /// Set expected and actual values
    pub fn with_values(self, expected: &str, actual: &str) -> (r: ConstraintViolation)
        ensures
            (r.expected matches Some(e) && e@ == expected@),
            (r.actual matches Some(a) && a@ == actual@),
            r.constraint_key == self.constraint_key,
            r.message == self.message,
            r.severity == self.severity,
            r.path == self.path,
    {
        let mut r = self;
        r.expected = Some(expected.to_owned());
        r.actual = Some(actual.to_owned());
        r
    }
}

} // verus!
