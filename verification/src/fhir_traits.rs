//! Traits that generated resource types implement to describe their choice
//! elements and reference fields, with verified helpers for the list
//! membership and reference-splitting their default methods perform.

use vstd::prelude::*;

use crate::strutil::str_eq;

verus! {

/// Relies on String::push: appending one character extends the string by
/// exactly that character.
pub assume_specification [ String::push ](s: &mut String, c: char)
    ensures
        final(s)@ == old(s)@.push(c),
;

/// Trait for choice element types: enums standing for fields that can take
/// one of several concrete types, distinguished by a suffixed name.
pub trait ChoiceElement {
    /// The base name of the choice element without the type suffix.
    fn base_name() -> &'static str;

    /// All field names this choice element can appear under.
    fn possible_field_names() -> Vec<&'static str>;
}

/// Trait for resource metadata: which of a resource's fields are choice
/// elements.
pub trait FhirResourceMetadata {
    /// The base names of all choice element fields in this resource.
    fn choice_elements() -> &'static [&'static str];

    /// The resource type name for this resource.
    fn resource_type() -> &'static str;

    /// Whether a field is a choice element: exactly the result of
    /// `list_has_field` on the declared choice elements.
    fn is_choice_element(field_name: &str) -> (r: bool) {
        list_has_field(Self::choice_elements(), field_name)
    }

    /// The possible field names for a choice element: exactly the result
    /// of `suffixed_choice_names` when the field is a declared choice
    /// element, and nothing otherwise.
    fn get_choice_field_names(base_name: &str) -> (r: Vec<String>) {
        if Self::is_choice_element(base_name) {
            suffixed_choice_names(base_name)
        } else {
            Vec::new()
        }
    }
}

/// Whether a list of names holds one with exactly the characters of
/// `field_name`.
pub fn list_has_field(elements: &[&str], field_name: &str) -> (r: bool)
    ensures
        r == exists|i: int| 0 <= i < elements@.len() && (#[trigger] elements@[i])@ == field_name@,
{
    let mut i: usize = 0;
    while i < elements.len()
        invariant
            i <= elements@.len(),
            forall|j: int| 0 <= j < i ==> (#[trigger] elements@[j])@ != field_name@,
        decreases elements@.len() - i,
    {
        if str_eq(elements[i], field_name) {
            return true;
        }
        i += 1;
    }
    false
}

/// The default expansions of a choice element base name: the String- and
/// Boolean-suffixed property names, in that order.
pub fn suffixed_choice_names(base_name: &str) -> (r: Vec<String>)
    ensures
        r@.len() == 2,
        r@[0]@ == base_name@ + "String"@,
        r@[1]@ == base_name@ + "Boolean"@,
{
    let mut a = String::new();
    a.append(base_name);
    a.append("String");
    let mut b = String::new();
    b.append(base_name);
    b.append("Boolean");
    let mut r: Vec<String> = Vec::new();
    r.push(a);
    r.push(b);
    r
}

/// Trait for reference fields: values that point at another resource by a
/// "Type/id" string.
pub trait FhirReference {
    /// The reference string (e.g., "Patient/123"), if present.
    fn reference(&self) -> Option<&str>;

    /// The display name, if available.
    fn display(&self) -> Option<&str>;

    /// The referenced resource type: exactly `reference_first_segment` of
    /// the reference string, when one is present.
    fn referenced_type(&self) -> (r: Option<String>) {
        match self.reference() {
            Some(s) => Some(reference_first_segment(s)),
            None => None,
        }
    }

    /// The referenced resource id: exactly `reference_second_segment` of
    /// the reference string, when one is present.
    fn referenced_id(&self) -> (r: Option<String>) {
        match self.reference() {
            Some(s) => reference_second_segment(s),
            None => None,
        }
    }
}

/// Position of the first slash in `s` at or after `i`, or the length when
/// no slash follows.
pub open spec fn spec_next_slash(s: Seq<char>, i: int) -> int
    decreases s.len() - i,
{
    if i < 0 || i >= s.len() {
        s.len() as int
    } else if s[i] == '/' {
        i
    } else {
        spec_next_slash(s, i + 1)
    }
}

/// The characters of a reference before its first slash: the whole string
/// when it has none.
pub fn reference_first_segment(s: &str) -> (r: String)
    ensures
        r@ == s@.subrange(0, spec_next_slash(s@, 0)),
{
    segment_from(s, 0)
}

/// The characters of a reference between its first and second slash, or
/// absent when the reference has no slash at all.
#[verifier::loop_isolation(false)]
pub fn reference_second_segment(s: &str) -> (r: Option<String>)
    ensures
        ({
            let f = spec_next_slash(s@, 0);
            if f == s@.len() {
                r is None
            } else {
                r matches Some(x) && x@ == s@.subrange(f + 1, spec_next_slash(s@, f + 1))
            }
        }),
{
    let n = s.unicode_len();
    let mut i: usize = 0;
    while i < n
        invariant
            i <= s@.len(),
            n == s@.len(),
            spec_next_slash(s@, 0) == spec_next_slash(s@, i as int),
        decreases n - i,
    {
        let c = s.get_char(i);
        if c == '/' {
            proof {
                assert(spec_next_slash(s@, i as int) == i);
            }
            return Some(segment_from(s, i + 1));
        }
        proof {
            assert(spec_next_slash(s@, i as int) == spec_next_slash(s@, i as int + 1));
        }
        i += 1;
    }
    proof {
        assert(spec_next_slash(s@, i as int) == s@.len());
    }
    None
}

/// The characters of `s` from `start` up to the next slash.
#[verifier::loop_isolation(false)]
fn segment_from(s: &str, start: usize) -> (r: String)
    requires
        start <= s@.len(),
    ensures
        r@ == s@.subrange(start as int, spec_next_slash(s@, start as int)),
{
    let n = s.unicode_len();
    let mut out = String::new();
    let mut i: usize = start;
    while i < n
        invariant
            start <= i <= s@.len(),
            n == s@.len(),
            out@ == s@.subrange(start as int, i as int),
            spec_next_slash(s@, start as int) == spec_next_slash(s@, i as int),
        decreases n - i,
    {
        let c = s.get_char(i);
        if c == '/' {
            proof {
                assert(spec_next_slash(s@, i as int) == i);
            }
            return out;
        }
        out.push(c);
        proof {
            assert(spec_next_slash(s@, i as int) == spec_next_slash(s@, i as int + 1));
            assert(out@ =~= s@.subrange(start as int, i as int + 1));
        }
        i += 1;
    }
    proof {
        assert(spec_next_slash(s@, i as int) == s@.len());
    }
    out
}

} // verus!
