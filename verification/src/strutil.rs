//! Small string and string-list helpers shared across the crate.
//!
//! Type names, property names and paths are compared by their character
//! content throughout the library, so the helpers here give that comparison
//! a precise specification once and let every caller reuse it.

use vstd::prelude::*;

verus! {

/// Relies on str's `PartialEq`: two string slices compare equal exactly when
/// their character sequences are equal.
#[verifier::external_body]
pub(crate) fn str_eq(a: &str, b: &str) -> (r: bool)
    ensures
        r == (a@ == b@),
{
    a == b
}

/// True when some element of `s` has exactly the characters `t`.
pub open spec fn seq_has_str(s: Seq<String>, t: Seq<char>) -> bool {
    exists|i: int| 0 <= i < s.len() && s[i]@ == t
}

/// Index of the first element of `s` whose characters are `t`, or -1 if none.
pub open spec fn seq_first_str(s: Seq<String>, t: Seq<char>) -> int
    decreases s.len(),
{
    if s.len() == 0 {
        -1
    } else if s[0]@ == t {
        0
    } else {
        let rest = seq_first_str(s.drop_first(), t);
        if rest == -1 {
            -1
        } else {
            rest + 1
        }
    }
}

/// The first occurrence index is a real occurrence and nothing before it matches.
pub proof fn lemma_seq_first_str(s: Seq<String>, t: Seq<char>)
    ensures
        seq_first_str(s, t) == -1 <==> !seq_has_str(s, t),
        seq_first_str(s, t) != -1 ==> {
            let i = seq_first_str(s, t);
            &&& 0 <= i < s.len()
            &&& s[i]@ == t
            &&& forall|j: int| 0 <= j < i ==> s[j]@ != t
        },
    decreases s.len(),
{
    if s.len() == 0 {
    } else {
        lemma_seq_first_str(s.drop_first(), t);
        if s[0]@ == t {
        } else {
            let rest = seq_first_str(s.drop_first(), t);
            if rest == -1 {
                assert(!seq_has_str(s.drop_first(), t));
                assert forall|i: int| 0 <= i < s.len() implies s[i]@ != t by {
                    if i > 0 {
                        assert(s.drop_first()[i - 1] == s[i]);
                    }
                }
            } else {
                assert(s.drop_first()[rest] == s[rest + 1]);
                assert forall|j: int| 0 <= j < rest + 1 implies s[j]@ != t by {
                    if j > 0 {
                        assert(s.drop_first()[j - 1] == s[j]);
                    }
                }
            }
        }
    }
}

/// Whether the list holds a string with exactly the characters of `t`.
pub fn vec_has_str(v: &Vec<String>, t: &str) -> (r: bool)
    ensures
        r == seq_has_str(v@, t@),
{
    let mut i: usize = 0;
    while i < v.len()
        invariant
            i <= v@.len(),
            forall|j: int| 0 <= j < i ==> v@[j]@ != t@,
        decreases v@.len() - i,
    {
        if str_eq(v[i].as_str(), t) {
            return true;
        }
        i += 1;
    }
    false
}

/// Position of the first string in the list with exactly the characters of `t`.
pub fn vec_find_str(v: &Vec<String>, t: &str) -> (r: Option<usize>)
    ensures
        match r {
            Some(i) => i == seq_first_str(v@, t@) && i < v@.len() && v@[i as int]@ == t@,
            None => !seq_has_str(v@, t@),
        },
{
    proof {
        lemma_seq_first_str(v@, t@);
    }
    let mut i: usize = 0;
    while i < v.len()
        invariant
            i <= v@.len(),
            forall|j: int| 0 <= j < i ==> v@[j]@ != t@,
        decreases v@.len() - i,
    {
        if str_eq(v[i].as_str(), t) {
            proof {
                lemma_seq_first_str(v@, t@);
                assert(seq_has_str(v@, t@));
                let f = seq_first_str(v@, t@);
                assert(f != -1);
                if f < i {
                    assert(v@[f]@ != t@);
                } else if f > i {
                    assert(v@[i as int]@ != t@);
                }
            }
            return Some(i);
        }
        i += 1;
    }
    None
}

/// Pushing one string extends the set of held character sequences by
/// exactly the characters of the new element.
pub proof fn lemma_push_has_str(s: Seq<String>, x: String)
    ensures
        forall|t: Seq<char>|
            #![trigger seq_has_str(s.push(x), t)]
            seq_has_str(s.push(x), t) <==> (seq_has_str(s, t) || x@ == t),
{
    assert forall|t: Seq<char>|
        #![trigger seq_has_str(s.push(x), t)]
        seq_has_str(s.push(x), t) <==> (seq_has_str(s, t) || x@ == t) by {
        if seq_has_str(s.push(x), t) {
            let i = choose|i: int| 0 <= i < s.push(x).len() && s.push(x)[i]@ == t;
            if i < s.len() {
                assert(s[i]@ == t);
            } else {
                assert(s.push(x)[i] == x);
            }
        }
        if seq_has_str(s, t) {
            let i = choose|i: int| 0 <= i < s.len() && s[i]@ == t;
            assert(s.push(x)[i]@ == t);
        }
        if x@ == t {
            assert(s.push(x)[s.len() as int]@ == t);
        }
    }
}

/// `needle` occurs somewhere in `hay` as a contiguous run of characters.
pub open spec fn spec_str_contains(hay: Seq<char>, needle: Seq<char>) -> bool {
    exists|k: int|
        0 <= k && k + needle.len() <= hay.len() && #[trigger] hay.subrange(k, k + needle.len())
            == needle
}

/// Relies on str::contains with a &str pattern: true exactly when the pattern
/// occurs as a substring.
#[verifier::external_body]
pub(crate) fn str_contains(hay: &str, needle: &str) -> (r: bool)
    ensures
        r == spec_str_contains(hay@, needle@),
{
    hay.contains(needle)
}

/// The character sequences of a list of strings, in order.
pub open spec fn views_of(s: Seq<String>) -> Seq<Seq<char>> {
    s.map_values(|x: String| x@)
}

/// Membership of a character sequence in a list of character sequences.
pub open spec fn seqs_has(s: Seq<Seq<char>>, t: Seq<char>) -> bool {
    exists|i: int| 0 <= i < s.len() && s[i] == t
}

/// Membership agrees between a string list and its character sequences.
pub proof fn lemma_views_has(s: Seq<String>, t: Seq<char>)
    ensures
        seqs_has(views_of(s), t) == seq_has_str(s, t),
{
    if seqs_has(views_of(s), t) {
        let i = choose|i: int| 0 <= i < views_of(s).len() && views_of(s)[i] == t;
        assert(s[i]@ == t);
    }
    if seq_has_str(s, t) {
        let i = choose|i: int| 0 <= i < s.len() && s[i]@ == t;
        assert(views_of(s)[i] == t);
    }
}

/// Index of the first string whose characters satisfy `p`, or -1 if none.
pub open spec fn first_str_where(s: Seq<String>, p: spec_fn(Seq<char>) -> bool) -> int
    decreases s.len(),
{
    if s.len() == 0 {
        -1
    } else if p(s[0]@) {
        0
    } else {
        let rest = first_str_where(s.drop_first(), p);
        if rest == -1 {
            -1
        } else {
            rest + 1
        }
    }
}

/// The first index satisfying `p` is a real hit and nothing before it is one.
pub proof fn lemma_first_str_where(s: Seq<String>, p: spec_fn(Seq<char>) -> bool)
    ensures
        first_str_where(s, p) == -1 ==> forall|i: int| 0 <= i < s.len() ==> !p(#[trigger] s[i]@),
        first_str_where(s, p) != -1 ==> {
            let i = first_str_where(s, p);
            &&& 0 <= i < s.len()
            &&& p(s[i]@)
            &&& forall|j: int| 0 <= j < i ==> !p(#[trigger] s[j]@)
        },
    decreases s.len(),
{
    if s.len() == 0 {
    } else {
        lemma_first_str_where(s.drop_first(), p);
        if p(s[0]@) {
        } else {
            let rest = first_str_where(s.drop_first(), p);
            if rest == -1 {
                assert forall|i: int| 0 <= i < s.len() implies !p(#[trigger] s[i]@) by {
                    if i > 0 {
                        assert(s.drop_first()[i - 1] == s[i]);
                    }
                }
            } else {
                assert(s.drop_first()[rest] == s[rest + 1]);
                assert forall|j: int| 0 <= j < rest + 1 implies !p(#[trigger] s[j]@) by {
                    if j > 0 {
                        assert(s.drop_first()[j - 1] == s[j]);
                    }
                }
            }
        }
    }
}

/// No two strings in the list have the same characters.
pub open spec fn strs_unique(s: Seq<String>) -> bool {
    forall|i: int, j: int| 0 <= i < j < s.len() ==> (#[trigger] s[i]@) != (#[trigger] s[j]@)
}

/// Pushing a string that is not yet present keeps the list duplicate-free.
pub proof fn lemma_push_unique(s: Seq<String>, x: String)
    requires
        strs_unique(s),
        !seq_has_str(s, x@),
    ensures
        strs_unique(s.push(x)),
{
    assert forall|i: int, j: int| 0 <= i < j < s.push(x).len() implies (#[trigger] s.push(x)[i]@)
        != (#[trigger] s.push(x)[j]@) by {
        if j < s.len() {
            assert(s.push(x)[i] == s[i]);
            assert(s.push(x)[j] == s[j]);
        } else {
            assert(s.push(x)[j] == x);
            assert(s.push(x)[i] == s[i]);
        }
    }
}

/// Equality of two optional strings by character content.
pub open spec fn opt_str_eqv(a: Option<String>, b: Option<String>) -> bool {
    match (a, b) {
        (Some(x), Some(y)) => x@ == y@,
        (None, None) => true,
        _ => false,
    }
}


/// Lexicographic order on character sequences: the empty sequence first,
/// then by first differing character.
pub open spec fn spec_str_le(a: Seq<char>, b: Seq<char>) -> bool
    decreases a.len(),
{
    if a.len() == 0 {
        true
    } else if b.len() == 0 {
        false
    } else if a[0] != b[0] {
        (a[0] as int) < (b[0] as int)
    } else {
        spec_str_le(a.drop_first(), b.drop_first())
    }
}

/// Any two character sequences are ordered one way or the other.
pub proof fn lemma_str_le_total(a: Seq<char>, b: Seq<char>)
    ensures
        spec_str_le(a, b) || spec_str_le(b, a),
    decreases a.len(),
{
    if a.len() == 0 || b.len() == 0 {
    } else if a[0] != b[0] {
    } else {
        lemma_str_le_total(a.drop_first(), b.drop_first());
    }
}

/// The lexicographic order is transitive.
pub proof fn lemma_str_le_trans(a: Seq<char>, b: Seq<char>, c: Seq<char>)
    requires
        spec_str_le(a, b),
        spec_str_le(b, c),
    ensures
        spec_str_le(a, c),
    decreases a.len(),
{
    if a.len() == 0 {
    } else if b.len() == 0 {
    } else if c.len() == 0 {
    } else {
        if a[0] == b[0] && b[0] == c[0] {
            lemma_str_le_trans(a.drop_first(), b.drop_first(), c.drop_first());
        }
    }
}

/// Relies on str's `PartialOrd`: the byte-wise comparison of two UTF-8
/// strings orders them exactly as the character-wise lexicographic order,
/// since UTF-8 preserves the order of the scalar values it encodes.
#[verifier::external_body]
pub(crate) fn str_le(a: &str, b: &str) -> (r: bool)
    ensures
        r == spec_str_le(a@, b@),
{
    a <= b
}

/// A list of strings in non-decreasing lexicographic order.
pub open spec fn strs_sorted(s: Seq<String>) -> bool {
    forall|i: int, j: int| 0 <= i < j < s.len() ==> spec_str_le(#[trigger] s[i]@, #[trigger] s[j]@)
}

/// Sort a list of strings lexicographically; the result holds exactly the
/// same strings.
#[verifier::loop_isolation(false)]
pub fn sort_strings(v: &Vec<String>) -> (r: Vec<String>)
    ensures
        r@.to_multiset() == v@.to_multiset(),
        strs_sorted(r@),
        r@.len() == v@.len(),
{
    broadcast use vstd::seq_lib::group_to_multiset_ensures;

    let mut w: Vec<String> = Vec::new();
    let mut i: usize = 0;
    while i < v.len()
        invariant
            i <= v@.len(),
            w@.len() == i,
            forall|j: int| 0 <= j < i ==> w@[j] == v@[j],
        decreases v@.len() - i,
    {
        w.push(v[i].clone());
        i += 1;
    }
    proof {
        assert(w@ =~= v@);
    }
    let mut r: Vec<String> = Vec::new();
    while w.len() > 0
        invariant
            r@.to_multiset().add(w@.to_multiset()) =~= v@.to_multiset(),
            r@.len() + w@.len() == v@.len(),
            strs_sorted(r@),
            forall|x: int, y: int|
                0 <= x < r@.len() && 0 <= y < w@.len() ==> spec_str_le(
                    #[trigger] r@[x]@,
                    #[trigger] w@[y]@,
                ),
        decreases w@.len(),
    {
        let mut m: usize = 0;
        let mut j: usize = 1;
        proof {
            lemma_str_le_total(w@[0]@, w@[0]@);
        }
        while j < w.len()
            invariant
                m < j <= w@.len() || (j <= w@.len() && m == 0),
                m < w@.len(),
                forall|k: int| 0 <= k < j ==> spec_str_le(w@[m as int]@, #[trigger] w@[k]@),
            decreases w@.len() - j,
        {
            proof {
                lemma_str_le_total(w@[j as int]@, w@[m as int]@);
            }
            if str_le(w[j].as_str(), w[m].as_str()) {
                proof {
                    assert forall|k: int| 0 <= k < j + 1 implies spec_str_le(
                        w@[j as int]@,
                        #[trigger] w@[k]@,
                    ) by {
                        if k < j {
                            lemma_str_le_trans(w@[j as int]@, w@[m as int]@, w@[k]@);
                        } else {
                            lemma_str_le_total(w@[j as int]@, w@[j as int]@);
                        }
                    }
                }
                m = j;
            }
            j += 1;
        }
        proof {
            lemma_str_le_total(w@[m as int]@, w@[m as int]@);
        }
        let x = w.remove(m);
        r.push(x);
    }
    proof {
        assert(w@.to_multiset().len() == 0);
        assert(r@.to_multiset() =~= v@.to_multiset());
    }
    r
}

} // verus!
