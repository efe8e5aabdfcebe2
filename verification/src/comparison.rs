//! The comparison mode of a requested authentication context and its
//! string form on the wire.
use vstd::prelude::*;
use vstd::string::StringExecFns;

verus! {

/// How a requested context is to be matched against the contexts an
/// identity provider offers. A closed set; each variant has one fixed
/// lowercase string form.
#[derive(Clone, Copy, Debug, Hash, Eq, PartialEq, Ord, PartialOrd, Structural)]
pub enum AuthnContextComparison {
    Exact,
    Minimum,
    Maximum,
    Better,
}

/// The attribute text was none of the recognized comparison modes.
#[derive(Clone, Copy, Debug, Hash, Eq, PartialEq, Ord, PartialOrd, Structural)]
pub struct UnknownComparisonValue;

/// The canonical lowercase string form of a comparison mode.
pub open spec fn comparison_chars(c: AuthnContextComparison) -> Seq<char> {
    match c {
        AuthnContextComparison::Exact => "exact"@,
        AuthnContextComparison::Minimum => "minimum"@,
        AuthnContextComparison::Maximum => "maximum"@,
        AuthnContextComparison::Better => "better"@,
    }
}

/// `a` reads as the character `b` of a canonical lowercase form: either the
/// same character, or its ASCII uppercase counterpart when `b` is an ASCII
/// lowercase letter.
pub open spec fn ci_char(a: char, b: char) -> bool {
    a == b || (97 <= b as u32 <= 122 && a as u32 + 32 == b as u32)
}

/// `s` reads as the canonical lowercase form `t`, ASCII-case-insensitively.
pub open spec fn ci_matches(s: Seq<char>, t: Seq<char>) -> bool {
    s.len() == t.len() && (forall|i: int| 0 <= i < s.len() ==> ci_char(s[i], t[i]))
}

/// The comparison mode that attribute text `s` denotes: matching is
/// ASCII-case-insensitive against the four canonical lowercase forms, and
/// any other text is rejected.
pub open spec fn spec_parse(s: Seq<char>) -> Result<
    AuthnContextComparison,
    UnknownComparisonValue,
> {
    if ci_matches(s, "exact"@) {
        Ok(AuthnContextComparison::Exact)
    } else if ci_matches(s, "minimum"@) {
        Ok(AuthnContextComparison::Minimum)
    } else if ci_matches(s, "maximum"@) {
        Ok(AuthnContextComparison::Maximum)
    } else if ci_matches(s, "better"@) {
        Ok(AuthnContextComparison::Better)
    } else {
        Err(UnknownComparisonValue)
    }
}

impl AuthnContextComparison {
    /// The canonical lowercase string form, used as the value of the
    /// `Comparison` attribute. Total: every variant maps to exactly one of
    /// the four fixed literals.
    pub fn to_string(&self) -> (r: String)
        ensures
            r@ == comparison_chars(*self),
    {
        match self {
            AuthnContextComparison::Exact => String::from_str("exact"),
            AuthnContextComparison::Minimum => String::from_str("minimum"),
            AuthnContextComparison::Maximum => String::from_str("maximum"),
            AuthnContextComparison::Better => String::from_str("better"),
        }
    }

    /// Reconstructs a comparison mode from attribute text,
    /// ASCII-case-insensitively, rejecting unrecognized text.
    pub fn parse(s: &str) -> (r: Result<AuthnContextComparison, UnknownComparisonValue>)
        ensures
            r == spec_parse(s@),
    {
        if matches_ci(s, "exact") {
            Ok(AuthnContextComparison::Exact)
        } else if matches_ci(s, "minimum") {
            Ok(AuthnContextComparison::Minimum)
        } else if matches_ci(s, "maximum") {
            Ok(AuthnContextComparison::Maximum)
        } else if matches_ci(s, "better") {
            Ok(AuthnContextComparison::Better)
        } else {
            Err(UnknownComparisonValue)
        }
    }
}

/// Law: parsing recovers a serialized comparison mode,
/// ASCII-case-insensitively on the way in. Any text that reads as the
/// canonical lowercase form of `c` — in particular that form itself —
/// parses to `c` and to nothing else.
pub proof fn lemma_parse_recovers_comparison(c: AuthnContextComparison, s: Seq<char>)
    requires
        ci_matches(s, comparison_chars(c)),
    ensures
        spec_parse(s) == Ok::<AuthnContextComparison, UnknownComparisonValue>(c),
{
    reveal_strlit("exact");
    reveal_strlit("minimum");
    reveal_strlit("maximum");
    reveal_strlit("better");
    if c is Maximum {
        assert(ci_char(s[1], 'a'));
        assert(!ci_char(s[1], 'i'));
        assert(!ci_matches(s, "minimum"@));
    }
}

/// Law: serializing a comparison mode and parsing the resulting text gives
/// the mode back (the round trip on the canonical form itself).
pub proof fn lemma_comparison_round_trip(c: AuthnContextComparison)
    ensures
        spec_parse(comparison_chars(c)) == Ok::<AuthnContextComparison, UnknownComparisonValue>(c),
{
    assert(ci_matches(comparison_chars(c), comparison_chars(c)));
    lemma_parse_recovers_comparison(c, comparison_chars(c));
}

/// Whether `s` reads as the canonical lowercase form `t`,
/// ASCII-case-insensitively.
fn matches_ci(s: &str, t: &str) -> (r: bool)
    ensures
        r == ci_matches(s@, t@),
{
    let n = s.unicode_len();
    if n != t.unicode_len() {
        return false;
    }
    let mut i: usize = 0;
    while i < n
        invariant
            0 <= i <= n,
            n == s@.len(),
            n == t@.len(),
            forall|j: int| 0 <= j < i ==> ci_char(s@[j], t@[j]),
        decreases n - i,
    {
        let a = s.get_char(i);
        let b = t.get_char(i);
        let au = a as u32;
        let bu = b as u32;
        if !(a == b || (97 <= bu && bu <= 122 && au == bu - 32)) {
            return false;
        }
        i = i + 1;
    }
    true
}

} // verus!
