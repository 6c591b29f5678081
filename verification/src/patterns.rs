//! Classification of import source paths by regular-expression patterns.
//!
//! Whether a pattern string compiles, and whether a compiled pattern matches
//! a path, are decided by the `regex` crate; both are functions of the
//! strings alone, so they are carried here as named, uninterpreted results.
//! A pattern that fails to compile is treated as never matching: a malformed
//! pattern must not abort a rewrite.

use vstd::prelude::*;

verus! {

/// Whether `regex::Regex::new` accepts `pattern`.  Compilation of a given
/// pattern string either succeeds or fails the same way on every run.
pub uninterp spec fn regex_compiles(pattern: Seq<char>) -> bool;

/// Whether the compiled form of `pattern` matches anywhere in `text`,
/// meaningful only when `regex_compiles(pattern)` holds.  The result is a
/// function of the two strings alone.
pub uninterp spec fn regex_matches(pattern: Seq<char>, text: Seq<char>) -> bool;

/// `pattern` both compiles and matches somewhere in `text`.
pub open spec fn pattern_hit(pattern: Seq<char>, text: Seq<char>) -> bool {
    regex_compiles(pattern) && regex_matches(pattern, text)
}

/// Some pattern of `patterns` compiles and matches `text`.
pub open spec fn text_matches_any(patterns: Seq<Seq<char>>, text: Seq<char>) -> bool {
    exists|i: int| 0 <= i < patterns.len() && #[trigger] pattern_hit(patterns[i], text)
}

/// Relies on `regex::Regex::new`, which deterministically compiles a pattern
/// string or reports an error, and on `regex::Regex::is_match`, which returns
/// whether the compiled pattern matches anywhere in the text; both are
/// functions of their string arguments alone and return for every input.
/// A pattern that does not compile is reported as not matching.
#[verifier::external_body]
fn regex_hit(pattern: &str, text: &str) -> (r: bool)
    ensures
        r == (regex_compiles(pattern@) && regex_matches(pattern@, text@)),
{
    match regex::Regex::new(pattern) {
        Ok(re) => re.is_match(text),
        Err(_) => false,
    }
}

/// Returns whether any of `patterns`, compiled as a regular expression,
/// matches `text`.  Patterns that fail to compile are skipped.
pub fn matches_any(patterns: &Vec<String>, text: &str) -> (r: bool)
    ensures
        r == text_matches_any(patterns.deep_view(), text@),
{
    let ghost pats = patterns.deep_view();
    let mut i: usize = 0;
    while i < patterns.len()
        invariant
            0 <= i <= patterns.len(),
            pats == patterns.deep_view(),
            forall|j: int| 0 <= j < i ==> !#[trigger] pattern_hit(pats[j], text@),
        decreases patterns.len() - i,
    {
        if regex_hit(patterns[i].as_str(), text) {
            assert(pattern_hit(pats[i as int], text@));
            return true;
        }
        i += 1;
    }
    false
}

} // verus!
