//! Patterns for job names.

use regex::Error as PatternError;
use vstd::prelude::*;

verus! {

/// An error of the `regex` crate. Nothing is known of its value.
#[verifier::external_type_specification]
#[verifier::external_body]
pub struct ExPatternError(PatternError);

/// Whether the `regex` crate takes a pattern.
pub uninterp spec fn is_pattern(pattern: Seq<char>) -> bool;

/// Whether the `regex` crate finds a match of a pattern in a text.
pub uninterp spec fn pattern_matches(pattern: Seq<char>, text: Seq<char>) -> bool;

/// Checks a pattern: `regex::Regex::new`. Whether it succeeds is a function of the
/// pattern alone; nothing more is claimed.
#[verifier::external_body]
pub(crate) fn check_pattern(pattern: &str) -> (checked: Result<(), PatternError>)
    ensures
        checked is Ok <==> is_pattern(pattern@),
{
    regex::Regex::new(pattern).map(|_| ())
}

/// Looks for a pattern in a text: `regex::Regex::is_match`, of what
/// `regex::Regex::new` makes of the pattern. The answer is a function of the pattern
/// and the text alone; nothing more is claimed.
#[verifier::external_body]
pub(crate) fn find_pattern(pattern: &str, text: &str) -> (found: bool)
    requires
        is_pattern(pattern@),
    ensures
        found == pattern_matches(pattern@, text@),
{
    regex::Regex::new(pattern).unwrap().is_match(text)
}

} // verus!
