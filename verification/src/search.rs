//! Fuzzy matching of names against a typed filter.

use vstd::prelude::*;
use fuzzy_matcher::FuzzyMatcher;
use fuzzy_matcher::skim::SkimMatcherV2;

verus! {

/// The score `SkimMatcherV2::default().fuzzy_match(choice, pattern)` gives:
/// the best alignment of the pattern's characters, in order, within the
/// choice, or `None` when they do not all occur in order.
pub uninterp spec fn skim_match(choice: Seq<char>, pattern: Seq<char>) -> Option<i64>;

/// `FuzzyMatcher::fuzzy_match` of a default `SkimMatcherV2` (smart case, the
/// default scoring). The contract names the result; the scoring rules are
/// not restated.
#[verifier::external_body]
fn skim_fuzzy_match(choice: &str, pattern: &str) -> (r: Option<i64>)
    ensures
        r == skim_match(choice@, pattern@),
{
    SkimMatcherV2::default().fuzzy_match(choice, pattern)
}

/// A fuzzy matcher with the default settings. It keeps no state: each
/// score comes from a default `SkimMatcherV2`.
#[derive(Debug)]
pub struct Fuzzy;

impl Fuzzy {
    /// A matcher with the default settings.
    pub fn new() -> (r: Self)
        ensures
            r == Fuzzy,
    {
        Fuzzy
    }

    /// The score of `text` against `query`, or `None` when it does not
    /// match.
    pub fn score(&self, query: &str, text: &str) -> (r: Option<i64>)
        ensures
            r == skim_match(text@, query@),
    {
        skim_fuzzy_match(text, query)
    }
}

impl Default for Fuzzy {
    fn default() -> (r: Self)
        ensures
            r == Fuzzy,
    {
        Fuzzy::new()
    }
}

} // verus!
