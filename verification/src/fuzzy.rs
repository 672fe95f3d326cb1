//! Fuzzy matching through the skim algorithm of `fuzzy-matcher`.

use fuzzy_matcher::skim::SkimMatcherV2;
use fuzzy_matcher::FuzzyMatcher;
use vstd::prelude::*;

use crate::text::{trim, trim_seq};

verus! {

/// The score `SkimMatcherV2::default().fuzzy_match(choice, pattern)` gives,
/// `None` when `pattern` does not match `choice`.
pub uninterp spec fn skim_fuzzy_match(choice: Seq<char>, pattern: Seq<char>) -> Option<i64>;

/// Calls `SkimMatcherV2::default().fuzzy_match(choice, pattern)` from
/// `fuzzy-matcher`. Its result is named by `skim_fuzzy_match`; an empty
/// pattern always scores `Some(0)`, as `SkimMatcherV2::fuzzy` returns early.
#[verifier::external_body]
fn skim_match(choice: &str, pattern: &str) -> (r: Option<i64>)
    ensures
        r == skim_fuzzy_match(choice@, pattern@),
        pattern@.len() == 0 ==> r == Some(0i64),
{
    SkimMatcherV2::default().fuzzy_match(choice, pattern)
}

/// Fuzzy score of `haystack` for the trimmed query; a blank query scores 0.
pub open spec fn fuzzy_score_spec(query: Seq<char>, haystack: Seq<char>) -> Option<i64> {
    let q = trim_seq(query);
    if q.len() == 0 {
        Some(0)
    } else {
        skim_fuzzy_match(haystack, q)
    }
}

pub fn fuzzy_score(query: &str, haystack: &str) -> (r: Option<i64>)
    ensures
        r == fuzzy_score_spec(query@, haystack@),
{
    let q = trim(query);
    if q.as_str().is_empty() {
        Some(0)
    } else {
        skim_match(haystack, q.as_str())
    }
}

} // verus!
