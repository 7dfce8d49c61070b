//! The exclusion filter: a set of regular expressions that is matched against
//! the full text of a path.

use vstd::prelude::*;
use crate::error::CompareError;

verus! {

#[verifier::external_type_specification]
#[verifier::external_body]
pub struct ExRegexSet(regex::RegexSet);

/// The pattern strings that a compiled set was built from, in their order.
pub uninterp spec fn set_patterns(set: regex::RegexSet) -> Seq<Seq<char>>;

/// Whether the regex engine accepts every one of `patterns`, so that they
/// compile into a set.
pub uninterp spec fn patterns_compile(patterns: Seq<Seq<char>>) -> bool;

/// Whether at least one of `patterns` matches somewhere in `text`, as the
/// regex engine decides it.
pub uninterp spec fn any_pattern_matches(patterns: Seq<Seq<char>>, text: Seq<char>) -> bool;

/// Whether `patterns` make a filter at all. No patterns always do.
pub open spec fn compiles(patterns: Seq<Seq<char>>) -> bool {
    patterns.len() == 0 || patterns_compile(patterns)
}

/// Whether a filter made of `patterns` excludes `path`: some pattern matches
/// somewhere in the path's full text. No patterns exclude nothing.
pub open spec fn excluded_by(patterns: Seq<Seq<char>>, path: Seq<char>) -> bool {
    patterns.len() > 0 && any_pattern_matches(patterns, path)
}

/// Calls `regex::RegexSet::new` on the pattern strings. The call succeeds
/// exactly when the engine accepts all of them, which it does when there are
/// none; the set it returns holds the patterns as they were given.
#[verifier::external_body]
fn compile_set(patterns: &Vec<String>) -> (r: Result<regex::RegexSet, regex::Error>)
    ensures
        r.is_ok() == patterns_compile(patterns.deep_view()),
        patterns.len() == 0 ==> r.is_ok(),
        r matches Ok(set) ==> set_patterns(set) == patterns.deep_view(),
{
    regex::RegexSet::new(patterns)
}

/// Calls `regex::RegexSet::matches` on `text` and asks the answer's
/// `matched_any`: true exactly when one of the set's patterns matches
/// somewhere in `text`. A set without patterns matches nothing.
#[verifier::external_body]
fn set_matches(set: &regex::RegexSet, text: &str) -> (r: bool)
    ensures
        r == any_pattern_matches(set_patterns(*set), text@),
        set_patterns(*set).len() == 0 ==> !r,
{
    set.matches(text).matched_any()
}

/// A set of exclusion patterns, compiled. Each pattern is a regular
/// expression; none is anchored unless it says so itself.
#[derive(Debug)]
pub struct ExclusionFilter {
    set: regex::RegexSet,
}

impl ExclusionFilter {
    /// The pattern strings of the filter, in their order.
    pub closed spec fn patterns(&self) -> Seq<Seq<char>> {
        set_patterns(self.set)
    }

    /// Compiles `patterns` into a filter. Fails exactly when they do not
    /// compile, with the engine's error; no patterns make a filter that
    /// excludes nothing.
    pub fn new(patterns: &Vec<String>) -> (r: Result<ExclusionFilter, CompareError>)
        ensures
            match r {
                Ok(filter) => compiles(patterns.deep_view()) && filter.patterns()
                    == patterns.deep_view(),
                Err(e) => !compiles(patterns.deep_view()) && e is Regex,
            },
    {
        match compile_set(patterns) {
            Ok(set) => Ok(ExclusionFilter { set }),
            Err(e) => Err(CompareError::from(e)),
        }
    }

    /// Whether the filter excludes `path`: whether one of its patterns
    /// matches somewhere in the path's full text.
    pub fn excludes(&self, path: &str) -> (r: bool)
        ensures
            r == excluded_by(self.patterns(), path@),
    {
        set_matches(&self.set, path)
    }
}

/// A filter without patterns excludes no path.
pub proof fn no_patterns_exclude_nothing(path: Seq<char>)
    ensures
        compiles(Seq::<Seq<char>>::empty()),
        !excluded_by(Seq::<Seq<char>>::empty(), path),
{
}

} // verus!
