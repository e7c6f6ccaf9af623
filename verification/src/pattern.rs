//! Regular expressions on shown paths, compiled and run by the `regex`
//! crate.

use vstd::prelude::*;
use regex::{Regex, RegexBuilder};
use crate::error::ScanError;

verus! {

/// A compiled regular expression of the `regex` crate; nothing is known of
/// its inside.
#[verifier::external_type_specification]
#[verifier::external_body]
pub struct ExRegex(regex::Regex);

/// The error with which the `regex` crate refuses a pattern.
#[verifier::external_type_specification]
#[verifier::external_body]
pub struct ExRegexError(regex::Error);

/// The compiled expression that `pattern` stands for; with `ignore_case`,
/// the one that matches letters of either case.
pub uninterp spec fn regex_of(pattern: Seq<char>, ignore_case: bool) -> Regex;

/// Whether the compiled expression `re` matches somewhere in `text`.
pub uninterp spec fn regex_match(re: Regex, text: Seq<char>) -> bool;

/// `Regex::is_match` searches the whole text for a match that may start and
/// end anywhere. Its answer depends on the expression and the text alone;
/// that answer is what `regex_match` names.
pub assume_specification[ Regex::is_match ](re: &Regex, haystack: &str) -> (found: bool)
    ensures
        found == regex_match(*re, haystack@),
;

/// Compiles `pattern` with `RegexBuilder::new`, `case_insensitive` and
/// `build`. Whether the build succeeds is left open: the crate refuses a
/// pattern that it cannot parse or that compiles to more than its size
/// limit. Where it succeeds, the expression is made of the pattern and the
/// flag alone; `regex_of` names it.
#[verifier::external_body]
fn build_regex(pattern: &str, ignore_case: bool) -> (built: Result<Regex, regex::Error>)
    ensures
        built is Ok ==> built->Ok_0 == regex_of(pattern@, ignore_case),
{
    RegexBuilder::new(pattern).case_insensitive(ignore_case).build()
}

/// A pattern that a shown path has to match.
pub struct PathPattern {
    regex: Regex,
}

impl PathPattern {
    /// Whether the pattern matches somewhere in `text`.
    pub closed spec fn matches(&self, text: Seq<char>) -> bool {
        regex_match(self.regex, text)
    }

    /// The compiled expression behind the pattern.
    pub closed spec fn compiled(&self) -> Regex {
        self.regex
    }

    /// The pattern that the text `source` stands for; with `ignore_case`,
    /// the one that matches letters of either case.
    pub closed spec fn of(source: Seq<char>, ignore_case: bool) -> PathPattern {
        PathPattern { regex: regex_of(source, ignore_case) }
    }

    /// Turns the outcome of a compilation into a pattern: a compiled
    /// expression is kept as it is, a refusal becomes `BadPattern`.
    pub fn from_built(built: Result<Regex, regex::Error>) -> (made: Result<PathPattern, ScanError>)
        ensures
            match built {
                Ok(regex) => made is Ok && made->Ok_0.compiled() == regex,
                Err(_) => made == Err::<PathPattern, ScanError>(ScanError::BadPattern),
            },
    {
        match built {
            Ok(regex) => Ok(PathPattern { regex }),
            Err(_) => Err(ScanError::BadPattern),
        }
    }

    /// Compiles a pattern; with `ignore_case` it matches letters of either
    /// case. Whether the `regex` crate takes the pattern is not known
    /// beforehand: where it does, the result is the pattern that the text
    /// stands for; where it does not, the result is `BadPattern`.
    pub fn new(pattern: &str, ignore_case: bool) -> (made: Result<PathPattern, ScanError>)
        ensures
            made is Ok ==> made->Ok_0 == PathPattern::of(pattern@, ignore_case),
            made is Err ==> made == Err::<PathPattern, ScanError>(ScanError::BadPattern),
    {
        PathPattern::from_built(build_regex(pattern, ignore_case))
    }

    /// Whether the pattern matches somewhere in `text`; the match need not
    /// cover the whole text.
    pub fn is_match(&self, text: &str) -> (found: bool)
        ensures
            found == self.matches(text@),
    {
        self.regex.is_match(text)
    }
}

} // verus!
