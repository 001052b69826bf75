//! Regular expressions, compiled and matched by the `regex` crate.

use regex::Regex;
use vstd::prelude::*;

verus! {

/// A compiled regular expression. Its inside is not visible here.
#[verifier::external_type_specification]
#[verifier::external_body]
pub struct ExRegex(Regex);

/// Why a pattern could not be compiled.
#[verifier::external_type_specification]
#[verifier::external_body]
pub struct ExRegexError(regex::Error);

/// What `Regex::new` returns for a pattern text: the compiled expression, or
/// the error for a pattern that is malformed or compiles to more than the
/// default size limit.
pub uninterp spec fn regex_compiled(source: Seq<char>) -> Result<Regex, regex::Error>;

/// Whether `re` matches anywhere in `text`, as `Regex::is_match` reports it.
pub uninterp spec fn regex_matches(re: Regex, text: Seq<char>) -> bool;

/// `Regex::new` compiles with the default options, so its outcome depends on
/// the pattern text alone: it is the value named [`regex_compiled`].
pub assume_specification[ Regex::new ](re: &str) -> (r: Result<Regex, regex::Error>)
    ensures
        r == regex_compiled(re@),
;

/// `Regex::is_match` searches the whole haystack from its start and reports
/// whether there is a match: the value named [`regex_matches`], which depends
/// on the expression and the haystack alone.
pub assume_specification[ Regex::is_match ](re: &Regex, haystack: &str) -> (found: bool)
    ensures
        found == regex_matches(*re, haystack@),
;

} // verus!
