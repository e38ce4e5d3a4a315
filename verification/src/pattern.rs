//! Regular expressions, through the `regex` crate.
//!
//! Patterns are kept as text in the library's own types; each use compiles
//! the pattern with `regex::Regex::new` and applies it at once, so that
//! every claim below is a function of the pattern and the text alone.

use vstd::prelude::*;

verus! {

/// Whether `regex::Regex::new` accepts `pattern`.
pub uninterp spec fn regex_valid(pattern: Seq<char>) -> bool;

/// What `Regex::is_match` answers for the compiled `pattern` on `haystack`.
pub uninterp spec fn regex_matches(pattern: Seq<char>, haystack: Seq<char>) -> bool;

/// What the compiled `pattern` makes of `haystack` with `template`: `None`
/// when `Regex::captures` finds no match, else the text that
/// `Captures::expand` writes for `template` into an empty `String`.
pub uninterp spec fn regex_expansion(
    pattern: Seq<char>,
    template: Seq<char>,
    haystack: Seq<char>,
) -> Option<Seq<char>>;

/// `regex::Regex::new(pattern).is_ok()`: whether the pattern compiles.
#[verifier::external_body]
pub(crate) fn regex_compiles(pattern: &str) -> (r: bool)
    ensures
        r == regex_valid(pattern@),
{
    regex::Regex::new(pattern).is_ok()
}

/// `Regex::is_match` of the compiled `pattern` on `haystack`. The pattern is
/// compiled with `Regex::new` here; the contract names the answer.
#[verifier::external_body]
pub(crate) fn regex_is_match(pattern: &str, haystack: &str) -> (r: bool)
    requires
        regex_valid(pattern@),
    ensures
        r == regex_matches(pattern@, haystack@),
{
    match regex::Regex::new(pattern) {
        Ok(re) => re.is_match(haystack),
        Err(_) => false,
    }
}

/// `Regex::captures` of the compiled `pattern` on `haystack`, then
/// `Captures::expand` of `template` into a fresh `String`; `None` when there
/// is no match. The contract names the result.
#[verifier::external_body]
pub(crate) fn regex_expand(pattern: &str, template: &str, haystack: &str) -> (r: Option<String>)
    requires
        regex_valid(pattern@),
    ensures
        crate::metadata::opt_view(r) == regex_expansion(pattern@, template@, haystack@),
{
    let re = match regex::Regex::new(pattern) {
        Ok(re) => re,
        Err(_) => return None,
    };
    match re.captures(haystack) {
        Some(caps) => {
            let mut out = String::new();
            caps.expand(template, &mut out);
            Some(out)
        },
        None => None,
    }
}

} // verus!
