//! The excluded-character test of the URL encoder, made by the `regex` crate.

use vstd::prelude::*;

verus! {

#[verifier::external_type_specification]
#[verifier::external_body]
pub struct ExRegexError(regex::Error);

/// Whether `regex::Regex::new` accepts `pattern`.
pub uninterp spec fn regex_compiles(pattern: Seq<char>) -> bool;

/// Whether `regex::Regex::is_match`, on the regex compiled from `pattern`,
/// finds a match anywhere in `haystack`.
pub uninterp spec fn regex_finds_match(pattern: Seq<char>, haystack: Seq<char>) -> bool;

/// Compiles `pattern` with `regex::Regex::new` and, when that succeeds, asks
/// `regex::Regex::is_match` whether the one-character text `c` matches.
/// Claimed: the result is `Ok` exactly when the pattern compiles (compilation
/// depends on the pattern alone), and then it holds the match result, a
/// function of the pattern and the text alone.
#[verifier::external_body]
pub(crate) fn regex_match_char(pattern: &str, c: char) -> (r: Result<bool, regex::Error>)
    ensures
        r is Ok <==> regex_compiles(pattern@),
        r matches Ok(b) ==> b == regex_finds_match(pattern@, seq![c]),
{
    match regex::Regex::new(pattern) {
        Ok(re) => Ok(re.is_match(&String::from(c))),
        Err(e) => Err(e),
    }
}

/// Whether `pattern` is a regular expression that the encoder can use.
pub fn pattern_compiles(pattern: &str) -> (r: bool)
    ensures
        r == regex_compiles(pattern@),
{
    regex_match_char(pattern, 'a').is_ok()
}

} // verus!
