//! Regular expressions of the `regex` crate, compiled with its default
//! options.
//!
//! What an expression matches is decided by its pattern and by the options
//! it was compiled with. The expressions here are all made by `Regex::new`,
//! which takes the default options, and carry the mark of it, so that the
//! pattern alone says what they match.

use vstd::prelude::*;

verus! {

/// A compiled regular expression of the `regex` crate.
#[verifier::external_type_specification]
#[verifier::external_body]
pub struct ExRegex(regex::Regex);

/// Whether `Regex::new` accepts `pattern`.
pub uninterp spec fn pattern_compiles(pattern: Seq<char>) -> bool;

/// Whether the expression is one that `Regex::new` returned, compiled with
/// the default options.
pub uninterp spec fn made_by_new(re: regex::Regex) -> bool;

/// The pattern that an expression was compiled from: what `Regex::as_str`
/// returns.
pub uninterp spec fn pattern_of(re: regex::Regex) -> Seq<char>;

/// What `Regex::replace_all` returns for an expression that `Regex::new`
/// compiled from `pattern`, a haystack and a replacement string.
pub uninterp spec fn replaced_all(pattern: Seq<char>, text: Seq<char>, replacement: Seq<char>) -> Seq<char>;

/// `Regex::new`: compiles `pattern` with the crate's default options, or
/// fails where the pattern is invalid or too large. Whether it succeeds
/// depends on the pattern alone, and the expression keeps its pattern.
#[verifier::external_body]
pub(crate) fn compile_pattern(pattern: &str) -> (compiled: Option<regex::Regex>)
    ensures
        compiled is Some <==> pattern_compiles(pattern@),
        compiled matches Some(re) ==> made_by_new(re) && pattern_of(re) == pattern@,
{
    regex::Regex::new(pattern).ok()
}

/// `Regex::replace_all` with a replacement string: all non-overlapping
/// matches in `text` give way to the replacement, in which `$` references to
/// capture groups are expanded. Only an expression that `Regex::new` made is
/// taken, since only of such a one the pattern says what it matches.
#[verifier::external_body]
pub(crate) fn replace_all(re: &regex::Regex, text: &str, replacement: &str) -> (out: String)
    requires
        made_by_new(*re),
    ensures
        out@ == replaced_all(pattern_of(*re), text@, replacement@),
{
    re.replace_all(text, replacement).into_owned()
}

} // verus!
