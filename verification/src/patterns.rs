//! Compiled regular expressions, held by value and matched through the
//! `regex` crate.
//!
//! A `regex::Regex` is opaque to the verifier.  Its meaning is abstracted by
//! two named functions: `regex_view` stands for the compiled pattern a
//! regex was built from, and `regex_accepts` for the answer matching gives
//! on a pattern and a text.  Nothing else is assumed of the crate.

use vstd::prelude::*;

verus! {

#[verifier::external_type_specification]
#[verifier::external_body]
pub struct ExRegex(regex::Regex);

/// The pattern a compiled regex stands for.  `regex_new` below is the one
/// way this library builds a regex, and it pins this value to the pattern
/// string it compiled.
pub uninterp spec fn regex_view(re: regex::Regex) -> Seq<char>;

/// Whether the regex compiled from `pattern` matches somewhere in `text`.
/// Matching is a pure function of the two: the `regex` crate compiles and
/// searches without reference to anything outside its inputs.
pub uninterp spec fn regex_accepts(pattern: Seq<char>, text: Seq<char>) -> bool;

/// Whether a pattern is a valid regex, that is, whether compiling it
/// succeeds.  A function of the pattern alone.
pub uninterp spec fn regex_compiles(pattern: Seq<char>) -> bool;

/// Relies on `regex::Regex::new`: compiling succeeds or fails by the
/// pattern alone, and on success yields a regex that stands for exactly
/// that pattern.
#[verifier::external_body]
pub fn regex_new(pattern: &str) -> (r: Option<regex::Regex>)
    ensures
        r is Some <==> regex_compiles(pattern@),
        r matches Some(re) ==> regex_view(re) == pattern@,
{
    regex::Regex::new(pattern).ok()
}

/// Relies on `regex::Regex::is_match`: the answer is a function of the
/// compiled pattern and the text alone.
#[verifier::external_body]
pub fn regex_is_match(re: &regex::Regex, text: &str) -> (r: bool)
    ensures
        r == regex_accepts(regex_view(*re), text@),
{
    re.is_match(text)
}

} // verus!
