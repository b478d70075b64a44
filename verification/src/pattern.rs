//! Regular expressions as filters on text.

use vstd::prelude::*;

verus! {

/// Whether `regex::Regex::new` compiles the pattern: whether it returns
/// `Ok`.
pub uninterp spec fn regex_is_valid(pattern: Seq<char>) -> bool;

/// What `regex::Regex::is_match` returns for the compiled pattern and the
/// text: whether the pattern matches anywhere in the text.
pub uninterp spec fn regex_finds(pattern: Seq<char>, text: Seq<char>) -> bool;

/// Compiles `pattern` with `regex::Regex::new` and, if that succeeds,
/// searches `text` with `regex::Regex::is_match`. Nothing is claimed but
/// that whether the pattern compiles depends on the pattern alone, and
/// whether it matches on pattern and text alone.
#[verifier::external_body]
pub(crate) fn regex_is_match(pattern: &str, text: &str) -> (found: Option<bool>)
    ensures
        match found {
            Some(matches) => regex_is_valid(pattern@) && matches == regex_finds(pattern@, text@),
            None => !regex_is_valid(pattern@),
        },
{
    match regex::Regex::new(pattern) {
        Ok(compiled) => Some(compiled.is_match(text)),
        Err(_) => None,
    }
}

} // verus!
