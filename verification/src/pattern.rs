//! Regular expressions, as the `regex` crate matches them.
//!
//! Nothing here is proved: the two functions below call into the crate, and
//! what they return is known to the rest of the library by name only.

use vstd::prelude::*;

verus! {

/// What `Regex::replace_all` returns for the pattern, the text and the
/// replacement; `None` where `Regex::new` refuses the pattern.
pub uninterp spec fn regex_replace_all(
    pattern: Seq<char>,
    haystack: Seq<char>,
    replacement: Seq<char>,
) -> Option<Seq<char>>;

/// The text that the capture group numbered `group` matched in the first
/// match of the pattern in the text, as `Regex::captures` finds it; `None`
/// where `Regex::new` refuses the pattern, where nothing matches, or where
/// the group took no part in the match.
pub uninterp spec fn regex_capture(pattern: Seq<char>, haystack: Seq<char>, group: nat) -> Option<
    Seq<char>,
>;

/// The text that an optional string holds.
pub open spec fn option_text(r: Option<String>) -> Option<Seq<char>> {
    match r {
        Some(s) => Some(s@),
        None => None,
    }
}

/// Compiles `pattern` with `regex::Regex::new` and replaces every match in
/// `haystack` with `Regex::replace_all`, in which `$n` in the replacement
/// stands for the n-th capture group. Believed, not proved: the result is the
/// one that [`regex_replace_all`] names, which is a function of the three
/// texts alone.
#[verifier::external_body]
pub(crate) fn replace_all(pattern: &str, haystack: &str, replacement: &str) -> (r: Option<String>)
    ensures
        option_text(r) == regex_replace_all(pattern@, haystack@, replacement@),
{
    match regex::Regex::new(pattern) {
        Ok(re) => Some(re.replace_all(haystack, replacement).into_owned()),
        Err(_) => None,
    }
}

/// Compiles `pattern` with `regex::Regex::new`, searches `haystack` with
/// `Regex::captures` and hands out what `Captures::get` gives for `group`.
/// Believed, not proved: the result is the one that [`regex_capture`] names,
/// which is a function of the two texts and the number alone.
#[verifier::external_body]
pub(crate) fn capture(pattern: &str, haystack: &str, group: usize) -> (r: Option<String>)
    ensures
        option_text(r) == regex_capture(pattern@, haystack@, group as nat),
{
    match regex::Regex::new(pattern) {
        Ok(re) => re.captures(haystack).and_then(|c| c.get(group)).map(|m| m.as_str().to_string()),
        Err(_) => None,
    }
}

} // verus!
