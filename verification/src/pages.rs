//! Serving the pages and files of the user interface: which file a request
//! is for, what its content type is, and what is shown when a page cannot be
//! made.

use vstd::prelude::*;
use vstd::string::StringExecFns;
use crate::ingest::{extension_of, file_extension};
use crate::pattern::option_text;
use crate::text::{chars_of, copy_range, copy_str, string_of};

verus! {

/// The first media type that `mime_guess::from_ext` knows for a file
/// extension, as `MimeGuess::first_raw` gives it; `None` where it knows none.
pub uninterp spec fn guessed_media_type(extension: Seq<char>) -> Option<Seq<char>>;

/// Looks a file extension up with `mime_guess::from_ext` and takes the first
/// media type of the guess with `MimeGuess::first_raw`. Believed, not proved:
/// the result is the one that [`guessed_media_type`] names, a function of the
/// extension alone.
#[verifier::external_body]
pub(crate) fn guess_media_type(extension: &str) -> (r: Option<String>)
    ensures
        option_text(r) == guessed_media_type(extension@),
{
    mime_guess::from_ext(extension).first_raw().map(|m| m.to_string())
}

/// The index of the first character at or after `i` that is no slash; the
/// length of `s` when only slashes follow.
pub open spec fn skip_slashes(s: Seq<char>, i: int) -> int
    decreases s.len() - i,
{
    if i < 0 || i >= s.len() {
        s.len() as int
    } else if s[i] == '/' {
        skip_slashes(s, i + 1)
    } else {
        i
    }
}

/// The name under which a requested file is looked up: the requested path
/// without the slashes at its start.
pub open spec fn asset_key(path: Seq<char>) -> Seq<char> {
    path.subrange(skip_slashes(path, 0), path.len() as int)
}

/// Computes [`asset_key`].
pub fn static_asset_key(path: &str) -> (r: String)
    ensures
        r@ == asset_key(path@),
{
    let p = chars_of(path);
    let mut i: usize = 0;
    while i < p.len() && p[i] == '/'
        invariant
            i <= p.len(),
            skip_slashes(p@, 0) == skip_slashes(p@, i as int),
        decreases p.len() - i,
    {
        i += 1;
    }
    let key = copy_range(p.as_slice(), i, p.len());
    string_of(key.as_slice())
}

/// The content type under which a guess is served: the guessed media type,
/// or `application/octet-stream` where there is none.
pub open spec fn content_type_from_guess(guess: Option<Seq<char>>) -> Seq<char> {
    match guess {
        Some(m) => m,
        None => "application/octet-stream"@,
    }
}

/// The content type of a file, by its extension.
pub open spec fn content_type_of(path: Seq<char>) -> Seq<char> {
    match extension_of(path) {
        Some(e) => content_type_from_guess(guessed_media_type(e)),
        None => "application/octet-stream"@,
    }
}

/// Takes the guess for a file: see [`content_type_from_guess`].
pub fn content_type_from(guess: Option<String>) -> (r: String)
    ensures
        r@ == content_type_from_guess(option_text(guess)),
{
    match guess {
        Some(m) => m,
        None => copy_str("application/octet-stream"),
    }
}

/// The content type under which the file at `path` is served.
pub fn static_content_type(path: &str) -> (r: String)
    ensures
        r@ == content_type_of(path@),
{
    match file_extension(path) {
        Some(e) => content_type_from(guess_media_type(e.as_str())),
        None => copy_str("application/octet-stream"),
    }
}

/// The page shown where a template fails to render.
pub open spec fn template_error_page(message: Seq<char>) -> Seq<char> {
    "<h1>Template Error</h1><p>"@ + message + "</p>"@
}

/// The page shown where a template does not exist.
pub open spec fn template_missing_page(name: Seq<char>, message: Seq<char>) -> Seq<char> {
    "<h1>Template Not Found</h1><p>"@ + name + ": "@ + message + "</p>"@
}

/// The page shown in place of the index page where that is missing.
pub const INDEX_MISSING_PAGE: &'static str =
    "<html><body><h1>NL-Cube</h1><p>Error: index.html not found</p></body></html>";

/// Builds [`template_error_page`].
pub fn build_template_error_page(message: &str) -> (r: String)
    ensures
        r@ == template_error_page(message@),
{
    let mut r = copy_str("<h1>Template Error</h1><p>");
    r.append(message);
    r.append("</p>");
    r
}

/// Builds [`template_missing_page`].
pub fn build_template_missing_page(name: &str, message: &str) -> (r: String)
    ensures
        r@ == template_missing_page(name@, message@),
{
    let mut r = copy_str("<h1>Template Not Found</h1><p>");
    r.append(name);
    r.append(": ");
    r.append(message);
    r.append("</p>");
    r
}

} // verus!
