//! File paths, and the address under which a page is published.
//!
//! Paths are taken apart by `std::path`; the library holds them as text.

use vstd::prelude::*;
use crate::text::{joined, owned, same_text, text_view};

verus! {

/// The file stem that `std::path::Path::file_stem` finds in a path.
pub uninterp spec fn path_file_stem(path: Seq<char>) -> Option<Seq<char>>;

/// The extension that `std::path::Path::extension` finds in a path.
pub uninterp spec fn path_extension(path: Seq<char>) -> Option<Seq<char>>;

/// What `std::path::Path::strip_prefix` leaves of a path without `base`, or
/// `None` where `base` is no prefix of the path.
pub uninterp spec fn path_strip_prefix(path: Seq<char>, base: Seq<char>) -> Option<Seq<char>>;

/// Calls `Path::file_stem`. The path is read the same way each time, so the
/// outcome is the one `path_file_stem` names.
#[verifier::external_body]
pub(crate) fn file_stem(path: &str) -> (r: Option<String>)
    ensures
        text_view(r) == path_file_stem(path@),
{
    std::path::Path::new(path).file_stem().and_then(|s| s.to_str()).map(|s| s.to_string())
}

/// Calls `Path::extension`. The path is read the same way each time, so the
/// outcome is the one `path_extension` names.
#[verifier::external_body]
pub(crate) fn extension(path: &str) -> (r: Option<String>)
    ensures
        text_view(r) == path_extension(path@),
{
    std::path::Path::new(path).extension().and_then(|s| s.to_str()).map(|s| s.to_string())
}

/// Calls `Path::strip_prefix`, with `None` for its error. The paths are read
/// the same way each time, so the outcome is the one `path_strip_prefix`
/// names.
#[verifier::external_body]
pub(crate) fn strip_prefix(path: &str, base: &str) -> (r: Option<String>)
    ensures
        text_view(r) == path_strip_prefix(path@, base@),
{
    std::path::Path::new(path).strip_prefix(base).ok().and_then(|p| p.to_str()).map(
        |s| s.to_string(),
    )
}

/// The stem under which a file is published: its own, or `index` where it
/// has none.
pub open spec fn stem_or_index(stem: Option<Seq<char>>) -> Seq<char> {
    match stem {
        Some(s) => s,
        None => "index"@,
    }
}

/// The address of the page with the given stem: the site root for `index`,
/// else the stem between two slashes.
pub open spec fn url_of_stem(stem: Seq<char>) -> Seq<char> {
    if stem == "index"@ {
        "/"@
    } else {
        "/"@ + stem + "/"@
    }
}

/// The output file of the page with the given stem, relative to the output
/// root: `index.html` for `index`, else `index.html` in a directory named by
/// the stem.
pub open spec fn file_of_stem(stem: Seq<char>) -> Seq<char> {
    if stem == "index"@ {
        "index.html"@
    } else {
        stem + "/index.html"@
    }
}

/// The stem under which the file at `path` is published.
pub fn publication_stem(path: &str) -> (r: String)
    ensures
        r@ == stem_or_index(path_file_stem(path@)),
{
    match file_stem(path) {
        Some(stem) => stem,
        None => owned("index"),
    }
}

/// The address of the page with the given stem: see [`url_of_stem`].
pub fn url_for_stem(stem: &str) -> (r: String)
    ensures
        r@ == url_of_stem(stem@),
{
    if same_text(stem, "index") {
        owned("/")
    } else {
        joined("/", stem).concat("/")
    }
}

/// The output file of the page with the given stem: see [`file_of_stem`].
pub fn file_for_stem(stem: &str) -> (r: String)
    ensures
        r@ == file_of_stem(stem@),
{
    if same_text(stem, "index") {
        owned("index.html")
    } else {
        joined(stem, "/index.html")
    }
}

} // verus!
