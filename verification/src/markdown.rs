//! Conversion of a Markdown body to HTML, by `pulldown_cmark`.

use vstd::prelude::*;

verus! {

/// The Markdown extensions that a conversion has switched on.
#[derive(Debug, Clone, Copy, PartialEq, Eq, Structural)]
pub struct MarkdownFeatures {
    pub strikethrough: bool,
    pub footnotes: bool,
    pub tables: bool,
    pub tasklists: bool,
}

/// The extensions of every content file: strikethrough, footnotes, tables
/// and task lists.
pub open spec fn standard_features() -> MarkdownFeatures {
    MarkdownFeatures { strikethrough: true, footnotes: true, tables: true, tasklists: true }
}

/// The HTML that `pulldown_cmark` writes for a Markdown text with the given
/// extensions switched on and all others off.
pub uninterp spec fn markdown_html(body: Seq<char>, features: MarkdownFeatures) -> Seq<char>;

/// Runs `pulldown_cmark::Parser::new_ext` on `body`, with the options that
/// `features` names set and no other, and collects what
/// `pulldown_cmark::html::push_html` writes for it. Parser and writer hold no
/// state of their own, so the text is the one `markdown_html` names.
#[verifier::external_body]
fn push_html(body: &str, features: MarkdownFeatures) -> (html: String)
    ensures
        html@ == markdown_html(body@, features),
{
    let mut options = pulldown_cmark::Options::empty();
    options.set(pulldown_cmark::Options::ENABLE_STRIKETHROUGH, features.strikethrough);
    options.set(pulldown_cmark::Options::ENABLE_FOOTNOTES, features.footnotes);
    options.set(pulldown_cmark::Options::ENABLE_TABLES, features.tables);
    options.set(pulldown_cmark::Options::ENABLE_TASKLISTS, features.tasklists);
    let mut html = String::new();
    pulldown_cmark::html::push_html(&mut html, pulldown_cmark::Parser::new_ext(body, options));
    html
}

impl MarkdownFeatures {
    /// The extensions of every content file.
    pub fn standard() -> (r: MarkdownFeatures)
        ensures
            r == standard_features(),
    {
        MarkdownFeatures { strikethrough: true, footnotes: true, tables: true, tasklists: true }
    }
}

/// Converts a Markdown body to HTML, with the standard extensions.
pub fn to_html(body: &str) -> (html: String)
    ensures
        html@ == markdown_html(body@, standard_features()),
{
    push_html(body, MarkdownFeatures::standard())
}

} // verus!
