//! The text transforms that templates can apply to a value: `escape`,
//! `relative_url` and `absolute_url`.

use vstd::prelude::*;
use crate::datum::{lookup, mapping_view, Datum, DatumView};
use crate::front_matter::text_at;
use crate::text::joined;

verus! {

/// What one character becomes in HTML text.
pub open spec fn escaped_char(c: char) -> Seq<char> {
    if c == '&' {
        "&amp;"@
    } else if c == '<' {
        "&lt;"@
    } else if c == '>' {
        "&gt;"@
    } else {
        seq![c]
    }
}

/// `s` as HTML text: `&`, `<` and `>` are replaced by their entities.
pub open spec fn escaped(s: Seq<char>) -> Seq<char>
    decreases s.len(),
{
    if s.len() == 0 {
        Seq::empty()
    } else {
        escaped(s.drop_last()) + escaped_char(s.last())
    }
}

/// Calls `html_escape::encode_text`, which replaces each `&`, `<` and `>` by
/// `&amp;`, `&lt;` and `&gt;` and leaves every other character as it is.
#[verifier::external_body]
fn encode_text(s: &str) -> (r: String)
    ensures
        r@ == escaped(s@),
{
    html_escape::encode_text(s).into_owned()
}

/// The filters by kind.
#[derive(Debug, Clone, Copy, PartialEq, Eq, Structural)]
pub enum FilterKind {
    Escape,
    RelativeUrl,
    AbsoluteUrl,
}

/// The text of the argument `name`, or the empty text where there is no
/// such argument or it is no text.
pub open spec fn argument_text(args: Map<Seq<char>, DatumView>, name: Seq<char>) -> Seq<char> {
    match text_at(args, name) {
        Some(s) => s,
        None => Seq::empty(),
    }
}

/// `escape`: a text is escaped for HTML; any other value passes unchanged.
pub open spec fn escape_of(value: DatumView) -> DatumView {
    match value {
        DatumView::Text(s) => DatumView::Text(escaped(s)),
        other => other,
    }
}

/// `relative_url`: a text that begins with `/` gets the argument `base_url`
/// in front; any other value passes unchanged.
pub open spec fn relative_url_of(value: DatumView, args: Map<Seq<char>, DatumView>) -> DatumView {
    match value {
        DatumView::Text(url) => if url.len() > 0 && url[0] == '/' {
            DatumView::Text(argument_text(args, "base_url"@) + url)
        } else {
            value
        },
        other => other,
    }
}

/// `absolute_url`: a text gets the argument `site_url` in front; any other
/// value passes unchanged.
pub open spec fn absolute_url_of(value: DatumView, args: Map<Seq<char>, DatumView>) -> DatumView {
    match value {
        DatumView::Text(url) => DatumView::Text(argument_text(args, "site_url"@) + url),
        other => other,
    }
}

/// What the filter of the given kind makes of a value.
pub open spec fn filtered(
    kind: FilterKind,
    value: DatumView,
    args: Map<Seq<char>, DatumView>,
) -> DatumView {
    match kind {
        FilterKind::Escape => escape_of(value),
        FilterKind::RelativeUrl => relative_url_of(value, args),
        FilterKind::AbsoluteUrl => absolute_url_of(value, args),
    }
}

/// The name under which templates call the filter of the given kind.
pub open spec fn name_of(kind: FilterKind) -> Seq<char> {
    match kind {
        FilterKind::Escape => "escape"@,
        FilterKind::RelativeUrl => "relative_url"@,
        FilterKind::AbsoluteUrl => "absolute_url"@,
    }
}

/// The three filters have three names.
pub proof fn lemma_filter_names_differ()
    ensures
        forall|a: FilterKind, b: FilterKind| name_of(a) == name_of(b) ==> a == b,
{
    reveal_strlit("escape");
    reveal_strlit("relative_url");
    reveal_strlit("absolute_url");
    assert("escape"@.len() == 6);
    assert("relative_url"@[0] == 'r');
    assert("absolute_url"@[0] == 'a');
}

/// The text of the argument `name`: see [`argument_text`].
fn argument<'a>(args: &'a Vec<(String, Datum)>, name: &str) -> (r: &'a str)
    ensures
        r@ == argument_text(mapping_view(args@), name@),
{
    proof {
        reveal_strlit("");
    }
    match lookup(args, name) {
        Some(Datum::Text(s)) => s.as_str(),
        _ => "",
    }
}

/// Whether `s` begins with a slash.
fn begins_with_slash(s: &str) -> (r: bool)
    ensures
        r == (s@.len() > 0 && s@[0] == '/'),
{
    let mut chars = s.chars();
    match chars.next() {
        Some(c) => c == '/',
        None => false,
    }
}

/// The filter `escape`: see [`escape_of`].
pub fn escape(value: &Datum) -> (r: Datum)
    ensures
        r@ == escape_of(value@),
{
    match value {
        Datum::Text(s) => Datum::Text(encode_text(s.as_str())),
        other => other.duplicate(),
    }
}

/// The filter `relative_url`: see [`relative_url_of`].
pub fn relative_url(value: &Datum, args: &Vec<(String, Datum)>) -> (r: Datum)
    ensures
        r@ == relative_url_of(value@, mapping_view(args@)),
{
    match value {
        Datum::Text(url) => {
            if begins_with_slash(url.as_str()) {
                Datum::Text(joined(argument(args, "base_url"), url.as_str()))
            } else {
                value.duplicate()
            }
        },
        other => other.duplicate(),
    }
}

/// The filter `absolute_url`: see [`absolute_url_of`].
pub fn absolute_url(value: &Datum, args: &Vec<(String, Datum)>) -> (r: Datum)
    ensures
        r@ == absolute_url_of(value@, mapping_view(args@)),
{
    match value {
        Datum::Text(url) => Datum::Text(joined(argument(args, "site_url"), url.as_str())),
        other => other.duplicate(),
    }
}

impl FilterKind {
    /// The name under which templates call the filter.
    pub fn name(self) -> (r: &'static str)
        ensures
            r@ == name_of(self),
    {
        match self {
            FilterKind::Escape => "escape",
            FilterKind::RelativeUrl => "relative_url",
            FilterKind::AbsoluteUrl => "absolute_url",
        }
    }

    /// Applies the filter to a value, with the arguments of the call.
    pub fn apply(self, value: &Datum, args: &Vec<(String, Datum)>) -> (r: Datum)
        ensures
            r@ == filtered(self, value@, mapping_view(args@)),
    {
        match self {
            FilterKind::Escape => escape(value),
            FilterKind::RelativeUrl => relative_url(value, args),
            FilterKind::AbsoluteUrl => absolute_url(value, args),
        }
    }
}

} // verus!
