//! What holds of resolution and rendering on every input.

use vstd::prelude::*;
use crate::content::{document_of, ContentFileView};
use crate::context::{context_of, template_of, translations_of};
use crate::datum::DatumView;
use crate::filters::{
    absolute_url_of, escape_of, filtered, name_of, relative_url_of, FilterKind,
};
use crate::templates::TemplateEngine;
use crate::front_matter::{is_reserved, no_front_matter, text_at, FrontMatterView};
use crate::narrow::{is_whole, lemma_narrowed_is_whole, lemma_narrowed_whole, narrowed};
use crate::paths::path_strip_prefix;
use crate::error::ContentError;
use crate::source::{has_block, source_data, source_front_matter};

verus! {

/// Of a front-matter block that holds the key/value document `m`: each of
/// `title`, `layout` and `lang` comes out as exactly the text that `m` has
/// under the key, and as nothing where `m` has no text there; none of the
/// three keys is in `extra`; and every other key of `m` is, with its value
/// narrowed.
pub proof fn law_front_matter_round_trip(
    path: Seq<char>,
    source_root: Seq<char>,
    text: Seq<char>,
    m: Map<Seq<char>, DatumView>,
)
    requires
        source_data(text) == Some(DatumView::Mapping(m)),
        document_of(path, source_root, text) is Ok,
    ensures
        ({
            let front_matter = document_of(path, source_root, text)->Ok_0.front_matter;
            &&& front_matter.title == text_at(m, "title"@)
            &&& front_matter.layout == text_at(m, "layout"@)
            &&& front_matter.lang == text_at(m, "lang"@)
            &&& forall|key: Seq<char>|
                is_reserved(key) ==> !front_matter.extra.contains_key(key)
            &&& forall|key: Seq<char>|
                m.contains_key(key) && !is_reserved(key) ==> front_matter.extra.contains_key(key)
                    && front_matter.extra[key] == narrowed(m[key])
        }),
{
}

/// No value under `extra` holds a number that is no whole number.
pub proof fn law_extra_is_narrowed(
    path: Seq<char>,
    source_root: Seq<char>,
    text: Seq<char>,
    key: Seq<char>,
)
    requires
        document_of(path, source_root, text) is Ok,
        document_of(path, source_root, text)->Ok_0.front_matter.extra.contains_key(key),
    ensures
        is_whole(document_of(path, source_root, text)->Ok_0.front_matter.extra[key]),
{
    match source_data(text) {
        Some(DatumView::Mapping(m)) => {
            lemma_narrowed_is_whole(m[key]);
        },
        _ => {},
    }
}

/// A value of the front matter that holds no number but whole ones is kept
/// as it is.
pub proof fn law_whole_values_are_kept(
    path: Seq<char>,
    source_root: Seq<char>,
    text: Seq<char>,
    m: Map<Seq<char>, DatumView>,
    key: Seq<char>,
)
    requires
        source_data(text) == Some(DatumView::Mapping(m)),
        document_of(path, source_root, text) is Ok,
        m.contains_key(key),
        !is_reserved(key),
        is_whole(m[key]),
    ensures
        document_of(path, source_root, text)->Ok_0.front_matter.extra[key] == m[key],
{
    lemma_narrowed_whole(m[key]);
}

/// A file that opens with no front-matter block resolves exactly if its
/// path lies under the source root, and its body is then its whole text and
/// its front matter empty.
pub proof fn law_no_block_keeps_text(path: Seq<char>, source_root: Seq<char>, text: Seq<char>)
    requires
        !has_block(text),
    ensures
        document_of(path, source_root, text) is Ok <==> path_strip_prefix(path, source_root)
            is Some,
        document_of(path, source_root, text) matches Ok(document) ==> document.content == text
            && document.front_matter == no_front_matter(),
{
}

/// With front matter that is absent or well formed, resolution fails exactly
/// where the path does not lie under the source root.
pub proof fn law_resolution_fails_only_on_path(
    path: Seq<char>,
    source_root: Seq<char>,
    text: Seq<char>,
)
    requires
        source_front_matter(text) is Ok,
    ensures
        document_of(path, source_root, text) is Ok <==> path_strip_prefix(path, source_root)
            is Some,
        document_of(path, source_root, text) matches Err(e) ==> e == ContentError::Path,
        document_of(path, source_root, text) matches Ok(document) ==> document.path == path
            && Some(document.relative_path) == path_strip_prefix(path, source_root),
{
}

/// A block whose data is a list or a single value is well formed, and
/// resolves to the empty front matter.
pub proof fn law_other_data_is_no_front_matter(text: Seq<char>, data: DatumView)
    requires
        source_data(text) == Some(data),
        !(data is Mapping),
        !(data is Null),
    ensures
        source_front_matter(text) == Ok::<FrontMatterView, ContentError>(no_front_matter()),
{
}

/// Whatever resolves is well formed.
pub proof fn law_documents_are_well_formed(
    path: Seq<char>,
    source_root: Seq<char>,
    text: Seq<char>,
)
    ensures
        document_of(path, source_root, text) matches Ok(document) ==> document.well_formed(),
{
}

/// The HTML of a document is determined by its body: two documents with the
/// same body have the same HTML, whatever files they were resolved from.
pub proof fn law_html_is_determined(first: ContentFileView, second: ContentFileView)
    requires
        first.well_formed(),
        second.well_formed(),
        first.content == second.content,
    ensures
        first.html_content == second.html_content,
{
}

/// A document whose front matter names no layout is rendered through
/// `default.html`.
pub proof fn law_default_template(front_matter: FrontMatterView)
    requires
        front_matter.layout is None,
    ensures
        template_of(front_matter) == "default.html"@,
{
    reveal_strlit("default");
    reveal_strlit(".html");
    reveal_strlit("default.html");
    assert("default"@ + ".html"@ =~= "default.html"@);
}

/// The context has `t` exactly where the data table has translations for
/// the language of the document, and `t` is then those translations.
pub proof fn law_translations(
    document: ContentFileView,
    site: DatumView,
    data: Map<Seq<char>, DatumView>,
)
    ensures
        context_of(document, site, data).contains_key("t"@) <==> translations_of(
            data,
            document.language,
        ) is Some,
        translations_of(data, document.language) matches Some(t) ==> context_of(
            document,
            site,
            data,
        )["t"@] == t,
{
    reveal_strlit("t");
    reveal_strlit("page");
    reveal_strlit("content");
    reveal_strlit("site");
    reveal_strlit("data");
    reveal_strlit("lang");
    reveal_strlit("language_urls");
    assert("t"@.len() == 1);
}

/// An engine that holds the three filters of the library under their names
/// escapes with `escape`, prefixes the base address with `relative_url` and
/// the site address with `absolute_url`.
pub proof fn law_engine_filters(
    engine: TemplateEngine,
    value: DatumView,
    args: Map<Seq<char>, DatumView>,
)
    requires
        forall|kind: FilterKind|
            engine.kinds().contains_key(#[trigger] name_of(kind)) && engine.kinds()[name_of(kind)]
                == kind,
    ensures
        engine.filter_result("escape"@, value, args) == escape_of(value),
        engine.filter_result("relative_url"@, value, args) == relative_url_of(value, args),
        engine.filter_result("absolute_url"@, value, args) == absolute_url_of(value, args),
{
    assert(name_of(FilterKind::Escape) == "escape"@);
    assert(name_of(FilterKind::RelativeUrl) == "relative_url"@);
    assert(name_of(FilterKind::AbsoluteUrl) == "absolute_url"@);
}

/// Every filter hands back a value that is no text as it is.
pub proof fn law_filters_pass_other_values(
    kind: FilterKind,
    value: DatumView,
    args: Map<Seq<char>, DatumView>,
)
    requires
        !(value is Text),
    ensures
        filtered(kind, value, args) == value,
{
}

/// `relative_url` hands back a text that does not begin with a slash as it
/// is.
pub proof fn law_relative_url_keeps_relative(url: Seq<char>, args: Map<Seq<char>, DatumView>)
    requires
        url.len() == 0 || url[0] != '/',
    ensures
        relative_url_of(DatumView::Text(url), args) == DatumView::Text(url),
{
}

} // verus!
