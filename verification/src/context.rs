//! The render context: what a template sees of a document, the site and the
//! data table.

use vstd::prelude::*;
use crate::content::{default_language, ContentFile, ContentFileView};
use crate::datum::{
    duplicate_entries, insert, lemma_mapping_view_push, lookup, mapping_view, Datum, DatumView,
};
use crate::front_matter::{FrontMatter, FrontMatterView};
use crate::paths::{path_file_stem, stem_or_index, url_of_stem};
use crate::text::{joined, text_view};

verus! {

/// The layout of a document that names none.
pub open spec fn default_layout() -> Seq<char> {
    "default"@
}

/// The name of the template that renders a document: its layout, or the
/// default layout where it names none, followed by `.html`.
pub open spec fn template_of(front_matter: FrontMatterView) -> Seq<char> {
    (match front_matter.layout {
        Some(layout) => layout,
        None => default_layout(),
    }) + ".html"@
}

/// A text that may be missing, as a value: null where it is missing.
pub open spec fn optional_text(s: Option<Seq<char>>) -> DatumView {
    match s {
        Some(s) => DatumView::Text(s),
        None => DatumView::Null,
    }
}

/// The `page` of a document: the three fields of its front matter under
/// their keys, and every entry of `extra`.
pub open spec fn page_of(front_matter: FrontMatterView) -> Map<Seq<char>, DatumView> {
    Map::empty().insert("title"@, optional_text(front_matter.title)).insert(
        "layout"@,
        optional_text(front_matter.layout),
    ).insert("lang"@, optional_text(front_matter.lang)).union_prefer_right(front_matter.extra)
}

/// The translations for `language`: the entry for it in the mapping that the
/// data table holds under `translations`, where there is one.
pub open spec fn translations_of(
    data: Map<Seq<char>, DatumView>,
    language: Seq<char>,
) -> Option<DatumView> {
    if data.contains_key("translations"@) && data["translations"@] is Mapping
        && data["translations"@]->Mapping_0.contains_key(language) {
        Some(data["translations"@]->Mapping_0[language])
    } else {
        None
    }
}

/// The addresses of the document at `path`, by language: one entry, for the
/// default language.
pub open spec fn language_urls_of(path: Seq<char>) -> Map<Seq<char>, DatumView> {
    Map::empty().insert(
        default_language(),
        DatumView::Text(url_of_stem(stem_or_index(path_file_stem(path)))),
    )
}

/// The context without the translations.
pub open spec fn base_context_of(
    document: ContentFileView,
    site: DatumView,
    data: Map<Seq<char>, DatumView>,
) -> Map<Seq<char>, DatumView> {
    Map::empty().insert("page"@, DatumView::Mapping(page_of(document.front_matter))).insert(
        "content"@,
        DatumView::Text(document.html_content),
    ).insert("site"@, site).insert("data"@, DatumView::Mapping(data)).insert(
        "lang"@,
        DatumView::Text(document.language),
    ).insert("language_urls"@, DatumView::Mapping(language_urls_of(document.path)))
}

/// The context in which a document is rendered. It has `t` exactly where
/// the data table has translations for the language of the document.
pub open spec fn context_of(
    document: ContentFileView,
    site: DatumView,
    data: Map<Seq<char>, DatumView>,
) -> Map<Seq<char>, DatumView> {
    match translations_of(data, document.language) {
        Some(t) => base_context_of(document, site, data).insert("t"@, t),
        None => base_context_of(document, site, data),
    }
}

/// The name of the template that renders a document: see [`template_of`].
pub fn template_name(front_matter: &FrontMatter) -> (r: String)
    ensures
        r@ == template_of(front_matter@),
{
    match &front_matter.layout {
        Some(layout) => joined(layout.as_str(), ".html"),
        None => joined("default", ".html"),
    }
}

fn optional(s: &Option<String>) -> (r: Datum)
    ensures
        r@ == optional_text(text_view(*s)),
{
    match s {
        Some(s) => Datum::Text(s.clone()),
        None => Datum::Null,
    }
}

/// The `page` of a document: see [`page_of`].
pub fn page(front_matter: &FrontMatter) -> (r: Datum)
    ensures
        r@ == DatumView::Mapping(page_of(front_matter@)),
{
    let mut out: Vec<(String, Datum)> = Vec::new();
    let title = optional(&front_matter.title);
    let layout = optional(&front_matter.layout);
    let lang = optional(&front_matter.lang);
    insert(&mut out, "title", title);
    insert(&mut out, "layout", layout);
    insert(&mut out, "lang", lang);
    let ghost fields = mapping_view(out@);
    let extra = &front_matter.extra;
    let mut i: usize = 0;
    proof {
        assert(fields.union_prefer_right(mapping_view(extra@.take(0))) =~= fields);
    }
    while i < extra.len()
        invariant
            i <= extra.len(),
            mapping_view(out@) == fields.union_prefer_right(mapping_view(extra@.take(i as int))),
        decreases extra.len() - i,
    {
        let key = extra[i].0.clone();
        let value = extra[i].1.duplicate();
        proof {
            let before = mapping_view(extra@.take(i as int));
            lemma_mapping_view_push(out@, (key, value));
            lemma_mapping_view_push(extra@.take(i as int), extra@[i as int]);
            assert(extra@.take(i + 1) == extra@.take(i as int).push(extra@[i as int]));
            assert(fields.union_prefer_right(before).insert(key@, value@)
                =~= fields.union_prefer_right(before.insert(key@, value@)));
        }
        out.push((key, value));
        i = i + 1;
    }
    proof {
        assert(extra@.take(i as int) == extra@);
    }
    Datum::Mapping(out)
}

/// The addresses of a document by language, as a value: see
/// [`language_urls_of`].
pub fn language_urls(document: &ContentFile) -> (r: Datum)
    ensures
        r@ == DatumView::Mapping(language_urls_of(document.path@)),
{
    let urls = document.get_language_urls();
    let mut out: Vec<(String, Datum)> = Vec::new();
    insert(&mut out, urls[0].0.as_str(), Datum::Text(urls[0].1.clone()));
    Datum::Mapping(out)
}

/// The translations for `language` in the data table: see
/// [`translations_of`].
pub fn translations<'a>(data: &'a Vec<(String, Datum)>, language: &str) -> (r: Option<&'a Datum>)
    ensures
        (match r {
            Some(t) => Some(t@),
            None => None,
        }) == translations_of(mapping_view(data@), language@),
{
    match lookup(data, "translations") {
        Some(Datum::Mapping(by_language)) => lookup(by_language, language),
        _ => None,
    }
}

/// Builds the context in which `document` is rendered: see [`context_of`].
pub fn render_context(
    document: &ContentFile,
    site_config: &Datum,
    data: &Vec<(String, Datum)>,
) -> (r: Datum)
    ensures
        r@ == DatumView::Mapping(context_of(document@, site_config@, mapping_view(data@))),
{
    let mut out: Vec<(String, Datum)> = Vec::new();
    insert(&mut out, "page", page(&document.front_matter));
    insert(&mut out, "content", Datum::Text(document.html_content.clone()));
    insert(&mut out, "site", site_config.duplicate());
    insert(&mut out, "data", Datum::Mapping(duplicate_entries(data)));
    insert(&mut out, "lang", Datum::Text(document.language.clone()));
    insert(&mut out, "language_urls", language_urls(document));
    match translations(data, document.language.as_str()) {
        Some(t) => {
            insert(&mut out, "t", t.duplicate());
        },
        None => {},
    }
    Datum::Mapping(out)
}

} // verus!
