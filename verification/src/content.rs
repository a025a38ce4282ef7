//! Content resolution: from the text of a content file to a document.

use vstd::prelude::*;
use crate::error::ContentError;
use crate::front_matter::{FrontMatter, FrontMatterView};
use crate::markdown::{markdown_html, standard_features, to_html};
use crate::paths::{
    file_for_stem, file_of_stem, path_file_stem, path_strip_prefix, publication_stem,
    stem_or_index, strip_prefix, url_for_stem, url_of_stem,
};
use crate::source::{source_body, source_front_matter, split_source};
use crate::text::{owned, starts_with, text_view};

verus! {

/// One resolved content file.
#[derive(Debug, Clone)]
pub struct ContentFile {
    /// The path of the file.
    pub path: String,
    /// The path of the file below the source root.
    pub relative_path: String,
    pub front_matter: FrontMatter,
    /// The body of the file: its text without the front-matter block.
    pub content: String,
    /// The body, converted to HTML.
    pub html_content: String,
    /// The collection that the file belongs to, if any.
    pub collection: Option<String>,
    pub language: String,
}

/// A [`ContentFile`] over mathematical sequences and maps.
pub struct ContentFileView {
    pub path: Seq<char>,
    pub relative_path: Seq<char>,
    pub front_matter: FrontMatterView,
    pub content: Seq<char>,
    pub html_content: Seq<char>,
    pub collection: Option<Seq<char>>,
    pub language: Seq<char>,
}

impl View for ContentFile {
    type V = ContentFileView;

    open spec fn view(&self) -> ContentFileView {
        ContentFileView {
            path: self.path@,
            relative_path: self.relative_path@,
            front_matter: self.front_matter@,
            content: self.content@,
            html_content: self.html_content@,
            collection: text_view(self.collection),
            language: self.language@,
        }
    }
}

impl ContentFileView {
    /// Whether the parts of the document agree: the front matter is well
    /// formed, the HTML is the conversion of the body, the collection is
    /// that of the path, and the language is the default language.
    pub open spec fn well_formed(self) -> bool {
        &&& self.front_matter.well_formed()
        &&& self.html_content == markdown_html(self.content, standard_features())
        &&& self.collection == collection_of(self.relative_path)
        &&& self.language == default_language()
    }
}

/// The language of every document.
pub open spec fn default_language() -> Seq<char> {
    "en"@
}

/// The collection of a file, by its path below the source root: `pages`
/// where the path begins with `_pages`, else none.
pub open spec fn collection_of(relative_path: Seq<char>) -> Option<Seq<char>> {
    if "_pages"@.is_prefix_of(relative_path) {
        Some("pages"@)
    } else {
        None
    }
}

/// The document that a content file resolves to, from its path, the source
/// root and its text; or the error with which resolution fails.
pub open spec fn document_of(path: Seq<char>, source_root: Seq<char>, text: Seq<char>) -> Result<
    ContentFileView,
    ContentError,
> {
    match source_front_matter(text) {
        Err(e) => Err(e),
        Ok(front_matter) => match path_strip_prefix(path, source_root) {
            None => Err(ContentError::Path),
            Some(relative_path) => Ok(
                ContentFileView {
                    path,
                    relative_path,
                    front_matter,
                    content: source_body(text),
                    html_content: markdown_html(source_body(text), standard_features()),
                    collection: collection_of(relative_path),
                    language: default_language(),
                },
            ),
        },
    }
}

impl ContentFile {
    /// Resolves the content file at `path`, whose text is `text`.
    ///
    /// The text is split into front matter and body, the body is converted
    /// to HTML, and the path is located below `source_root`. Fails with
    /// `ContentError::Parse` where the front-matter block is not well-formed
    /// YAML, and else with `ContentError::Path` where `path` does not lie
    /// under `source_root`.
    pub fn from_path(path: &str, source_root: &str, text: &str) -> (r: Result<
        ContentFile,
        ContentError,
    >)
        ensures
            match r {
                Ok(file) => document_of(path@, source_root@, text@) == Ok::<
                    ContentFileView,
                    ContentError,
                >(file@),
                Err(e) => document_of(path@, source_root@, text@) == Err::<
                    ContentFileView,
                    ContentError,
                >(e),
            },
            r matches Ok(file) ==> file@.well_formed(),
    {
        let (front_matter, content) = match split_source(text) {
            Ok(parts) => parts,
            Err(e) => {
                return Err(e);
            },
        };
        let html_content = to_html(content.as_str());
        let relative_path = match strip_prefix(path, source_root) {
            Some(relative_path) => relative_path,
            None => {
                return Err(ContentError::Path);
            },
        };
        let (collection, language) = ContentFile::extract_collection_and_language(
            relative_path.as_str(),
        );
        Ok(
            ContentFile {
                path: owned(path),
                relative_path,
                front_matter,
                content,
                html_content,
                collection,
                language,
            },
        )
    }

    /// The collection and the language of the file at `relative_path`.
    pub fn extract_collection_and_language(relative_path: &str) -> (r: (Option<String>, String))
        ensures
            text_view(r.0) == collection_of(relative_path@),
            r.1@ == default_language(),
    {
        if starts_with(relative_path, "_pages") {
            (Some(owned("pages")), owned("en"))
        } else {
            (None, owned("en"))
        }
    }

    /// The address under which the document is published.
    pub fn get_output_path(&self, _base_url: &str) -> (r: String)
        ensures
            r@ == url_of_stem(stem_or_index(path_file_stem(self.path@))),
    {
        let stem = publication_stem(self.path.as_str());
        url_for_stem(stem.as_str())
    }

    /// The output file of the document, relative to the output root.
    pub fn get_file_path(&self) -> (r: String)
        ensures
            r@ == file_of_stem(stem_or_index(path_file_stem(self.path@))),
    {
        let stem = publication_stem(self.path.as_str());
        file_for_stem(stem.as_str())
    }

    /// The address of the document in each language: one entry, for the
    /// default language.
    pub fn get_language_urls(&self) -> (r: Vec<(String, String)>)
        ensures
            r@.len() == 1,
            r@[0].0@ == default_language(),
            r@[0].1@ == url_of_stem(stem_or_index(path_file_stem(self.path@))),
    {
        let mut urls: Vec<(String, String)> = Vec::new();
        urls.push((owned("en"), self.get_output_path("")));
        urls
    }
}

} // verus!
