//! Front matter: the metadata block at the head of a content file.

use vstd::prelude::*;
use crate::datum::{lemma_mapping_view_push, mapping_view, Datum, DatumView};
use crate::narrow::{narrow, narrowed};
use crate::text::{same_text, text_view};

verus! {

/// The metadata of one content file: three fields of its own for the keys
/// `title`, `layout` and `lang`, and every other key under `extra`.
#[derive(Debug, Clone)]
pub struct FrontMatter {
    pub title: Option<String>,
    pub layout: Option<String>,
    pub lang: Option<String>,
    pub extra: Vec<(String, Datum)>,
}

/// A [`FrontMatter`] over mathematical sequences and maps: `extra` is the
/// map that its entries make.
pub struct FrontMatterView {
    pub title: Option<Seq<char>>,
    pub layout: Option<Seq<char>>,
    pub lang: Option<Seq<char>>,
    pub extra: Map<Seq<char>, DatumView>,
}

impl View for FrontMatter {
    type V = FrontMatterView;

    open spec fn view(&self) -> FrontMatterView {
        FrontMatterView {
            title: text_view(self.title),
            layout: text_view(self.layout),
            lang: text_view(self.lang),
            extra: mapping_view(self.extra@),
        }
    }
}

/// Whether `key` is one of the keys that have a field of their own.
pub open spec fn is_reserved(key: Seq<char>) -> bool {
    key == "title"@ || key == "layout"@ || key == "lang"@
}

/// The text under `key`, where the document has the key and its value is a
/// text.
pub open spec fn text_at(m: Map<Seq<char>, DatumView>, key: Seq<char>) -> Option<Seq<char>> {
    if m.contains_key(key) && m[key] is Text {
        Some(m[key]->Text_0)
    } else {
        None
    }
}

/// The front matter that a key/value document resolves to. A reserved key is
/// taken into its field where its value is a text and dropped where it is
/// not; every other key goes to `extra` with its value narrowed.
pub open spec fn resolved(m: Map<Seq<char>, DatumView>) -> FrontMatterView {
    FrontMatterView {
        title: text_at(m, "title"@),
        layout: text_at(m, "layout"@),
        lang: text_at(m, "lang"@),
        extra: Map::new(
            |k: Seq<char>| m.contains_key(k) && !is_reserved(k),
            |k: Seq<char>| narrowed(m[k]),
        ),
    }
}

impl FrontMatterView {
    /// Whether the keys that have a field of their own are kept out of
    /// `extra`.
    pub open spec fn well_formed(self) -> bool {
        forall|key: Seq<char>| is_reserved(key) ==> !self.extra.contains_key(key)
    }
}

/// The front matter of a file without a front-matter block.
pub open spec fn no_front_matter() -> FrontMatterView {
    FrontMatterView { title: None, layout: None, lang: None, extra: Map::empty() }
}

proof fn lemma_reserved_keys_differ()
    ensures
        "title"@ != "layout"@,
        "title"@ != "lang"@,
        "layout"@ != "lang"@,
{
    reveal_strlit("title");
    reveal_strlit("layout");
    reveal_strlit("lang");
    assert("title"@.len() == 5);
    assert("layout"@.len() == 6);
    assert("lang"@.len() == 4);
}

/// The text of `value`, if it is one.
fn as_text(value: &Datum) -> (r: Option<String>)
    ensures
        text_view(r) == (if value@ is Text {
            Some(value@->Text_0)
        } else {
            None
        }),
{
    match value {
        Datum::Text(s) => Some(s.clone()),
        _ => None,
    }
}

impl FrontMatter {
    /// The front matter of a file without a front-matter block.
    pub fn empty() -> (r: FrontMatter)
        ensures
            r@ == no_front_matter(),
            r@.well_formed(),
    {
        FrontMatter { title: None, layout: None, lang: None, extra: Vec::new() }
    }

    /// Resolves the entries of a key/value document: see [`resolved`].
    pub fn from_entries(entries: &Vec<(String, Datum)>) -> (r: FrontMatter)
        ensures
            r@ == resolved(mapping_view(entries@)),
            r@.well_formed(),
    {
        let mut fm = FrontMatter::empty();
        let mut i: usize = 0;
        proof {
            lemma_reserved_keys_differ();
            assert(fm@.extra =~= resolved(mapping_view(entries@.take(0))).extra);
        }
        while i < entries.len()
            invariant
                i <= entries.len(),
                fm@ == resolved(mapping_view(entries@.take(i as int))),
                "title"@ != "layout"@,
                "title"@ != "lang"@,
                "layout"@ != "lang"@,
            decreases entries.len() - i,
        {
            let key = entries[i].0.as_str();
            let value = &entries[i].1;
            let ghost before = mapping_view(entries@.take(i as int));
            proof {
                lemma_mapping_view_push(entries@.take(i as int), entries@[i as int]);
                assert(entries@.take(i + 1) == entries@.take(i as int).push(entries@[i as int]));
            }
            if same_text(key, "title") {
                fm.title = as_text(value);
                proof {
                    assert(fm@.extra =~= resolved(before.insert(key@, value@)).extra);
                }
            } else if same_text(key, "layout") {
                fm.layout = as_text(value);
                proof {
                    assert(fm@.extra =~= resolved(before.insert(key@, value@)).extra);
                }
            } else if same_text(key, "lang") {
                fm.lang = as_text(value);
                proof {
                    assert(fm@.extra =~= resolved(before.insert(key@, value@)).extra);
                }
            } else {
                let kept = narrow(value);
                let owned_key = entries[i].0.clone();
                proof {
                    lemma_mapping_view_push(fm.extra@, (owned_key, kept));
                    assert(fm@.extra.insert(key@, kept@) =~= resolved(
                        before.insert(key@, value@),
                    ).extra);
                }
                fm.extra.push((owned_key, kept));
            }
            i = i + 1;
        }
        proof {
            assert(entries@.take(i as int) == entries@);
        }
        fm
    }
}

} // verus!
