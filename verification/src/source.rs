//! The text of a content file: whether it opens with a front-matter block,
//! and how it splits into front matter and body.
//!
//! A front-matter block opens with a delimiter line as the first line of the
//! file and closes with the next delimiter line. A delimiter line is three
//! hyphens, followed by nothing but white space.

use vstd::prelude::*;
use crate::datum::{Datum, DatumView};
use crate::error::ContentError;
use crate::front_matter::{no_front_matter, resolved, FrontMatter, FrontMatterView};
use crate::json::{parse_yaml, yaml_document};
use crate::text::{chars_of, owned};

verus! {

/// White space, as `char::is_whitespace` has it.
pub open spec fn is_space(c: char) -> bool {
    let u = c as u32;
    (9 <= u <= 13) || u == 0x20 || u == 0x85 || u == 0xA0 || u == 0x1680 || (0x2000 <= u
        <= 0x200A) || u == 0x2028 || u == 0x2029 || u == 0x202F || u == 0x205F || u == 0x3000
}

/// Whether `line` is a delimiter line: three hyphens, followed by nothing
/// but white space.
pub open spec fn is_delimiter_line(line: Seq<char>) -> bool {
    &&& line.len() >= 3
    &&& line[0] == '-'
    &&& line[1] == '-'
    &&& line[2] == '-'
    &&& forall|i: int| 3 <= i < line.len() ==> is_space(#[trigger] line[i])
}

/// Where the line that starts at `from` ends: at the next line feed, or at
/// the end of the text.
pub open spec fn line_end(text: Seq<char>, from: int) -> int
    decreases text.len() - from,
{
    if 0 <= from < text.len() && text[from] != '\n' {
        line_end(text, from + 1)
    } else {
        from
    }
}

/// Whether a delimiter line starts at `start`.
pub open spec fn delimiter_at(text: Seq<char>, start: int) -> bool {
    0 <= start < text.len() && is_delimiter_line(text.subrange(start, line_end(text, start)))
}

/// Whether `text` opens with a front-matter block: its first line is a
/// delimiter line and ends in a line feed, and a later line is one too.
pub open spec fn has_block(text: Seq<char>) -> bool {
    let first = line_end(text, 0);
    &&& first < text.len()
    &&& delimiter_at(text, 0)
    &&& exists|start: int|
        first < start < text.len() && text[start - 1] == '\n' && #[trigger] delimiter_at(
            text,
            start,
        )
}

fn is_space_char(c: char) -> (r: bool)
    ensures
        r == is_space(c),
{
    let u: u32 = c as u32;
    (9 <= u && u <= 13) || u == 0x20 || u == 0x85 || u == 0xA0 || u == 0x1680 || (0x2000 <= u
        && u <= 0x200A) || u == 0x2028 || u == 0x2029 || u == 0x202F || u == 0x205F || u
        == 0x3000
}

fn find_line_end(s: &Vec<char>, from: usize) -> (end: usize)
    requires
        from <= s.len(),
    ensures
        end == line_end(s@, from as int),
        from <= end <= s.len(),
        forall|k: int| from <= k < end ==> #[trigger] s@[k] != '\n',
        end < s.len() ==> s@[end as int] == '\n',
{
    let mut i: usize = from;
    while i < s.len() && s[i] != '\n'
        invariant
            from <= i <= s.len(),
            line_end(s@, from as int) == line_end(s@, i as int),
            forall|k: int| from <= k < i ==> #[trigger] s@[k] != '\n',
        decreases s.len() - i,
    {
        i = i + 1;
    }
    i
}

fn is_delimiter(s: &Vec<char>, from: usize, to: usize) -> (r: bool)
    requires
        from <= to <= s.len(),
    ensures
        r == is_delimiter_line(s@.subrange(from as int, to as int)),
{
    let ghost line = s@.subrange(from as int, to as int);
    if to - from < 3 || s[from] != '-' || s[from + 1] != '-' || s[from + 2] != '-' {
        return false;
    }
    let mut i: usize = from + 3;
    while i < to
        invariant
            from + 3 <= i <= to <= s.len(),
            line == s@.subrange(from as int, to as int),
            forall|k: int| 3 <= k < i - from ==> is_space(#[trigger] line[k]),
        decreases to - i,
    {
        if !is_space_char(s[i]) {
            proof {
                assert(!is_space(line[i - from]));
            }
            return false;
        }
        i = i + 1;
    }
    true
}

/// Whether `text` opens with a front-matter block.
pub fn has_front_matter(text: &str) -> (r: bool)
    ensures
        r == has_block(text@),
{
    let s = chars_of(text);
    let first: usize = find_line_end(&s, 0);
    if first >= s.len() || !is_delimiter(&s, 0, first) {
        return false;
    }
    let mut start: usize = first + 1;
    while start < s.len()
        invariant
            s@ == text@,
            first == line_end(s@, 0),
            first < s.len(),
            delimiter_at(s@, 0),
            first < start <= s.len(),
            s@[start - 1] == '\n',
            forall|p: int|
                first < p < start && s@[p - 1] == '\n' ==> !#[trigger] delimiter_at(s@, p),
        decreases s.len() - start,
    {
        let end: usize = find_line_end(&s, start);
        if is_delimiter(&s, start, end) {
            assert(delimiter_at(s@, start as int));
            return true;
        }
        assert forall|p: int| first < p <= end && s@[p - 1] == '\n' implies !#[trigger] delimiter_at(
            s@,
            p,
        ) by {
            if p > start {
                assert(s@[p - 1] != '\n');
            }
        }
        if end >= s.len() {
            return false;
        }
        start = end + 1;
    }
    false
}

/// `gray_matter::Pod`, the data of a front-matter block as `gray_matter`
/// hands it out. The library sees no part of it: what it holds is named by
/// [`pod_view`].
#[verifier::external_type_specification]
#[verifier::external_body]
pub struct ExPod(gray_matter::Pod);

/// The value that a `gray_matter::Pod` holds, in the library's model: each
/// variant is the variant of the same meaning, and a float is a `Decimal` of
/// its exact value in decimal notation (`inf`, `-inf` or `NaN` where it holds
/// no number).
pub uninterp spec fn pod_view(pod: gray_matter::Pod) -> DatumView;

/// What `gray_matter` makes of a text with its YAML engine: the data of the
/// front matter, where it finds any; the content that is left; and the text
/// of the front matter as it stood between the delimiters.
pub uninterp spec fn matter_split(text: Seq<char>) -> (Option<DatumView>, Seq<char>, Seq<char>);

/// Copies a `gray_matter::Pod` into a [`Datum`], variant by variant. A float
/// is written with 1074 digits behind the point, which is as many as a
/// 64-bit float can have, so that the text is its exact value. The contract
/// only says that the copy is the value that `pod_view` names.
#[verifier::external_body]
fn pod_to_datum(pod: &gray_matter::Pod) -> (d: Datum)
    ensures
        d@ == pod_view(*pod),
{
    match pod {
        gray_matter::Pod::Null => Datum::Null,
        gray_matter::Pod::String(s) => Datum::Text(s.clone()),
        gray_matter::Pod::Integer(n) => Datum::Integer(*n),
        gray_matter::Pod::Float(f) => Datum::Decimal(format!("{:.1074}", f)),
        gray_matter::Pod::Boolean(b) => Datum::Bool(*b),
        gray_matter::Pod::Array(items) => Datum::Sequence(items.iter().map(pod_to_datum).collect()),
        gray_matter::Pod::Hash(entries) => Datum::Mapping(
            entries.iter().map(|(k, v)| (k.clone(), pod_to_datum(v))).collect(),
        ),
    }
}

/// Calls `Matter::<YAML>::parse` of `gray_matter` and hands back the `data`,
/// the `content` and the `matter` of what it returns. The crate splits a
/// text the same way each time, so the three are what `matter_split` names;
/// nothing more is claimed of them.
#[verifier::external_body]
fn split_matter(text: &str) -> (r: (Option<gray_matter::Pod>, String, String))
    ensures
        r.1@ == matter_split(text@).1,
        r.2@ == matter_split(text@).2,
        match r.0 {
            Some(pod) => matter_split(text@).0 == Some(pod_view(pod)),
            None => matter_split(text@).0 is None,
        },
{
    let parsed = gray_matter::Matter::<gray_matter::engine::YAML>::new().parse(text);
    (parsed.data, parsed.content, parsed.matter)
}

/// The data of the front matter of `text`: none where `text` opens with no
/// front-matter block, or with an empty one.
pub open spec fn source_data(text: Seq<char>) -> Option<DatumView> {
    if has_block(text) {
        matter_split(text).0
    } else {
        None
    }
}

/// The body of `text`: all of it where it opens with no front-matter block,
/// else what is left without the block.
pub open spec fn source_body(text: Seq<char>) -> Seq<char> {
    if has_block(text) {
        matter_split(text).1
    } else {
        text
    }
}

/// What the YAML parser reads between the delimiters of `text`.
pub open spec fn source_document(text: Seq<char>) -> Option<DatumView> {
    yaml_document(matter_split(text).2)
}

/// The front matter that the data of a block resolves to, where `document`
/// is what the YAML parser reads in the block.
///
/// A key/value document is resolved. A block without data gives the empty
/// front matter, and so does data that is a list or a single value. Null
/// data is what `gray_matter` hands out both for a block that holds nothing
/// (a comment, an explicit null) and for one that its parser refuses: it
/// gives the empty front matter where the YAML parser reads the block as
/// null too, and is refused as malformed where it does not.
pub open spec fn front_matter_of(data: Option<DatumView>, document: Option<DatumView>) -> Result<
    FrontMatterView,
    ContentError,
> {
    match data {
        Some(DatumView::Mapping(m)) => Ok(resolved(m)),
        Some(DatumView::Null) => if document == Some(DatumView::Null) {
            Ok(no_front_matter())
        } else {
            Err(ContentError::Parse)
        },
        _ => Ok(no_front_matter()),
    }
}

/// The front matter of `text`, or the error with which it is refused.
pub open spec fn source_front_matter(text: Seq<char>) -> Result<FrontMatterView, ContentError> {
    front_matter_of(source_data(text), source_document(text))
}

/// The view of a value that may be missing.
pub open spec fn datum_option_view(data: Option<Datum>) -> Option<DatumView> {
    match data {
        Some(d) => Some(d@),
        None => None,
    }
}

/// Resolves the data of a front-matter block: see [`front_matter_of`].
pub fn resolve_front_matter(data: &Option<Datum>, document: &Option<Datum>) -> (r: Result<
    FrontMatter,
    ContentError,
>)
    ensures
        match r {
            Ok(fm) => front_matter_of(datum_option_view(*data), datum_option_view(*document))
                == Ok::<FrontMatterView, ContentError>(fm@),
            Err(e) => front_matter_of(datum_option_view(*data), datum_option_view(*document))
                == Err::<FrontMatterView, ContentError>(e),
        },
        r matches Ok(fm) ==> fm@.well_formed(),
{
    match data {
        Some(Datum::Mapping(entries)) => Ok(FrontMatter::from_entries(entries)),
        Some(Datum::Null) => match document {
            Some(Datum::Null) => Ok(FrontMatter::empty()),
            _ => Err(ContentError::Parse),
        },
        _ => Ok(FrontMatter::empty()),
    }
}

/// Splits the text of a content file into its front matter and its body.
///
/// A text that opens with no front-matter block is all body. A block is
/// read by `gray_matter`, and the body is the content that it leaves.
pub fn split_source(text: &str) -> (r: Result<(FrontMatter, String), ContentError>)
    ensures
        match r {
            Ok(parts) => source_front_matter(text@) == Ok::<FrontMatterView, ContentError>(
                parts.0@,
            ) && parts.1@ == source_body(text@),
            Err(e) => source_front_matter(text@) == Err::<FrontMatterView, ContentError>(e),
        },
        r matches Ok(parts) ==> parts.0@.well_formed(),
{
    if !has_front_matter(text) {
        return Ok((FrontMatter::empty(), owned(text)));
    }
    let (found, body, matter) = split_matter(text);
    let data: Option<Datum> = match found {
        Some(pod) => Some(pod_to_datum(&pod)),
        None => None,
    };
    let document: Option<Datum> = match &data {
        Some(Datum::Null) => match parse_yaml(matter.as_str()) {
            Ok(d) => Some(d),
            Err(_) => None,
        },
        _ => None,
    };
    match resolve_front_matter(&data, &document) {
        Ok(fm) => Ok((fm, body)),
        Err(e) => Err(e),
    }
}

} // verus!
