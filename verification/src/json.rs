//! The boundary to `serde_json` and `serde_yaml`: structured documents are
//! read by those crates and brought into the library's own value model here.

use vstd::prelude::*;
use crate::datum::{Datum, DatumView};
use crate::narrow::is_whole;

verus! {

/// `serde_json::Value`, a JSON document. The library sees no part of it:
/// what it holds is named by [`json_view`].
#[verifier::external_type_specification]
#[verifier::external_body]
pub struct ExJsonValue(serde_json::Value);

/// `serde_json::Error`, of which the library reads only the message.
#[verifier::external_type_specification]
#[verifier::external_body]
pub struct ExJsonError(serde_json::Error);

/// `serde_yaml::Error`, of which the library reads only the message.
#[verifier::external_type_specification]
#[verifier::external_body]
pub struct ExYamlError(serde_yaml::Error);

/// The value that a `serde_json::Value` holds, in the library's model: null,
/// booleans, strings, arrays and objects are the variant of the same kind, a
/// number that is an `i64` is an `Integer`, and any other number is a
/// `Decimal` of the text that `serde_json` prints for it.
pub uninterp spec fn json_view(json: serde_json::Value) -> DatumView;

/// What `serde_yaml::from_str` reads from `text` as a `serde_json::Value`:
/// the document, or `None` where the text is refused.
pub uninterp spec fn yaml_document(text: Seq<char>) -> Option<DatumView>;

/// What `serde_json::from_str` reads from `text` as a `serde_json::Value`:
/// the document, or `None` where the text is refused.
pub uninterp spec fn json_document(text: Seq<char>) -> Option<DatumView>;

/// Copies a `serde_json::Value` into a [`Datum`], variant by variant. The
/// contract only says that the copy is the value that `json_view` names.
#[verifier::external_body]
pub(crate) fn json_to_datum(json: &serde_json::Value) -> (d: Datum)
    ensures
        d@ == json_view(*json),
{
    match json {
        serde_json::Value::Null => Datum::Null,
        serde_json::Value::Bool(b) => Datum::Bool(*b),
        serde_json::Value::Number(n) => match n.as_i64() {
            Some(i) => Datum::Integer(i),
            None => Datum::Decimal(n.to_string()),
        },
        serde_json::Value::String(s) => Datum::Text(s.clone()),
        serde_json::Value::Array(a) => Datum::Sequence(a.iter().map(json_to_datum).collect()),
        serde_json::Value::Object(m) => Datum::Mapping(
            m.iter().map(|(k, v)| (k.clone(), json_to_datum(v))).collect(),
        ),
    }
}

/// The number that a `Decimal` becomes in a JSON document: what
/// `serde_json` reads from its text, where that is a number, and null where
/// the text is refused or is no number.
pub open spec fn number_form(text: Seq<char>) -> DatumView {
    match json_document(text) {
        Some(DatumView::Integer(n)) => DatumView::Integer(n),
        Some(DatumView::Decimal(s)) => DatumView::Decimal(s),
        _ => DatumView::Null,
    }
}

/// The value that `v` is as a JSON document: `v` with each `Decimal` in it
/// replaced by its `number_form`.
pub open spec fn json_form(v: DatumView) -> DatumView
    decreases v,
{
    match v {
        DatumView::Decimal(s) => number_form(s),
        DatumView::Sequence(items) => DatumView::Sequence(
            Seq::new(
                items.len(),
                |i: int| if 0 <= i < items.len() { json_form(items[i]) } else { DatumView::Null },
            ),
        ),
        DatumView::Mapping(m) => DatumView::Mapping(
            Map::new(
                |k: Seq<char>| m.contains_key(k),
                |k: Seq<char>| if m.contains_key(k) { json_form(m[k]) } else { DatumView::Null },
            ),
        ),
        other => other,
    }
}

/// A value without a `Decimal` is its own JSON form.
pub proof fn lemma_json_form_whole(v: DatumView)
    requires
        is_whole(v),
    ensures
        json_form(v) == v,
    decreases v,
{
    match v {
        DatumView::Sequence(items) => {
            assert forall|i: int| 0 <= i < items.len() implies json_form(items[i])
                == items[i] by {
                lemma_json_form_whole(items[i]);
            }
            assert(json_form(v)->Sequence_0 =~= items);
        },
        DatumView::Mapping(m) => {
            assert forall|k: Seq<char>| m.contains_key(k) implies json_form(m[k]) == m[k] by {
                lemma_json_form_whole(m[k]);
            }
            assert(json_form(v)->Mapping_0 =~= m);
        },
        _ => {},
    }
}

/// Copies a [`Datum`] into a `serde_json::Value`, variant by variant. The
/// entries of a mapping are entered one after the other with `Map::insert`,
/// which replaces the value of a key that is there, so the last entry of a
/// key counts. The text of a `Decimal` is read by `serde_json::from_str`,
/// and what is read is kept where it is a number and is null where it is
/// not.
#[verifier::external_body]
pub(crate) fn datum_to_json(d: &Datum) -> (json: serde_json::Value)
    ensures
        json_view(json) == json_form(d@),
{
    match d {
        Datum::Null => serde_json::Value::Null,
        Datum::Bool(b) => serde_json::Value::Bool(*b),
        Datum::Integer(n) => serde_json::Value::from(*n),
        Datum::Decimal(s) => serde_json::from_str(s).ok().filter(serde_json::Value::is_number).unwrap_or(serde_json::Value::Null),
        Datum::Text(s) => serde_json::Value::String(s.clone()),
        Datum::Sequence(items) => serde_json::Value::Array(items.iter().map(datum_to_json).collect()),
        Datum::Mapping(entries) => serde_json::Value::Object(entries.iter().fold(serde_json::Map::new(), |mut map, e| {
            map.insert(e.0.clone(), datum_to_json(&e.1));
            map
        })),
    }
}

/// Calls `serde_yaml::from_str` for a `serde_json::Value`. The crate reads a
/// text the same way each time, so the outcome is the one `yaml_document`
/// names.
#[verifier::external_body]
pub(crate) fn yaml_from_str(text: &str) -> (r: Result<serde_json::Value, serde_yaml::Error>)
    ensures
        match r {
            Ok(json) => yaml_document(text@) == Some(json_view(json)),
            Err(_) => yaml_document(text@) is None,
        },
{
    serde_yaml::from_str::<serde_json::Value>(text)
}

/// Calls `serde_json::from_str` for a `serde_json::Value`. The crate reads a
/// text the same way each time, so the outcome is the one `json_document`
/// names.
#[verifier::external_body]
pub(crate) fn json_from_str(text: &str) -> (r: Result<serde_json::Value, serde_json::Error>)
    ensures
        match r {
            Ok(json) => json_document(text@) == Some(json_view(json)),
            Err(_) => json_document(text@) is None,
        },
{
    serde_json::from_str::<serde_json::Value>(text)
}

/// The message of a `serde_yaml::Error`, as its `Display` gives it.
#[verifier::external_body]
pub(crate) fn yaml_error_text(error: &serde_yaml::Error) -> String {
    error.to_string()
}

/// The message of a `serde_json::Error`, as its `Display` gives it.
#[verifier::external_body]
pub(crate) fn json_error_text(error: &serde_json::Error) -> String {
    error.to_string()
}

/// Reads a YAML document into the library's model.
pub fn parse_yaml(text: &str) -> (r: Result<Datum, String>)
    ensures
        match r {
            Ok(d) => yaml_document(text@) == Some(d@),
            Err(_) => yaml_document(text@) is None,
        },
{
    match yaml_from_str(text) {
        Ok(json) => Ok(json_to_datum(&json)),
        Err(e) => Err(yaml_error_text(&e)),
    }
}

/// Reads a JSON document into the library's model.
pub fn parse_json(text: &str) -> (r: Result<Datum, String>)
    ensures
        match r {
            Ok(d) => json_document(text@) == Some(d@),
            Err(_) => json_document(text@) is None,
        },
{
    match json_from_str(text) {
        Ok(json) => Ok(json_to_datum(&json)),
        Err(e) => Err(json_error_text(&e)),
    }
}

} // verus!
