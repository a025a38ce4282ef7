//! Narrowing of front-matter values: every number that is no whole number
//! is replaced by the whole number that it narrows to, at any depth.

use vstd::prelude::*;
use crate::datum::{
    lemma_mapping_view_push, lemma_sequence_view, mapping_view, sequence_view, Datum, DatumView,
};
use crate::decimal::{truncate, truncated};

verus! {

/// `v` with each `Decimal` in it replaced by the `Integer` it narrows to.
pub open spec fn narrowed(v: DatumView) -> DatumView
    decreases v,
{
    match v {
        DatumView::Decimal(s) => DatumView::Integer(truncated(s)),
        DatumView::Sequence(items) => DatumView::Sequence(
            Seq::new(
                items.len(),
                |i: int| if 0 <= i < items.len() { narrowed(items[i]) } else { DatumView::Null },
            ),
        ),
        DatumView::Mapping(m) => DatumView::Mapping(
            Map::new(
                |k: Seq<char>| m.contains_key(k),
                |k: Seq<char>| if m.contains_key(k) { narrowed(m[k]) } else { DatumView::Null },
            ),
        ),
        other => other,
    }
}

/// Whether `v` holds no `Decimal` at any depth.
pub open spec fn is_whole(v: DatumView) -> bool
    decreases v,
{
    match v {
        DatumView::Decimal(_) => false,
        DatumView::Sequence(items) => forall|i: int|
            0 <= i < items.len() ==> is_whole(#[trigger] items[i]),
        DatumView::Mapping(m) => forall|k: Seq<char>|
            m.contains_key(k) ==> is_whole(#[trigger] m[k]),
        _ => true,
    }
}

/// What is narrowed holds no `Decimal` any more.
pub proof fn lemma_narrowed_is_whole(v: DatumView)
    ensures
        is_whole(narrowed(v)),
    decreases v,
{
    match v {
        DatumView::Sequence(items) => {
            assert forall|i: int| 0 <= i < items.len() implies is_whole(
                #[trigger] narrowed(v)->Sequence_0[i],
            ) by {
                lemma_narrowed_is_whole(items[i]);
            }
        },
        DatumView::Mapping(m) => {
            assert forall|k: Seq<char>| m.contains_key(k) implies is_whole(
                #[trigger] narrowed(v)->Mapping_0[k],
            ) by {
                lemma_narrowed_is_whole(m[k]);
            }
        },
        _ => {},
    }
}

/// Narrowing leaves a value without a `Decimal` as it is.
pub proof fn lemma_narrowed_whole(v: DatumView)
    requires
        is_whole(v),
    ensures
        narrowed(v) == v,
    decreases v,
{
    match v {
        DatumView::Sequence(items) => {
            assert forall|i: int| 0 <= i < items.len() implies narrowed(items[i])
                == items[i] by {
                lemma_narrowed_whole(items[i]);
            }
            assert(narrowed(v)->Sequence_0 =~= items);
        },
        DatumView::Mapping(m) => {
            assert forall|k: Seq<char>| m.contains_key(k) implies narrowed(m[k]) == m[k] by {
                lemma_narrowed_whole(m[k]);
            }
            assert(narrowed(v)->Mapping_0 =~= m);
        },
        _ => {},
    }
}

/// The map of the narrowed values of `m`.
pub open spec fn narrowed_map(m: Map<Seq<char>, DatumView>) -> Map<Seq<char>, DatumView> {
    narrowed(DatumView::Mapping(m))->Mapping_0
}

/// Narrows a value: see [`narrowed`].
pub fn narrow(d: &Datum) -> (r: Datum)
    ensures
        r@ == narrowed(d@),
    decreases d,
{
    match d {
        Datum::Null => Datum::Null,
        Datum::Bool(b) => Datum::Bool(*b),
        Datum::Integer(n) => Datum::Integer(*n),
        Datum::Decimal(s) => Datum::Integer(truncate(s.as_str())),
        Datum::Text(s) => Datum::Text(s.clone()),
        Datum::Sequence(items) => {
            let mut out: Vec<Datum> = Vec::new();
            let mut i: usize = 0;
            while i < items.len()
                invariant
                    i <= items.len(),
                    d is Sequence,
                    d->Sequence_0 == *items,
                    out.len() == i,
                    forall|k: int| 0 <= k < i ==> (#[trigger] out@[k])@ == narrowed(items@[k]@),
                decreases items.len() - i,
            {
                let item = narrow(&items[i]);
                out.push(item);
                i = i + 1;
            }
            proof {
                lemma_sequence_view(out@);
                lemma_sequence_view(items@);
                assert(sequence_view(out@) =~= narrowed(d@)->Sequence_0);
            }
            Datum::Sequence(out)
        },
        Datum::Mapping(entries) => {
            let mut out: Vec<(String, Datum)> = Vec::new();
            let mut i: usize = 0;
            while i < entries.len()
                invariant
                    i <= entries.len(),
                    d is Mapping,
                    d->Mapping_0 == *entries,
                    mapping_view(out@) == narrowed_map(mapping_view(entries@.take(i as int))),
                decreases entries.len() - i,
            {
                let key = entries[i].0.clone();
                let value = narrow(&entries[i].1);
                proof {
                    let before = entries@.take(i as int);
                    lemma_mapping_view_push(out@, (key, value));
                    lemma_mapping_view_push(before, entries@[i as int]);
                    assert(entries@.take(i + 1) == before.push(entries@[i as int]));
                    assert(narrowed_map(mapping_view(before).insert(key@, entries@[i as int].1@))
                        =~= narrowed_map(mapping_view(before)).insert(key@, value@));
                }
                out.push((key, value));
                i = i + 1;
            }
            proof {
                assert(entries@.take(i as int) == entries@);
            }
            Datum::Mapping(out)
        },
    }
}

} // verus!
