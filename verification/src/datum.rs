//! The generic value model: front-matter values, data tables, site
//! configuration and render contexts are all trees of [`Datum`].

use vstd::prelude::*;
use crate::text::{owned, same_text};

verus! {

/// A dynamically shaped value, as a closed set of variants.
///
/// A `Mapping` is kept as its entries in insertion order. Where a key occurs
/// more than once the last entry is the one that counts, as after repeated
/// insertion into a map.
#[derive(Debug)]
pub enum Datum {
    Null,
    Bool(bool),
    /// A whole number.
    Integer(i64),
    /// A number that is no `i64`, in decimal notation (`1.5`, `2e30`).
    /// `inf`, `-inf` and `NaN` stand for what a float holds beside numbers.
    Decimal(String),
    Text(String),
    Sequence(Vec<Datum>),
    Mapping(Vec<(String, Datum)>),
}

/// What a [`Datum`] stands for: the same tree over mathematical sequences and
/// maps, in which a mapping has forgotten the order of its entries.
pub enum DatumView {
    Null,
    Bool(bool),
    Integer(int),
    Decimal(Seq<char>),
    Text(Seq<char>),
    Sequence(Seq<DatumView>),
    Mapping(Map<Seq<char>, DatumView>),
}

/// The views of `items`, element by element.
pub open spec fn sequence_view(items: Seq<Datum>) -> Seq<DatumView>
    decreases items, 0int,
{
    if items.len() == 0 {
        Seq::empty()
    } else {
        sequence_view(items.drop_last()).push(datum_view(items.last()))
    }
}

/// The map that results from inserting `entries` one after the other.
pub open spec fn mapping_view(entries: Seq<(String, Datum)>) -> Map<Seq<char>, DatumView>
    decreases entries, 0int,
{
    if entries.len() == 0 {
        Map::empty()
    } else {
        mapping_view(entries.drop_last()).insert(entries.last().0@, datum_view(entries.last().1))
    }
}

/// The view of one value.
pub open spec fn datum_view(d: Datum) -> DatumView
    decreases d, 1int,
{
    match d {
        Datum::Null => DatumView::Null,
        Datum::Bool(b) => DatumView::Bool(b),
        Datum::Integer(n) => DatumView::Integer(n as int),
        Datum::Decimal(s) => DatumView::Decimal(s@),
        Datum::Text(s) => DatumView::Text(s@),
        Datum::Sequence(items) => DatumView::Sequence(sequence_view(items@)),
        Datum::Mapping(entries) => DatumView::Mapping(mapping_view(entries@)),
    }
}

impl View for Datum {
    type V = DatumView;

    open spec fn view(&self) -> DatumView {
        datum_view(*self)
    }
}

/// `sequence_view` keeps the length and views each element in place.
pub proof fn lemma_sequence_view(items: Seq<Datum>)
    ensures
        sequence_view(items).len() == items.len(),
        forall|i: int| 0 <= i < items.len() ==> #[trigger] sequence_view(items)[i] == items[i]@,
    decreases items.len(),
{
    if items.len() > 0 {
        lemma_sequence_view(items.drop_last());
    }
}

/// Appending an element appends its view.
pub proof fn lemma_sequence_view_push(items: Seq<Datum>, item: Datum)
    ensures
        sequence_view(items.push(item)) == sequence_view(items).push(item@),
{
    assert(items.push(item).drop_last() == items);
}

/// Appending an entry inserts it into the view.
pub proof fn lemma_mapping_view_push(entries: Seq<(String, Datum)>, entry: (String, Datum))
    ensures
        mapping_view(entries.push(entry)) == mapping_view(entries).insert(entry.0@, entry.1@),
{
    assert(entries.push(entry).drop_last() == entries);
}

/// The value that `entries` give `key`: that of the last entry with this
/// key, if there is one.
pub open spec fn entry_of(entries: Seq<(String, Datum)>, key: Seq<char>) -> Option<Datum>
    decreases entries.len(),
{
    if entries.len() == 0 {
        None
    } else if entries.last().0@ == key {
        Some(entries.last().1)
    } else {
        entry_of(entries.drop_last(), key)
    }
}

/// The view of a mapping holds, for each key, the view of `entry_of`.
pub proof fn lemma_mapping_view_entry(entries: Seq<(String, Datum)>, key: Seq<char>)
    ensures
        mapping_view(entries).contains_key(key) <==> entry_of(entries, key) is Some,
        entry_of(entries, key) matches Some(d) ==> mapping_view(entries)[key] == d@,
    decreases entries.len(),
{
    if entries.len() > 0 {
        lemma_mapping_view_entry(entries.drop_last(), key);
    }
}

/// The value under `key`, if the mapping has one.
pub fn lookup<'a>(entries: &'a Vec<(String, Datum)>, key: &str) -> (r: Option<&'a Datum>)
    ensures
        r is Some <==> mapping_view(entries@).contains_key(key@),
        r matches Some(d) ==> d@ == mapping_view(entries@)[key@],
        r matches Some(d) ==> entry_of(entries@, key@) == Some(*d),
{
    let mut i: usize = entries.len();
    proof {
        assert(entries@.take(i as int) == entries@);
        lemma_mapping_view_entry(entries@, key@);
    }
    while i > 0
        invariant
            i <= entries.len(),
            entry_of(entries@, key@) == entry_of(entries@.take(i as int), key@),
        decreases i,
    {
        i = i - 1;
        proof {
            assert(entries@.take(i + 1).drop_last() == entries@.take(i as int));
            lemma_mapping_view_entry(entries@, key@);
        }
        if same_text(entries[i].0.as_str(), key) {
            return Some(&entries[i].1);
        }
    }
    proof {
        lemma_mapping_view_entry(entries@, key@);
    }
    None
}

impl Datum {
    /// A copy of the value.
    pub fn duplicate(&self) -> (r: Datum)
        ensures
            r@ == self@,
        decreases self,
    {
        match self {
            Datum::Null => Datum::Null,
            Datum::Bool(b) => Datum::Bool(*b),
            Datum::Integer(n) => Datum::Integer(*n),
            Datum::Decimal(s) => Datum::Decimal(s.clone()),
            Datum::Text(s) => Datum::Text(s.clone()),
            Datum::Sequence(items) => {
                let mut out: Vec<Datum> = Vec::new();
                let mut i: usize = 0;
                while i < items.len()
                    invariant
                        i <= items.len(),
                        self is Sequence,
                        self->Sequence_0 == *items,
                        sequence_view(out@) == sequence_view(items@.take(i as int)),
                    decreases items.len() - i,
                {
                    let item = items[i].duplicate();
                    proof {
                        lemma_sequence_view_push(out@, item);
                        lemma_sequence_view_push(items@.take(i as int), items@[i as int]);
                        assert(items@.take(i + 1) == items@.take(i as int).push(items@[i as int]));
                    }
                    out.push(item);
                    i = i + 1;
                }
                proof {
                    assert(items@.take(i as int) == items@);
                }
                Datum::Sequence(out)
            },
            Datum::Mapping(entries) => Datum::Mapping(duplicate_entries(entries)),
        }
    }
}

impl Clone for Datum {
    fn clone(&self) -> (r: Datum)
        ensures
            r@ == self@,
    {
        self.duplicate()
    }
}

/// A copy of the entries of a mapping.
pub fn duplicate_entries(entries: &Vec<(String, Datum)>) -> (r: Vec<(String, Datum)>)
    ensures
        mapping_view(r@) == mapping_view(entries@),
    decreases entries,
{
    let mut out: Vec<(String, Datum)> = Vec::new();
    let mut i: usize = 0;
    while i < entries.len()
        invariant
            i <= entries.len(),
            mapping_view(out@) == mapping_view(entries@.take(i as int)),
        decreases entries.len() - i,
    {
        let key = entries[i].0.clone();
        let value = entries[i].1.duplicate();
        proof {
            lemma_mapping_view_push(out@, (key, value));
            lemma_mapping_view_push(entries@.take(i as int), entries@[i as int]);
            assert(entries@.take(i + 1) == entries@.take(i as int).push(entries@[i as int]));
        }
        out.push((key, value));
        i = i + 1;
    }
    proof {
        assert(entries@.take(i as int) == entries@);
    }
    out
}

/// Enters `value` under `key`. An earlier entry with the same key stays in
/// the list and no longer counts.
pub fn insert(entries: &mut Vec<(String, Datum)>, key: &str, value: Datum)
    ensures
        final(entries)@ == old(entries)@.push((final(entries)@.last().0, value)),
        final(entries)@.last().0@ == key@,
        mapping_view(final(entries)@) == mapping_view(old(entries)@).insert(key@, value@),
{
    let owned_key = owned(key);
    proof {
        lemma_mapping_view_push(entries@, (owned_key, value));
    }
    entries.push((owned_key, value));
}

} // verus!
