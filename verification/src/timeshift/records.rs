//! The records of a recorder, in the order in which they were started.
//!
//! They are kept in an [`IndexMap`] which is keyed by the identifiers of the records.

use crate::timeshift::record::TimeshiftRecord;
use indexmap::IndexMap;
use vstd::prelude::*;

verus! {

/// The insertion-ordered hash map of the indexmap crate.
#[verifier::external_type_specification]
#[verifier::external_body]
#[verifier::reject_recursive_types(K)]
#[verifier::reject_recursive_types(V)]
#[verifier::reject_recursive_types(S)]
pub struct ExIndexMap<K, V, S>(indexmap::IndexMap<K, V, S>);

/// The entries of a map of records, in their order.
pub uninterp spec fn record_entries(records: IndexMap<i64, TimeshiftRecord>) -> Seq<
    (i64, TimeshiftRecord),
>;

/// The keys of the entries.
pub open spec fn keys_of(entries: Seq<(i64, TimeshiftRecord)>) -> Seq<i64> {
    entries.map_values(|entry: (i64, TimeshiftRecord)| entry.0)
}

/// The index of the entry with a key.
pub open spec fn key_index(entries: Seq<(i64, TimeshiftRecord)>, key: i64) -> Option<int> {
    keys_of(entries).index_of_first(key)
}

/// The record with a key.
pub open spec fn find_record(entries: Seq<(i64, TimeshiftRecord)>, key: i64) -> Option<
    TimeshiftRecord,
> {
    match key_index(entries, key) {
        Some(i) => Some(entries[i].1),
        None => None,
    }
}

/// The entries after a record was put under a key: it takes the place of the record that was
/// there, or comes last.
pub open spec fn inserted(
    entries: Seq<(i64, TimeshiftRecord)>,
    key: i64,
    record: TimeshiftRecord,
) -> Seq<(i64, TimeshiftRecord)> {
    match key_index(entries, key) {
        Some(i) => entries.update(i, (key, record)),
        None => entries.push((key, record)),
    }
}

/// Every record is kept under its own identifier, and no identifier occurs twice.
pub open spec fn records_valid(entries: Seq<(i64, TimeshiftRecord)>) -> bool {
    &&& forall|i: int|
        0 <= i < entries.len() ==> (#[trigger] entries[i]).0 == entries[i].1.id.value
    &&& forall|i: int, j: int|
        0 <= i < j < entries.len() ==> (#[trigger] entries[i]).0 != (#[trigger] entries[j]).0
}

/// `IndexMap::new`: the map has no entries.
#[verifier::external_body]
pub(crate) fn new_records() -> (records: IndexMap<i64, TimeshiftRecord>)
    ensures
        record_entries(records) == Seq::<(i64, TimeshiftRecord)>::empty(),
{
    IndexMap::new()
}

/// `IndexMap::len`: the number of entries.
#[verifier::external_body]
pub(crate) fn records_len(records: &IndexMap<i64, TimeshiftRecord>) -> (len: usize)
    ensures
        len == record_entries(*records).len(),
{
    records.len()
}

/// `IndexMap::get`: the value of the entry with the key.
#[verifier::external_body]
pub(crate) fn get_record<'a>(records: &'a IndexMap<i64, TimeshiftRecord>, key: i64) -> (record:
    Option<&'a TimeshiftRecord>)
    ensures
        match record {
            Some(found) => find_record(record_entries(*records), key) == Some(*found),
            None => find_record(record_entries(*records), key) is None,
        },
{
    records.get(&key)
}

/// `IndexMap::get_index`: the value of the entry at an index.
#[verifier::external_body]
pub(crate) fn get_record_at<'a>(
    records: &'a IndexMap<i64, TimeshiftRecord>,
    index: usize,
) -> (record: Option<&'a TimeshiftRecord>)
    ensures
        match record {
            Some(found) => index < record_entries(*records).len() && *found == record_entries(
                *records,
            )[index as int].1,
            None => index >= record_entries(*records).len(),
        },
{
    records.get_index(index).map(|entry| entry.1)
}

/// `IndexMap::insert`: the value of the entry with the key is replaced where it is, and the older
/// value is returned; without such an entry, the new one is added last.
#[verifier::external_body]
pub(crate) fn insert_record(
    records: &mut IndexMap<i64, TimeshiftRecord>,
    key: i64,
    record: TimeshiftRecord,
) -> (older: Option<TimeshiftRecord>)
    ensures
        record_entries(*final(records)) == inserted(record_entries(*old(records)), key, record),
        older == find_record(record_entries(*old(records)), key),
{
    records.insert(key, record)
}

/// `IndexMap::drain` on the first `n` entries, of which none is kept: they are removed, and the
/// entries that follow keep their order. It panics if there are fewer.
#[verifier::external_body]
pub(crate) fn drain_records(records: &mut IndexMap<i64, TimeshiftRecord>, n: usize)
    requires
        n <= record_entries(*old(records)).len(),
    ensures
        record_entries(*final(records)) == record_entries(*old(records)).skip(n as int),
{
    records.drain(0..n);
}

/// `IndexMap::values_mut`, of which the last is taken: the value of the last entry can be
/// changed, and nothing else.
#[verifier::external_body]
pub(crate) fn last_record_mut(records: &mut IndexMap<i64, TimeshiftRecord>) -> (record: Option<
    &mut TimeshiftRecord,
>)
    ensures
        ({
            let before = record_entries(*old(records));
            let after = record_entries(*final(records));
            match record {
                Some(last) => {
                    &&& before.len() > 0
                    &&& *last == before.last().1
                    &&& after == before.update(before.len() - 1, (before.last().0, *final(last)))
                },
                None => before.len() == 0 && after == before,
            }
        }),
{
    records.values_mut().last()
}

/// The index of a key is that of an entry with the key, and there is none only if no entry has it.
pub proof fn lemma_key_index(entries: Seq<(i64, TimeshiftRecord)>, key: i64)
    ensures
        match key_index(entries, key) {
            Some(i) => 0 <= i < entries.len() && entries[i].0 == key,
            None => forall|i: int| 0 <= i < entries.len() ==> (#[trigger] entries[i]).0 != key,
        },
{
    keys_of(entries).index_of_first_ensures(key);
    if key_index(entries, key) is None {
        assert forall|i: int| 0 <= i < entries.len() implies (#[trigger] entries[i]).0 != key by {
            assert(keys_of(entries)[i] == entries[i].0);
        }
    }
}

/// Putting a record under its own identifier keeps the records valid.
pub proof fn lemma_inserted_valid(entries: Seq<(i64, TimeshiftRecord)>, record: TimeshiftRecord)
    requires
        records_valid(entries),
    ensures
        records_valid(inserted(entries, record.id.value, record)),
{
    lemma_key_index(entries, record.id.value);
}

} // verus!
