//! Laws of the store, stated over the contents that its operations' contracts speak of.
use crate::store::{lookup, no_record_text, no_records};
use vstd::prelude::*;

verus! {

/// A value stored under a key is what a lookup of that key gives next.
pub proof fn lemma_add_then_get(records: Map<i32, Seq<char>>, key: i32, value: Seq<char>)
    ensures
        lookup(records.insert(key, value), key) == value,
{
}

/// A key that holds nothing, never stored or since removed, looks up as the no-record text.
pub proof fn lemma_absent_gives_no_record(records: Map<i32, Seq<char>>, key: i32)
    ensures
        !records.contains_key(key) ==> lookup(records, key) == no_record_text(),
        lookup(records.remove(key), key) == no_record_text(),
{
}

/// Removing a key that holds nothing leaves the records as they were.
pub proof fn lemma_remove_absent_unchanged(records: Map<i32, Seq<char>>, key: i32)
    requires
        !records.contains_key(key),
    ensures
        records.remove(key) == records,
{
    assert(records.remove(key) =~= records);
}

/// Clearing leaves no record, whatever was there: every key that held one looks up as the
/// no-record text afterwards.
pub proof fn lemma_clear_forgets_all(records: Map<i32, Seq<char>>)
    ensures
        no_records().dom().len() == 0,
        forall|key: i32| #[trigger] records.contains_key(key) ==> lookup(no_records(), key) == no_record_text(),
{
}

/// Storing twice under one key keeps the second value, and the number of keys is that after the
/// first store.
pub proof fn lemma_overwrite(records: Map<i32, Seq<char>>, key: i32, first: Seq<char>, second: Seq<char>)
    ensures
        lookup(records.insert(key, first).insert(key, second), key) == second,
        records.insert(key, first).insert(key, second).dom().len() == records.insert(key, first).dom().len(),
{
    assert(records.insert(key, first).insert(key, second).dom() =~= records.insert(key, first).dom());
}

} // verus!
