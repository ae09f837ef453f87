//! The record store: a persistent map from 32-bit keys to text values.
use crate::backing::{
    contents, debug_entries, debug_text, entries_debug, lists_exactly, map_clear, map_get,
    map_insert, map_len, map_remove, map_to_vec, stored_order, text_debug, RecordMap,
};
use vstd::prelude::*;
use vstd::string::StringExecFns;

verus! {

/// The text that a lookup of a key without a record gives.
pub open spec fn no_record_text() -> Seq<char> {
    "There is no such record!"@
}

/// The store that holds no record.
pub open spec fn no_records() -> Map<i32, Seq<char>> {
    Map::empty()
}

/// What a lookup of `key` gives: its value, or the no-record text where it has none.
pub open spec fn lookup(records: Map<i32, Seq<char>>, key: i32) -> Seq<char> {
    if records.contains_key(key) {
        records[key]
    } else {
        no_record_text()
    }
}

/// Text records under 32-bit signed keys, at most one per key, kept in persistent storage.
///
/// A store works through the one handle of its map that it is given; the map's records live in
/// the host's storage, so every operation needs the host environment (or a mocked one) to be set.
pub struct Todo {
    records: RecordMap,
}

impl View for Todo {
    type V = Map<i32, Seq<char>>;

    closed spec fn view(&self) -> Map<i32, Seq<char>> {
        contents(self.records)
    }
}

impl Todo {
    /// The records in the order the store's map keeps them.
    pub closed spec fn order(&self) -> Seq<(i32, Seq<char>)> {
        stored_order(self.records)
    }

    /// The store over its map of records, as the host keeps it between calls: the only handle on
    /// its storage prefix, with its key and value indexes of one length.
    pub fn from_map(records: RecordMap) -> (r: Todo)
        ensures
            r@ == contents(records),
            r.order() == stored_order(records),
    {
        Todo { records }
    }

    /// The map of records that the store holds, to be kept in storage.
    pub fn into_map(self) -> (r: RecordMap)
        ensures
            contents(r) == self@,
    {
        self.records
    }

    /// The line that lists every record, each once, in the order the store's map keeps them.
    pub fn get_records(&self) -> (r: String)
        ensures
            lists_exactly(self.order(), self@),
            r@ == "Your list: "@ + entries_debug(self.order()) + "."@,
    {
        let entries = map_to_vec(&self.records);
        let rendered = debug_entries(&entries);
        let mut line = String::from_str("Your list: ");
        line.append(rendered.as_str());
        line.append(".");
        line
    }

    /// Stores `message` under `number`, in place of any earlier value, and gives the line that
    /// confirms the value read back. Only a store that is full to the `u64` count of its map
    /// cannot take a new key.
    pub fn add_record(&mut self, number: i32, message: String) -> (r: String)
        requires
            old(self)@.dom().len() < u64::MAX,
        ensures
            final(self)@ == old(self)@.insert(number, message@),
            r@ == text_debug(message@) + " record added."@,
    {
        map_insert(&mut self.records, number, &message);
        let stored = map_get(&self.records, number).unwrap();
        let mut line = debug_text(&stored);
        line.append(" record added.");
        line
    }

    /// The value stored under `number`, or the no-record text where there is none.
    pub fn get_record(&self, number: i32) -> (r: String)
        ensures
            r@ == lookup(self@, number),
    {
        match map_get(&self.records, number) {
            Some(m) => m,
            None => String::from_str("There is no such record!"),
        }
    }

    /// Removes the record under `number`; without one, nothing changes.
    pub fn remove_record(&mut self, number: i32)
        ensures
            final(self)@ == old(self)@.remove(number),
    {
        map_remove(&mut self.records, number);
    }

    /// Removes every record.
    pub fn remove_all_records(&mut self)
        ensures
            final(self)@ == no_records(),
    {
        map_clear(&mut self.records);
        assert(self@ =~= no_records());
    }

    /// The number of keys that hold a record.
    pub fn record_count(&self) -> (r: u64)
        ensures
            r as int == self@.dom().len(),
    {
        map_len(&self.records)
    }
}

} // verus!
