//! The persistent map that holds the records, seen through its contents and its order, and
//! the debug renderings that the store's report lines are made of.
use near_sdk::collections::UnorderedMap;
use vstd::prelude::*;

verus! {

#[verifier::external_type_specification]
#[verifier::external_body]
#[verifier::reject_recursive_types(K)]
#[verifier::reject_recursive_types(V)]
pub struct ExUnorderedMap<K, V>(UnorderedMap<K, V>);

/// The persistent map of records.
pub type RecordMap = UnorderedMap<i32, String>;

/// What a persistent map of records holds: the value stored under each key. The map's handle
/// names a storage prefix; the records live in the host's storage under it. The library only
/// ever works through one handle per prefix, which it receives and never creates or copies, so
/// what the storage holds is seen through that handle alone.
pub uninterp spec fn contents(m: RecordMap) -> Map<i32, Seq<char>>;

/// The records of a persistent map in the order the map keeps them: the order of its key index.
pub uninterp spec fn stored_order(m: RecordMap) -> Seq<(i32, Seq<char>)>;

/// The debug rendering of a list of records.
pub uninterp spec fn entries_debug(entries: Seq<(i32, Seq<char>)>) -> Seq<char>;

/// The debug rendering of a text: quoted, with its special characters escaped.
pub uninterp spec fn text_debug(value: Seq<char>) -> Seq<char>;

/// The entries of a vector of records, with each value seen as its text.
pub open spec fn entries_view(v: Seq<(i32, String)>) -> Seq<(i32, Seq<char>)> {
    v.map_values(|p: (i32, String)| (p.0, p.1@))
}

/// Whether `entries` lists each record of `records` exactly once.
pub open spec fn lists_exactly(entries: Seq<(i32, Seq<char>)>, records: Map<i32, Seq<char>>) -> bool {
    &&& entries.len() == records.dom().len()
    &&& forall|i: int|
        0 <= i < entries.len() ==> #[trigger] records.contains_key(entries[i].0) && records[entries[i].0]
            == entries[i].1
    &&& forall|k: i32|
        #[trigger] records.contains_key(k) ==> exists|i: int| 0 <= i < entries.len() && entries[i].0 == k
    &&& forall|i: int, j: int|
        0 <= i < j < entries.len() ==> #[trigger] entries[i].0 != #[trigger] entries[j].0
}

/// Relies on `UnorderedMap::insert`: the key holds the new value afterwards, every other key
/// keeps its own. A new key is appended to the map's key index, whose length is a `u64`.
#[verifier::external_body]
pub(crate) fn map_insert(m: &mut RecordMap, key: i32, value: &String)
    requires
        contents(*old(m)).dom().len() < u64::MAX,
    ensures
        contents(*final(m)) == contents(*old(m)).insert(key, value@),
{
    m.insert(&key, value);
}

/// Relies on `UnorderedMap::get`: the value stored under the key, if there is one.
#[verifier::external_body]
pub(crate) fn map_get(m: &RecordMap, key: i32) -> (r: Option<String>)
    ensures
        r.is_some() == contents(*m).contains_key(key),
        r.is_some() ==> r.unwrap()@ == contents(*m)[key],
{
    m.get(&key)
}

/// Relies on `UnorderedMap::remove`: the key holds nothing afterwards, every other key keeps its
/// value.
#[verifier::external_body]
pub(crate) fn map_remove(m: &mut RecordMap, key: i32)
    ensures
        contents(*final(m)) == contents(*old(m)).remove(key),
{
    m.remove(&key);
}

/// Relies on `UnorderedMap::clear`: no key holds anything afterwards.
#[verifier::external_body]
pub(crate) fn map_clear(m: &mut RecordMap)
    ensures
        contents(*final(m)).dom() == Set::<i32>::empty(),
{
    m.clear();
}

/// Relies on `UnorderedMap::len`: the number of keys that hold a value.
#[verifier::external_body]
pub(crate) fn map_len(m: &RecordMap) -> (r: u64)
    ensures
        r as int == contents(*m).dom().len(),
{
    m.len()
}

/// Relies on `UnorderedMap::to_vec`: every record of the map once, in the map's own order.
#[verifier::external_body]
pub(crate) fn map_to_vec(m: &RecordMap) -> (r: Vec<(i32, String)>)
    ensures
        entries_view(r@) == stored_order(*m),
        lists_exactly(entries_view(r@), contents(*m)),
{
    m.to_vec()
}

/// Relies on `format!` with `{:?}` on a vector of records: its debug rendering.
#[verifier::external_body]
pub(crate) fn debug_entries(entries: &Vec<(i32, String)>) -> (r: String)
    ensures
        r@ == entries_debug(entries_view(entries@)),
{
    format!("{:?}", entries)
}

/// Relies on `format!` with `{:?}` on a text: its debug rendering.
#[verifier::external_body]
pub(crate) fn debug_text(value: &String) -> (r: String)
    ensures
        r@ == text_debug(value@),
{
    format!("{:?}", value)
}

} // verus!
