//! The usage store: a concurrent map from derived key to usage record.
//!
//! The store itself is dashmap's sharded hash map; this module declares
//! the type, names its contents, and wraps the three operations the
//! admission engine uses. A usage record is a pair: requests remaining
//! in the current window, and the timestamp at which the window expires.

use vstd::prelude::*;
use dashmap::DashMap;

verus! {

#[verifier::external_type_specification]
#[verifier::external_body]
#[verifier::reject_recursive_types(K)]
#[verifier::reject_recursive_types(V)]
#[verifier::reject_recursive_types(S)]
pub struct ExDashMap<K, V, S>(DashMap<K, V, S>);

/// One usage record: requests remaining in the current window, and the
/// timestamp at which the window expires.
pub type UsageRecord = (u64, u64);

/// What the store holds: the usage record under each derived key.
pub uninterp spec fn usage_map(m: DashMap<String, UsageRecord>) -> Map<Seq<char>, UsageRecord>;

/// The empty store contents: no key has a record.
pub open spec fn usage_empty() -> Map<Seq<char>, UsageRecord> {
    Map::empty()
}

/// Relies on dashmap::DashMap::new: the new map is empty.
#[verifier::external_body]
pub(crate) fn store_new() -> (r: DashMap<String, UsageRecord>)
    ensures
        usage_map(r) == usage_empty(),
{
    DashMap::new()
}

/// Relies on dashmap::DashMap::get: returns the value stored under the
/// key, or None when the key is absent.
#[verifier::external_body]
pub(crate) fn store_get(m: &DashMap<String, UsageRecord>, key: &String) -> (r: Option<UsageRecord>)
    ensures
        usage_map(*m).contains_key(key@) ==> r == Some(usage_map(*m)[key@]),
        !usage_map(*m).contains_key(key@) ==> r == None::<UsageRecord>,
{
    m.get(key).map(|entry| *entry.value())
}

/// Relies on dashmap::DashMap::insert: after the call the key maps to
/// the given value; no other key changes.
#[verifier::external_body]
pub(crate) fn store_insert(m: &mut DashMap<String, UsageRecord>, key: String, value: UsageRecord)
    ensures
        usage_map(*final(m)) == usage_map(*old(m)).insert(key@, value),
{
    m.insert(key, value);
}

} // verus!
