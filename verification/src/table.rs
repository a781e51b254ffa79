//! The routing table: a sharded concurrent hash map from region to entry.
//!
//! The map is `dashmap::DashMap`. Nothing in here is proved: each function
//! states what one method of the map does to the entries it holds, for a
//! caller that has the map to itself for the length of the call. None of
//! the functions keeps a reference into the map when it returns, so the next
//! call never finds a shard locked.

use vstd::prelude::*;
use dashmap::DashMap;
use crate::peer::PeerStates;

verus! {

/// `dashmap::DashMap`, of which nothing but the name is known here.
#[verifier::external_type_specification]
#[verifier::external_body]
#[verifier::reject_recursive_types(K)]
#[verifier::reject_recursive_types(V)]
#[verifier::reject_recursive_types(S)]
pub struct ExDashMap<K, V, S>(DashMap<K, V, S>);

/// The entries that a routing table holds, by region: what `DashMap::get`
/// finds under each key.
pub uninterp spec fn table_entries(table: DashMap<u64, PeerStates>) -> Map<u64, PeerStates>;

/// `DashMap::new`: a map without entries.
#[verifier::external_body]
pub(crate) fn table_new() -> (table: DashMap<u64, PeerStates>)
    ensures
        table_entries(table) =~= Map::empty(),
{
    DashMap::new()
}

/// `DashMap::insert`: afterwards `region_id` maps to `entry`, whether or not
/// it was mapped before, and every other region is mapped as it was.
#[verifier::external_body]
pub(crate) fn table_insert(table: &mut DashMap<u64, PeerStates>, region_id: u64, entry: PeerStates)
    ensures
        table_entries(*final(table)) == table_entries(*old(table)).insert(region_id, entry),
{
    table.insert(region_id, entry);
}

/// `DashMap::remove`: afterwards `region_id` is not mapped, and every other
/// region is mapped as it was.
#[verifier::external_body]
pub(crate) fn table_remove(table: &mut DashMap<u64, PeerStates>, region_id: u64)
    ensures
        table_entries(*final(table)) == table_entries(*old(table)).remove(region_id),
{
    table.remove(&region_id);
}

/// `DashMap::get`: a copy of the entry of `region_id`, if it has one.
#[verifier::external_body]
pub(crate) fn table_get(table: &DashMap<u64, PeerStates>, region_id: u64) -> (entry: Option<PeerStates>)
    ensures
        entry == table_entries(*table).get(region_id),
{
    table.get(&region_id).map(|found| *found.value())
}

/// `DashMap::iter`: the regions that have an entry, each of them once. The
/// order is that of the map's shards and of the hash tables in them, of which
/// nothing is claimed.
#[verifier::external_body]
pub(crate) fn table_keys(table: &DashMap<u64, PeerStates>) -> (keys: Vec<u64>)
    ensures
        keys@.no_duplicates(),
        keys@.to_set() == table_entries(*table).dom(),
{
    table.iter().map(|found| *found.key()).collect()
}

} // verus!
