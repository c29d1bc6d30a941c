//! The store of tenants' request histories: a `DashMap` from a tenant's
//! identifier to the timestamps of its calls.
//!
//! Verus does not look inside a `DashMap`. What the store holds is named by
//! [`tenant_logs`], and the functions below say, in terms of that name, what
//! each call into the map does. The limiter is proved against these
//! statements; the statements themselves are taken from the map's source.

use dashmap::DashMap;
use std::collections::VecDeque;
use vstd::prelude::*;

verus! {

/// `dashmap::DashMap`, taken as it is: its inside is not looked at.
#[verifier::external_type_specification]
#[verifier::external_body]
#[verifier::reject_recursive_types(K)]
#[verifier::reject_recursive_types(V)]
#[verifier::reject_recursive_types(S)]
pub struct ExDashMap<K, V, S>(DashMap<K, V, S>);

/// The histories a store holds, by tenant.
pub uninterp spec fn tenant_logs(store: DashMap<u128, VecDeque<i64>>) -> Map<u128, Seq<i64>>;

/// `DashMap::new`: a store that holds no tenant.
#[verifier::external_body]
pub(crate) fn new_store() -> (store: DashMap<u128, VecDeque<i64>>)
    ensures
        tenant_logs(store) == (Map::<u128, Seq<i64>>::empty()),
{
    DashMap::new()
}

/// `DashMap::entry` followed by `Entry::or_default`, and a clone of what the
/// entry holds: the tenant's history, after an empty one has been stored for
/// a tenant the store did not know.
#[verifier::external_body]
pub(crate) fn history_or_default(store: &mut DashMap<u128, VecDeque<i64>>, tenant: u128) -> (log: VecDeque<i64>)
    ensures
        log@ == if tenant_logs(*old(store)).contains_key(tenant) {
            tenant_logs(*old(store))[tenant]
        } else {
            Seq::<i64>::empty()
        },
        tenant_logs(*final(store)) == tenant_logs(*old(store)).insert(tenant, log@),
{
    store.entry(tenant).or_default().clone()
}

/// `DashMap::insert`: the tenant's history is replaced, the others stay.
#[verifier::external_body]
pub(crate) fn store_history(store: &mut DashMap<u128, VecDeque<i64>>, tenant: u128, log: VecDeque<i64>)
    ensures
        tenant_logs(*final(store)) == tenant_logs(*old(store)).insert(tenant, log@),
{
    store.insert(tenant, log);
}

/// `entries` names every tenant of `logs` once, with its history.
pub open spec fn lists(entries: Seq<(u128, Seq<i64>)>, logs: Map<u128, Seq<i64>>) -> bool {
    &&& forall|i: int, j: int|
        0 <= i < j < entries.len() ==> (#[trigger] entries[i]).0 != (#[trigger] entries[j]).0
    &&& forall|i: int|
        0 <= i < entries.len() ==> logs.contains_key((#[trigger] entries[i]).0) && logs[entries[i].0]
            == entries[i].1
    &&& forall|tenant: u128| #[trigger]
        logs.contains_key(tenant) ==> exists|i: int|
            0 <= i < entries.len() && (#[trigger] entries[i]).0 == tenant
}

/// `DashMap::iter`, with each item's key and a copy of its value: every
/// tenant of the store once, with its history. The order is that of the
/// store's shards and buckets, of which nothing is promised.
#[verifier::external_body]
pub(crate) fn all_histories(store: &DashMap<u128, VecDeque<i64>>) -> (entries: Vec<(u128, Vec<i64>)>)
    ensures
        lists(entries.deep_view(), tenant_logs(*store)),
{
    store.iter().map(|item| (*item.key(), item.value().iter().copied().collect())).collect()
}

} // verus!
