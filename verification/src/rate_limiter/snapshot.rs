//! The durable form of the limiter's state.
//!
//! A snapshot lists, for each tenant, the timestamps of its history. On disk
//! it is one JSON object whose keys are the tenants' UUIDs in text form and
//! whose values are arrays of epoch seconds. Reading and writing the file is
//! the caller's business; this module turns snapshots into that text and
//! back.

use crate::error::XeroError;
use crate::rate_limiter::tenant::parse_tenant;
use crate::rate_limiter::tenant::tenant_text;
use crate::rate_limiter::tenant::uuid_from_text;
use crate::rate_limiter::tenant::uuid_text;
use crate::rate_limiter::tenant::TenantId;
use std::collections::BTreeMap;
use vstd::prelude::*;

verus! {

/// `serde_json::Error`, taken as it is: only its message is ever asked for.
#[verifier::external_type_specification]
#[verifier::external_body]
pub struct ExJsonError(serde_json::Error);

/// The JSON text of an object with the given members, where `serde_json`
/// writes one.
pub uninterp spec fn json_text(members: Seq<(Seq<char>, Seq<i64>)>) -> Option<Seq<char>>;

/// The members of the JSON object that a text holds, where `serde_json`
/// reads it as an object of integer arrays.
pub uninterp spec fn json_members(text: Seq<char>) -> Option<Seq<(Seq<char>, Seq<i64>)>>;

/// `serde_json::to_string` on the members, collected into a `BTreeMap`: the
/// object as JSON text. What comes back depends on the members alone.
#[verifier::external_body]
pub(crate) fn to_json(members: Vec<(String, Vec<i64>)>) -> (text: Result<String, serde_json::Error>)
    ensures
        match text {
            Ok(t) => json_text(members.deep_view()) == Some(t@),
            Err(_) => json_text(members.deep_view()) is None,
        },
{
    serde_json::to_string(&members.into_iter().collect::<BTreeMap<String, Vec<i64>>>())
}

/// `serde_json::from_str` for a `BTreeMap` of integer arrays, handed back as
/// a list of members: what the text holds, or the error of a text that is
/// not such an object. What comes back depends on the text alone.
#[verifier::external_body]
pub(crate) fn from_json(text: &str) -> (members: Result<Vec<(String, Vec<i64>)>, serde_json::Error>)
    ensures
        match members {
            Ok(m) => json_members(text@) == Some(m.deep_view()),
            Err(_) => json_members(text@) is None,
        },
{
    match serde_json::from_str::<BTreeMap<String, Vec<i64>>>(text) {
        Ok(object) => Ok(object.into_iter().collect()),
        Err(error) => Err(error),
    }
}

/// The `Display` of a `serde_json::Error`: its message.
#[verifier::external_body]
pub(crate) fn json_error_message(error: &serde_json::Error) -> String {
    error.to_string()
}

/// The members of the JSON object for a list of histories: each tenant under
/// the text form of its UUID.
pub open spec fn keyed(entries: Seq<(TenantId, Seq<i64>)>) -> Seq<(Seq<char>, Seq<i64>)> {
    Seq::new(entries.len(), |i: int| (uuid_text(entries[i].0), entries[i].1))
}

/// Every key is the text form of a UUID.
pub open spec fn keys_are_tenants(members: Seq<(Seq<char>, Seq<i64>)>) -> bool {
    forall|i: int| 0 <= i < members.len() ==> (#[trigger] uuid_from_text(members[i].0)) is Some
}

/// The histories that the members of a JSON object stand for.
pub open spec fn unkeyed(members: Seq<(Seq<char>, Seq<i64>)>) -> Seq<(TenantId, Seq<i64>)> {
    Seq::new(members.len(), |i: int| (uuid_from_text(members[i].0).unwrap(), members[i].1))
}

/// The text that a snapshot is written as, where it can be written.
pub open spec fn encoded(entries: Seq<(TenantId, Seq<i64>)>) -> Option<Seq<char>> {
    json_text(keyed(entries))
}

/// The snapshot that a text holds: `None` where the text is not a JSON
/// object of integer arrays, or where one of its keys is no UUID.
pub open spec fn decoded(text: Seq<char>) -> Option<Seq<(TenantId, Seq<i64>)>> {
    match json_members(text) {
        Some(members) => if keys_are_tenants(members) {
            Some(unkeyed(members))
        } else {
            None
        },
        None => None,
    }
}

/// The histories by tenant. Where a tenant is listed twice, the later entry
/// stands.
pub open spec fn histories(entries: Seq<(TenantId, Seq<i64>)>) -> Map<TenantId, Seq<i64>>
    decreases entries.len(),
{
    if entries.len() == 0 {
        Map::empty()
    } else {
        histories(entries.drop_last()).insert(entries.last().0, entries.last().1)
    }
}

/// All tenants' histories at one moment.
#[derive(Debug)]
pub struct Snapshot {
    /// One entry per tenant: its identifier and the epoch seconds of its
    /// calls, oldest first.
    pub entries: Vec<(TenantId, Vec<i64>)>,
}

impl View for Snapshot {
    type V = Seq<(TenantId, Seq<i64>)>;

    open spec fn view(&self) -> Seq<(TenantId, Seq<i64>)> {
        self.entries.deep_view()
    }
}

impl Snapshot {
    /// The snapshot of a limiter that has seen no tenant: no prior history.
    pub fn empty() -> (snapshot: Snapshot)
        ensures
            snapshot@ == Seq::<(TenantId, Seq<i64>)>::empty(),
            histories(snapshot@) == Map::<TenantId, Seq<i64>>::empty(),
    {
        let snapshot = Snapshot { entries: Vec::new() };
        assert(snapshot@ =~= Seq::<(TenantId, Seq<i64>)>::empty());
        snapshot
    }

    /// The snapshot as JSON text. Fails with `XeroError::Serde` exactly where
    /// `serde_json` does not write the object.
    pub fn encode(&self) -> (text: Result<String, XeroError>)
        ensures
            match text {
                Ok(t) => encoded(self@) == Some(t@),
                Err(e) => encoded(self@) is None && e is Serde,
            },
    {
        let mut members: Vec<(String, Vec<i64>)> = Vec::new();
        let mut i: usize = 0;
        while i < self.entries.len()
            invariant
                i <= self.entries.len(),
                members.deep_view() == keyed(self@.take(i as int)),
            decreases self.entries.len() - i,
        {
            let key = tenant_text(self.entries[i].0);
            let timestamps = self.entries[i].1.clone();
            proof {
                assert(timestamps@ == self.entries[i as int].1@);
                assert(self@[i as int] == (self.entries[i as int].0, self.entries[i as int].1@));
                assert(timestamps.deep_view() =~= timestamps@);
                assert(self.entries[i as int].1.deep_view() =~= self.entries[i as int].1@);
            }
            let ghost before = members.deep_view();
            members.push((key, timestamps));
            proof {
                assert(members.deep_view() =~= before.push((uuid_text(self.entries[i as int].0), timestamps@)));
                assert(keyed(self@.take(i as int + 1)) =~= keyed(self@.take(i as int)).push(
                    (uuid_text(self@[i as int].0), self@[i as int].1),
                ));
            }
            i += 1;
        }
        proof {
            assert(self@.take(self.entries.len() as int) =~= self@);
        }
        match to_json(members) {
            Ok(text) => Ok(text),
            Err(error) => Err(XeroError::Serde(json_error_message(&error))),
        }
    }

    /// The snapshot that a JSON text holds. Fails with `XeroError::Serde`
    /// exactly where the text is not a JSON object of integer arrays whose
    /// keys are UUIDs.
    pub fn decode(text: &str) -> (snapshot: Result<Snapshot, XeroError>)
        ensures
            match snapshot {
                Ok(s) => decoded(text@) == Some(s@),
                Err(e) => decoded(text@) is None && e is Serde,
            },
    {
        let members = match from_json(text) {
            Ok(members) => members,
            Err(error) => {
                return Err(XeroError::Serde(json_error_message(&error)));
            },
        };
        let ghost all = members.deep_view();
        let mut entries: Vec<(TenantId, Vec<i64>)> = Vec::new();
        let mut i: usize = 0;
        while i < members.len()
            invariant
                i <= members.len(),
                all == members.deep_view(),
                json_members(text@) == Some(all),
                keys_are_tenants(all.take(i as int)),
                entries.deep_view() == unkeyed(all.take(i as int)),
            decreases members.len() - i,
        {
            proof {
                assert(all[i as int] == (members[i as int].0@, members[i as int].1.deep_view()));
                assert(members[i as int].1.deep_view() =~= members[i as int].1@);
            }
            let tenant = match parse_tenant(members[i].0.as_str()) {
                Some(tenant) => tenant,
                None => {
                    proof {
                        assert(uuid_from_text(all[i as int].0) is None);
                    }
                    return Err(
                        XeroError::Serde("snapshot key is not a tenant identifier".to_string()),
                    );
                },
            };
            let timestamps = members[i].1.clone();
            proof {
                assert(timestamps.deep_view() =~= timestamps@);
            }
            let ghost before = entries.deep_view();
            entries.push((tenant, timestamps));
            proof {
                assert(entries.deep_view() =~= before.push((tenant, timestamps@)));
                assert(all.take(i as int + 1) =~= all.take(i as int).push(all[i as int]));
                assert(unkeyed(all.take(i as int + 1)) =~= unkeyed(all.take(i as int)).push(
                    (tenant, all[i as int].1),
                ));
                assert forall|k: int| 0 <= k < i + 1 implies (#[trigger] uuid_from_text(
                    all.take(i as int + 1)[k].0,
                )) is Some by {
                    if k < i {
                        assert(all.take(i as int + 1)[k] == all.take(i as int)[k]);
                    }
                }
            }
            i += 1;
        }
        proof {
            assert(all.take(members.len() as int) =~= all);
        }
        Ok(Snapshot { entries })
    }

    /// The snapshot to start from, given what the cache file held: `None`
    /// for a file that is missing. A text that cannot be read as a snapshot
    /// counts as no prior history, never as an error.
    pub fn load(text: Option<&str>) -> (snapshot: Snapshot)
        ensures
            snapshot@ == match text {
                Some(t) => match decoded(t@) {
                    Some(entries) => entries,
                    None => Seq::empty(),
                },
                None => Seq::empty(),
            },
    {
        match text {
            Some(t) => match Snapshot::decode(t) {
                Ok(snapshot) => snapshot,
                Err(_) => Snapshot::empty(),
            },
            None => Snapshot::empty(),
        }
    }
}

} // verus!
