//! Per-tenant admission control for the Xero API.
//!
//! Three quotas hold at once: a cap on the calls in flight, shared by all
//! tenants, and for each tenant a cap on its calls per minute and per day.
//! [`RateLimiter`] composes the three. A call first takes a slot of the
//! concurrency gate, then clears its tenant's windows, and is recorded; the
//! permit it gets holds the slot until it is released.
//!
//! The limiter never blocks. Where a caller would otherwise have to be
//! suspended, [`RateLimiter::acquire_permit`] says what to wait for, and the
//! caller comes back with the same tenant, and with the permit it already
//! holds, once it has waited. Nothing is locked while it waits.

pub mod gate;
pub mod laws;
pub mod limits;
pub mod snapshot;
pub mod tenant;
pub mod tenants;
pub mod window;

use crate::clock::utc_now;
use crate::error::XeroError;
use crate::rate_limiter::gate::ConcurrencyGate;
use crate::rate_limiter::gate::Permit;
use crate::rate_limiter::limits::RateLimits;
use crate::rate_limiter::snapshot::decoded;
use crate::rate_limiter::snapshot::histories;
use crate::rate_limiter::snapshot::Snapshot;
use crate::rate_limiter::tenant::tenant_text;
use crate::rate_limiter::tenant::uuid_text;
use crate::rate_limiter::tenant::TenantId;
use crate::rate_limiter::tenants::all_histories;
use crate::rate_limiter::tenants::history_or_default;
use crate::rate_limiter::tenants::lists;
use crate::rate_limiter::tenants::new_store;
use crate::rate_limiter::tenants::store_history;
use crate::rate_limiter::tenants::tenant_logs;
use crate::rate_limiter::window::admission;
use crate::rate_limiter::window::log_after;
use crate::rate_limiter::window::Admission;
use crate::rate_limiter::window::TenantRateLimitState;
use dashmap::DashMap;
use std::collections::VecDeque;
use vstd::prelude::*;
use vstd::string::*;

verus! {

/// What a limiter holds, as mathematics: the slots of its gate, the permits
/// that are out and each known tenant's history.
pub struct LimiterState {
    pub capacity: nat,
    pub outstanding: nat,
    pub histories: Map<TenantId, Seq<i64>>,
}

/// Where one call stands after a step of the limiter.
pub enum Verdict {
    /// Gate and windows are cleared; the call may go out.
    Admitted,
    /// Every slot is taken.
    WaitForSlot,
    /// The call holds a slot, and its tenant's minute window is full.
    WaitForWindow { seconds: u64 },
    /// The tenant's day window is full; the call has failed and holds no slot.
    DailyQuotaExhausted,
}

/// The history of a tenant, empty for one the limiter has not seen.
pub open spec fn history_of(state: LimiterState, tenant: TenantId) -> Seq<i64> {
    if state.histories.contains_key(tenant) {
        state.histories[tenant]
    } else {
        Seq::empty()
    }
}

/// Where a call for `tenant` stands after one step at `now`. `holding` says
/// that the call came with a permit from an earlier step. The slots are asked
/// first; the tenant's windows only once the call holds a slot.
pub open spec fn verdict(
    state: LimiterState,
    limits: RateLimits,
    tenant: TenantId,
    holding: bool,
    now: i64,
) -> Verdict {
    if !holding && state.outstanding >= state.capacity {
        Verdict::WaitForSlot
    } else {
        match admission(history_of(state, tenant), limits, now) {
            Admission::Granted => Verdict::Admitted,
            Admission::Wait { seconds } => Verdict::WaitForWindow { seconds },
            Admission::DailyQuotaExhausted => Verdict::DailyQuotaExhausted,
        }
    }
}

/// The limiter after that step. A call that waits for a slot changes
/// nothing. Any other call has its tenant's history pruned, and extended by
/// `now` if it is admitted; it holds one slot, which it gives back at once
/// if it fails.
pub open spec fn state_after(
    state: LimiterState,
    limits: RateLimits,
    tenant: TenantId,
    holding: bool,
    now: i64,
) -> LimiterState {
    let held: nat = if holding {
        state.outstanding
    } else {
        state.outstanding + 1
    };
    match verdict(state, limits, tenant, holding, now) {
        Verdict::WaitForSlot => state,
        Verdict::DailyQuotaExhausted => LimiterState {
            capacity: state.capacity,
            outstanding: if held > 0 {
                (held - 1) as nat
            } else {
                0
            },
            histories: state.histories.insert(
                tenant,
                log_after(history_of(state, tenant), limits, now),
            ),
        },
        _ => LimiterState {
            capacity: state.capacity,
            outstanding: held,
            histories: state.histories.insert(
                tenant,
                log_after(history_of(state, tenant), limits, now),
            ),
        },
    }
}

/// The message of the error that a tenant with a full day window gets.
pub open spec fn daily_limit_message(tenant: TenantId) -> Seq<char> {
    "Daily rate limit for tenant "@ + uuid_text(tenant) + " is nearly exhausted."@
}

/// What [`RateLimiter::acquire_permit`] hands back to a call that has not
/// failed.
#[derive(Debug)]
pub enum Acquire {
    /// The call may go out. The permit is to be released when the call is
    /// over, however it ends. A durable limiter adds the snapshot that is to
    /// be written to its cache; if writing fails, the permit stays valid and
    /// only the record of this call is lost.
    Admitted { permit: Permit, snapshot: Option<Snapshot> },
    /// Every slot is taken. Ask again, without a permit, once a permit has
    /// been released.
    WaitingForSlot,
    /// The tenant's minute window is full. Keep the permit, wait for
    /// `seconds`, and ask again with the permit.
    WaitingForWindow { permit: Permit, seconds: u64 },
}

/// The result of a step agrees with the verdict, hands back the permit the
/// call holds, and carries a snapshot of `post` exactly for an admitted call
/// on a durable limiter.
pub open spec fn reports(
    result: Result<Acquire, XeroError>,
    expected: Verdict,
    held: Option<Permit>,
    tenant: TenantId,
    durable: bool,
    post: LimiterState,
) -> bool {
    match expected {
        Verdict::Admitted => {
            &&& result matches Ok(Acquire::Admitted { permit, snapshot })
            &&& held matches Some(p) ==> permit == p
            &&& held is None ==> permit.spec_slot() == post.outstanding
            &&& snapshot is Some == durable
            &&& snapshot matches Some(s) ==> lists(s@, post.histories) && histories(s@)
                == post.histories
        },
        Verdict::WaitForSlot => result matches Ok(Acquire::WaitingForSlot),
        Verdict::WaitForWindow { seconds: expected_seconds } => {
            &&& result matches Ok(Acquire::WaitingForWindow { permit, seconds })
            &&& seconds == expected_seconds
            &&& held matches Some(p) ==> permit == p
            &&& held is None ==> permit.spec_slot() == post.outstanding
        },
        Verdict::DailyQuotaExhausted => {
            &&& result matches Err(XeroError::RateLimiter(message))
            &&& message@ == daily_limit_message(tenant)
        },
    }
}

/// A list that names every tenant once stands for exactly those histories.
pub proof fn lemma_listing_histories(entries: Seq<(TenantId, Seq<i64>)>, logs: Map<TenantId, Seq<i64>>)
    requires
        lists(entries, logs),
    ensures
        histories(entries) == logs,
    decreases entries.len(),
{
    if entries.len() == 0 {
        assert(histories(entries) =~= logs);
    } else {
        let front = entries.drop_last();
        let last = entries.last();
        let rest = logs.remove(last.0);
        assert forall|i: int| 0 <= i < front.len() implies rest.contains_key(
            (#[trigger] front[i]).0,
        ) && rest[front[i].0] == front[i].1 by {
            assert(front[i] == entries[i]);
            assert(entries[i].0 != entries[entries.len() - 1].0);
        }
        assert forall|tenant: TenantId| #[trigger] rest.contains_key(tenant) implies exists|i: int|
            0 <= i < front.len() && (#[trigger] front[i]).0 == tenant by {
            assert(logs.contains_key(tenant));
            let i = choose|i: int| 0 <= i < entries.len() && (#[trigger] entries[i]).0 == tenant;
            assert(i < front.len());
            assert(front[i] == entries[i]);
        }
        assert forall|i: int, j: int| 0 <= i < j < front.len() implies (#[trigger] front[i]).0 != (
        #[trigger] front[j]).0 by {
            assert(front[i] == entries[i]);
            assert(front[j] == entries[j]);
        }
        lemma_listing_histories(front, rest);
        assert(entries[entries.len() - 1] == last);
        assert(histories(entries) =~= logs);
    }
}

/// Manages and enforces the Xero API rate limits across all tenants of one
/// client.
pub struct RateLimiter {
    limits: RateLimits,
    concurrent_gate: ConcurrencyGate,
    tenant_states: DashMap<TenantId, VecDeque<i64>>,
    durable: bool,
}

impl View for RateLimiter {
    type V = LimiterState;

    closed spec fn view(&self) -> LimiterState {
        LimiterState {
            capacity: self.concurrent_gate.spec_limit() as nat,
            outstanding: self.concurrent_gate.spec_outstanding() as nat,
            histories: tenant_logs(self.tenant_states),
        }
    }
}

impl RateLimiter {
    /// The quotas the limiter enforces.
    pub closed spec fn spec_limits(&self) -> RateLimits {
        self.limits
    }

    /// Whether every admission is to be written to the cache.
    pub closed spec fn spec_durable(&self) -> bool {
        self.durable
    }

    /// The state of a limiter that has admitted no call yet.
    pub open spec fn initial(limits: RateLimits) -> LimiterState {
        LimiterState {
            capacity: limits.spec_concurrent_limit() as nat,
            outstanding: 0,
            histories: Map::empty(),
        }
    }

    /// A limiter with the standard quotas that keeps its state in memory
    /// only: no permit is out and no tenant is known.
    pub fn new() -> (limiter: Result<RateLimiter, XeroError>)
        ensures
            limiter matches Ok(l) && l@ == RateLimiter::initial(RateLimits::standard_limits())
                && l.spec_limits() == RateLimits::standard_limits() && !l.spec_durable(),
    {
        Ok(RateLimiter::with_limits(RateLimits::standard()))
    }

    /// A limiter with the given quotas that keeps its state in memory only.
    pub fn with_limits(limits: RateLimits) -> (limiter: RateLimiter)
        ensures
            limiter@ == RateLimiter::initial(limits),
            limiter.spec_limits() == limits,
            !limiter.spec_durable(),
    {
        RateLimiter {
            limits,
            concurrent_gate: ConcurrencyGate::new(limits.concurrent_limit()),
            tenant_states: new_store(),
            durable: false,
        }
    }

    /// A durable limiter that starts from the histories of a snapshot. Where
    /// the snapshot lists a tenant twice, the later entry stands.
    pub fn restore(limits: RateLimits, snapshot: &Snapshot) -> (limiter: RateLimiter)
        ensures
            limiter@.capacity == limits.spec_concurrent_limit(),
            limiter@.outstanding == 0,
            limiter@.histories == histories(snapshot@),
            limiter.spec_limits() == limits,
            limiter.spec_durable(),
    {
        let mut tenant_states = new_store();
        let mut i: usize = 0;
        while i < snapshot.entries.len()
            invariant
                i <= snapshot.entries.len(),
                tenant_logs(tenant_states) == histories(snapshot@.take(i as int)),
            decreases snapshot.entries.len() - i,
        {
            let state = TenantRateLimitState::from_timestamps(&snapshot.entries[i].1);
            proof {
                let upto = snapshot@.take(i as int + 1);
                assert(upto.drop_last() =~= snapshot@.take(i as int));
                assert(upto.last() == snapshot@[i as int]);
                assert(snapshot.entries[i as int].1.deep_view() =~= snapshot.entries[i as int].1@);
            }
            store_history(&mut tenant_states, snapshot.entries[i].0, state.requests);
            i += 1;
        }
        proof {
            assert(snapshot@.take(snapshot.entries.len() as int) =~= snapshot@);
        }
        RateLimiter {
            limits,
            concurrent_gate: ConcurrencyGate::new(limits.concurrent_limit()),
            tenant_states,
            durable: true,
        }
    }

    /// A durable limiter that starts from what its cache file held: `None`
    /// for a file that is missing. A text that cannot be read as a snapshot
    /// counts as no prior history.
    pub fn from_cache(limits: RateLimits, cached: Option<&str>) -> (limiter: RateLimiter)
        ensures
            limiter@.capacity == limits.spec_concurrent_limit(),
            limiter@.outstanding == 0,
            limiter@.histories == histories(
                match cached {
                    Some(text) => match decoded(text@) {
                        Some(entries) => entries,
                        None => Seq::empty(),
                    },
                    None => Seq::empty(),
                },
            ),
            limiter.spec_limits() == limits,
            limiter.spec_durable(),
    {
        let snapshot = Snapshot::load(cached);
        RateLimiter::restore(limits, &snapshot)
    }

    /// The quotas the limiter enforces.
    pub fn limits(&self) -> (limits: RateLimits)
        ensures
            limits == self.spec_limits(),
    {
        self.limits
    }

    /// Whether every admission is to be written to the cache.
    pub fn is_durable(&self) -> (durable: bool)
        ensures
            durable == self.spec_durable(),
    {
        self.durable
    }

    /// The permits that are out: at no time more than the concurrency limit.
    pub fn outstanding(&self) -> (outstanding: usize)
        ensures
            outstanding == self@.outstanding,
            outstanding <= self@.capacity,
    {
        self.concurrent_gate.outstanding()
    }

    /// Every tenant's history as it stands, each tenant once.
    pub fn snapshot(&self) -> (snapshot: Snapshot)
        ensures
            lists(snapshot@, self@.histories),
            histories(snapshot@) == self@.histories,
    {
        let entries = all_histories(&self.tenant_states);
        let snapshot = Snapshot { entries };
        proof {
            lemma_listing_histories(snapshot@, self@.histories);
        }
        snapshot
    }

    /// One step of a call for `tenant_id` at the second `now`.
    ///
    /// A call that comes without a permit asks for a slot first and
    /// is told to wait for one if none is free. With a slot, it asks the
    /// tenant's windows: a full day window fails the call, and its slot is
    /// free again before the error is returned; a full minute window makes it
    /// wait, holding the slot; otherwise the call is recorded and admitted.
    pub fn acquire_permit_at(&mut self, tenant_id: TenantId, held: Option<Permit>, now: i64) -> (result:
        Result<Acquire, XeroError>)
        ensures
            final(self).spec_limits() == old(self).spec_limits(),
            final(self).spec_durable() == old(self).spec_durable(),
            final(self)@ == state_after(
                old(self)@,
                old(self).spec_limits(),
                tenant_id,
                held is Some,
                now,
            ),
            reports(
                result,
                verdict(old(self)@, old(self).spec_limits(), tenant_id, held is Some, now),
                held,
                tenant_id,
                old(self).spec_durable(),
                final(self)@,
            ),
    {
        let ghost before = self@;
        let holding = held.is_some();
        let permit = match held {
            Some(permit) => permit,
            None => match self.concurrent_gate.try_acquire() {
                Some(permit) => permit,
                None => {
                    return Ok(Acquire::WaitingForSlot);
                },
            },
        };
        let requests = history_or_default(&mut self.tenant_states, tenant_id);
        let mut state = TenantRateLimitState { requests };
        let outcome = state.request_admission(&self.limits, now);
        store_history(&mut self.tenant_states, tenant_id, state.requests);
        proof {
            assert(self@.histories =~= before.histories.insert(
                tenant_id,
                log_after(history_of(before, tenant_id), self.limits, now),
            ));
        }
        match outcome {
            Admission::Granted => {
                let snapshot = if self.durable {
                    Some(self.snapshot())
                } else {
                    None
                };
                Ok(Acquire::Admitted { permit, snapshot })
            },
            Admission::Wait { seconds } => Ok(Acquire::WaitingForWindow { permit, seconds }),
            Admission::DailyQuotaExhausted => {
                self.concurrent_gate.release(permit);
                Err(XeroError::RateLimiter(RateLimiter::daily_limit_text(tenant_id)))
            },
        }
    }

    /// One step of a call for `tenant_id` at the second the system's clock
    /// shows: [`RateLimiter::acquire_permit_at`] for some `now`.
    pub fn acquire_permit(&mut self, tenant_id: TenantId, held: Option<Permit>) -> (result: Result<
        Acquire,
        XeroError,
    >)
        ensures
            final(self).spec_limits() == old(self).spec_limits(),
            final(self).spec_durable() == old(self).spec_durable(),
            exists|now: i64|
                {
                    &&& final(self)@ == #[trigger] state_after(
                        old(self)@,
                        old(self).spec_limits(),
                        tenant_id,
                        held is Some,
                        now,
                    )
                    &&& reports(
                        result,
                        verdict(old(self)@, old(self).spec_limits(), tenant_id, held is Some, now),
                        held,
                        tenant_id,
                        old(self).spec_durable(),
                        final(self)@,
                    )
                },
    {
        let now = utc_now();
        self.acquire_permit_at(tenant_id, held, now.secs)
    }

    /// The state of a limiter after one permit has come back.
    pub open spec fn released(state: LimiterState) -> LimiterState {
        LimiterState {
            capacity: state.capacity,
            outstanding: if state.outstanding > 0 {
                (state.outstanding - 1) as nat
            } else {
                0
            },
            histories: state.histories,
        }
    }

    /// Gives a permit back when its call is over: the slot is free again.
    /// The tenants' histories are not touched.
    pub fn release(&mut self, permit: Permit)
        ensures
            final(self).spec_limits() == old(self).spec_limits(),
            final(self).spec_durable() == old(self).spec_durable(),
            final(self)@ == RateLimiter::released(old(self)@),
    {
        self.concurrent_gate.release(permit);
    }

    /// The message for a tenant whose day window is full.
    pub fn daily_limit_text(tenant_id: TenantId) -> (message: String)
        ensures
            message@ == daily_limit_message(tenant_id),
    {
        let id = tenant_text(tenant_id);
        let message = String::from_str("Daily rate limit for tenant ");
        let message = message.concat(id.as_str());
        message.concat(" is nearly exhausted.")
    }
}

} // verus!
