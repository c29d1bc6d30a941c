//! What holds of the limiter as a whole.
//!
//! The functions of the limiter state in their contracts what one step does.
//! The proofs here are about many steps, many tenants and every state: a
//! burst fills the minute window and then waits, a full day window fails at
//! once, the concurrency gate never hands out more permits than it has slots, one
//! tenant's load is invisible to another, stale entries count for nothing,
//! and a snapshot brings back the histories it was taken from.

use crate::rate_limiter::history_of;
use crate::rate_limiter::lemma_listing_histories;
use crate::rate_limiter::limits::RateLimits;
use crate::rate_limiter::limits::DAY_WINDOW_SECS;
use crate::rate_limiter::limits::MINUTE_WINDOW_SECS;
use crate::rate_limiter::limits::RETRY_AFTER_SECS;
use crate::rate_limiter::snapshot::histories;
use crate::rate_limiter::state_after;
use crate::rate_limiter::tenant::TenantId;
use crate::rate_limiter::tenants::lists;
use crate::rate_limiter::verdict;
use crate::rate_limiter::window::admission;
use crate::rate_limiter::window::chronological;
use crate::rate_limiter::window::daily_count;
use crate::rate_limiter::window::earliest;
use crate::rate_limiter::window::in_day_window;
use crate::rate_limiter::window::in_minute_window;
use crate::rate_limiter::window::lemma_earliest_is_minimum;
use crate::rate_limiter::window::log_after;
use crate::rate_limiter::window::minute_count;
use crate::rate_limiter::window::minute_entries;
use crate::rate_limiter::window::oldest_in_minute;
use crate::rate_limiter::window::pruned;
use crate::rate_limiter::window::Admission;
use crate::rate_limiter::LimiterState;
use crate::rate_limiter::RateLimiter;
use vstd::prelude::*;

verus! {

/// A filter that every entry passes changes nothing.
pub proof fn lemma_filter_keeps_all(s: Seq<i64>, pred: spec_fn(i64) -> bool)
    requires
        forall|i: int| 0 <= i < s.len() ==> pred(#[trigger] s[i]),
    ensures
        s.filter(pred) == s,
    decreases s.len(),
{
    reveal(Seq::filter);
    if s.len() > 0 {
        let front = s.drop_last();
        assert forall|i: int| 0 <= i < front.len() implies pred(#[trigger] front[i]) by {
            assert(front[i] == s[i]);
        }
        lemma_filter_keeps_all(front, pred);
        assert(pred(s[s.len() - 1]));
        assert(front.push(s.last()) =~= s);
    }
}

/// Taking one entry out of a sequence takes it out of the filtered sequence
/// if it passes the filter, and changes nothing of it if it does not.
pub proof fn lemma_filter_remove(s: Seq<i64>, pred: spec_fn(i64) -> bool, i: int)
    requires
        0 <= i < s.len(),
    ensures
        s.filter(pred).len() == s.remove(i).filter(pred).len() + if pred(s[i]) {
            1int
        } else {
            0int
        },
        !pred(s[i]) ==> s.remove(i).filter(pred) == s.filter(pred),
{
    let head = s.take(i);
    let tail = s.skip(i + 1);
    let one = seq![s[i]];
    assert(s =~= head + one + tail);
    assert(s.remove(i) =~= head + tail);
    Seq::filter_distributes_over_add(head + one, tail, pred);
    Seq::filter_distributes_over_add(head, one, pred);
    Seq::filter_distributes_over_add(head, tail, pred);
    assert(one.filter(pred) =~= if pred(s[i]) {
        one
    } else {
        Seq::<i64>::empty()
    }) by {
        reveal_with_fuel(Seq::filter, 2);
        assert(one.drop_last() =~= Seq::<i64>::empty());
    }
    if !pred(s[i]) {
        assert(head.filter(pred) + Seq::<i64>::empty() + tail.filter(pred) =~= head.filter(pred)
            + tail.filter(pred));
    }
}

/// Filtering keeps the order of a chronological history.
pub proof fn lemma_filter_chronological(s: Seq<i64>, pred: spec_fn(i64) -> bool)
    requires
        chronological(s),
    ensures
        chronological(s.filter(pred)),
        forall|k: int| 0 <= k < s.filter(pred).len() ==> s.contains(#[trigger] s.filter(pred)[k]),
    decreases s.len(),
{
    reveal(Seq::filter);
    if s.len() > 0 {
        let front = s.drop_last();
        assert forall|i: int, j: int| 0 <= i <= j < front.len() implies front[i] <= front[j] by {
            assert(front[i] == s[i] && front[j] == s[j]);
        }
        lemma_filter_chronological(front, pred);
        let kept = front.filter(pred);
        assert forall|k: int| 0 <= k < kept.len() implies kept[k] <= s.last() && s.contains(
            #[trigger] kept[k],
        ) by {
            assert(front.contains(kept[k]));
            let at = choose|at: int| 0 <= at < front.len() && front[at] == kept[k];
            assert(s[at] == front[at]);
        }
        if pred(s.last()) {
            let out = kept.push(s.last());
            assert(s.filter(pred) == out);
            assert forall|k: int| 0 <= k < out.len() implies s.contains(#[trigger] out[k]) by {
                if k == kept.len() {
                    assert(s[s.len() - 1] == s.last());
                } else {
                    assert(out[k] == kept[k]);
                }
            }
        }
    }
}

/// A request that finds room in both windows is granted, and what it leaves
/// behind is the pruned history with the request's second at its end.
pub proof fn law_room_in_both_windows_is_granted(log: Seq<i64>, limits: RateLimits, now: i64)
    requires
        daily_count(log, now) < limits.spec_daily_cap(),
        minute_count(pruned(log, now), now) < limits.spec_minute_cap(),
    ensures
        admission(log, limits, now) is Granted,
        log_after(log, limits, now) == pruned(log, now).push(now),
{
}

/// A history of calls that lie less than a minute from each other and from
/// `now` counts in full, in the minute and in the day window.
pub proof fn lemma_burst_counts_in_full(times: Seq<i64>, now: i64)
    requires
        forall|i: int| 0 <= i < times.len() ==> -60 < now - #[trigger] times[i] < 60,
    ensures
        pruned(times, now) == times,
        minute_entries(times, now) == times,
{
    assert forall|i: int| 0 <= i < times.len() implies in_day_window(now)(#[trigger] times[i]) by {
        assert(-60 < now - times[i] < 60);
    }
    assert forall|i: int| 0 <= i < times.len() implies in_minute_window(now)(
        #[trigger] times[i],
    ) by {
        assert(-60 < now - times[i] < 60);
    }
    lemma_filter_keeps_all(times, in_day_window(now));
    lemma_filter_keeps_all(times, in_minute_window(now));
}

/// The history of a tenant after requests at the given seconds, one after
/// the other, each answered before the next is made.
pub open spec fn replay(log: Seq<i64>, limits: RateLimits, times: Seq<i64>) -> Seq<i64>
    decreases times.len(),
{
    if times.len() == 0 {
        log
    } else {
        log_after(replay(log, limits, times.drop_last()), limits, times.last())
    }
}

/// Every one of the requests is granted when it is made.
pub open spec fn all_granted(log: Seq<i64>, limits: RateLimits, times: Seq<i64>) -> bool {
    forall|k: int|
        0 <= k < times.len() ==> (#[trigger] admission(
            replay(log, limits, times.take(k)),
            limits,
            times[k],
        )) is Granted
}

/// A burst is admitted as far as the minute window has room.
///
/// For a tenant without history: any number of requests up to the minute
/// cap, made less than a minute apart, are all granted, none waits, and the
/// history then holds exactly their seconds.
pub proof fn law_burst_is_admitted(limits: RateLimits, times: Seq<i64>)
    requires
        times.len() <= limits.spec_minute_cap(),
        times.len() <= limits.spec_daily_cap(),
        forall|i: int, j: int|
            0 <= i < times.len() && 0 <= j < times.len() ==> -60 < #[trigger] times[i]
                - #[trigger] times[j] < 60,
    ensures
        all_granted(Seq::empty(), limits, times),
        replay(Seq::empty(), limits, times) == times,
    decreases times.len(),
{
    let none = Seq::<i64>::empty();
    assert forall|k: int| 0 <= k <= times.len() implies #[trigger] replay(
        none,
        limits,
        times.take(k),
    ) == times.take(k) && (k < times.len() ==> admission(times.take(k), limits, times[k])
        is Granted) by {
        lemma_burst_prefix(limits, times, k);
    }
    assert(times.take(times.len() as int) =~= times);
}

/// The induction behind [`law_burst_is_admitted`]: the first `k` requests of
/// the burst leave exactly their seconds behind, and the next is granted.
pub proof fn lemma_burst_prefix(limits: RateLimits, times: Seq<i64>, k: int)
    requires
        0 <= k <= times.len(),
        times.len() <= limits.spec_minute_cap(),
        times.len() <= limits.spec_daily_cap(),
        forall|i: int, j: int|
            0 <= i < times.len() && 0 <= j < times.len() ==> -60 < #[trigger] times[i]
                - #[trigger] times[j] < 60,
    ensures
        replay(Seq::empty(), limits, times.take(k)) == times.take(k),
        k < times.len() ==> admission(times.take(k), limits, times[k]) is Granted,
    decreases k,
{
    let done = times.take(k);
    if k > 0 {
        lemma_burst_prefix(limits, times, k - 1);
        assert(done.drop_last() =~= times.take(k - 1));
        assert(done.last() == times[k - 1]);
        let earlier = times.take(k - 1);
        assert forall|i: int| 0 <= i < earlier.len() implies -60 < times[k - 1]
            - #[trigger] earlier[i] < 60 by {
            assert(earlier[i] == times[i]);
            assert(-60 < times[k - 1] - times[i] < 60);
        }
        lemma_burst_counts_in_full(earlier, times[k - 1]);
        assert(earlier.push(times[k - 1]) =~= done);
    } else {
        assert(done =~= Seq::<i64>::empty());
    }
    if k < times.len() {
        assert forall|i: int| 0 <= i < done.len() implies -60 < times[k] - #[trigger] done[i]
            < 60 by {
            assert(done[i] == times[i]);
            assert(-60 < times[k] - times[i] < 60);
        }
        lemma_burst_counts_in_full(done, times[k]);
    }
}

/// The request after a burst that has filled the minute window waits, and
/// waits until 61 seconds after the oldest call of the burst.
///
/// With the standard quotas this is the 59th request after 58 that were
/// made within a minute.
pub proof fn law_request_after_full_burst_waits(limits: RateLimits, times: Seq<i64>, now: i64)
    requires
        times.len() == limits.spec_minute_cap(),
        times.len() < limits.spec_daily_cap(),
        times.len() > 0,
        forall|i: int| 0 <= i < times.len() ==> -60 < now - #[trigger] times[i] < 60,
    ensures
        admission(times, limits, now) == (Admission::Wait {
            seconds: (earliest(times) + RETRY_AFTER_SECS - now) as u64,
        }),
        2 <= earliest(times) + RETRY_AFTER_SECS - now <= 120,
        log_after(times, limits, now) == times,
{
    lemma_burst_counts_in_full(times, now);
    lemma_earliest_is_minimum(times);
    let at = choose|at: int| 0 <= at < times.len() && times[at] == earliest(times);
    assert(-60 < now - times[at] < 60);
}

/// A wait ends 61 seconds after the oldest call of the minute window, lasts
/// two seconds at least, and by its end that call has left the window.
pub proof fn law_wait_ends_after_oldest_leaves(log: Seq<i64>, limits: RateLimits, now: i64)
    requires
        admission(log, limits, now) is Wait,
    ensures
        ({
            let oldest = oldest_in_minute(pruned(log, now), now);
            let seconds = admission(log, limits, now)->seconds;
            &&& in_minute_window(now)(oldest)
            &&& seconds >= 2
            &&& oldest + RETRY_AFTER_SECS - now <= u64::MAX ==> now + seconds == oldest
                + RETRY_AFTER_SECS
            &&& oldest + RETRY_AFTER_SECS <= i64::MAX ==> !in_minute_window(
                (oldest + RETRY_AFTER_SECS) as i64,
            )(oldest)
        }),
{
    let kept = pruned(log, now);
    let recent = minute_entries(kept, now);
    lemma_earliest_is_minimum(recent);
    let at = choose|at: int| 0 <= at < recent.len() && recent[at] == earliest(recent);
    kept.lemma_filter_pred(in_minute_window(now), at);
}

/// Of two filters of which the second lets through only what the first
/// lets through, the second keeps no more entries, and fewer if there is an
/// entry that only the first lets through.
pub proof fn lemma_narrower_filter_keeps_less(
    s: Seq<i64>,
    wide: spec_fn(i64) -> bool,
    narrow: spec_fn(i64) -> bool,
)
    requires
        forall|i: int| 0 <= i < s.len() && narrow(#[trigger] s[i]) ==> wide(s[i]),
    ensures
        s.filter(narrow).len() <= s.filter(wide).len(),
        (exists|k: int| 0 <= k < s.len() && wide(#[trigger] s[k]) && !narrow(s[k])) ==> s.filter(
            narrow,
        ).len() < s.filter(wide).len(),
    decreases s.len(),
{
    reveal(Seq::filter);
    if s.len() > 0 {
        let front = s.drop_last();
        assert forall|i: int| 0 <= i < front.len() && narrow(#[trigger] front[i]) implies wide(
            front[i],
        ) by {
            assert(front[i] == s[i]);
        }
        lemma_narrower_filter_keeps_less(front, wide, narrow);
        assert(s[s.len() - 1] == s.last());
        if exists|k: int| 0 <= k < s.len() && wide(#[trigger] s[k]) && !narrow(s[k]) {
            let k = choose|k: int| 0 <= k < s.len() && wide(#[trigger] s[k]) && !narrow(s[k]);
            if k < front.len() {
                assert(front[k] == s[k]);
            }
        }
    }
}

/// Waiting makes room. When a request is told to wait and comes back when
/// the wait is over, the minute window holds fewer calls than it did, as
/// long as no other call of the tenant was admitted in between: the oldest
/// call has left the window, and no call has come into it. (A wait of
/// `u64::MAX` seconds is one that was cut to what a `u64` holds, and is left
/// out.)
pub proof fn law_wait_makes_room(log: Seq<i64>, limits: RateLimits, now: i64, later: i64)
    requires
        admission(log, limits, now) matches Admission::Wait { seconds } && seconds < u64::MAX
            && later == now + seconds,
    ensures
        minute_count(pruned(log, later), later) < minute_count(pruned(log, now), now),
{
    let seconds = admission(log, limits, now)->seconds;
    let kept = pruned(log, now);
    let recent = minute_entries(kept, now);
    let oldest = oldest_in_minute(kept, now);
    law_wait_ends_after_oldest_leaves(log, limits, now);
    lemma_minute_entries_survive_pruning(log, now);
    lemma_minute_entries_survive_pruning(log, later);
    lemma_earliest_is_minimum(recent);
    // The oldest call of the window is an entry of the history.
    let at = choose|at: int| 0 <= at < recent.len() && recent[at] == oldest;
    assert(recent == minute_entries(log, now));
    log.lemma_filter_contains_rev(in_minute_window(now), oldest);
    let k = choose|k: int| 0 <= k < log.len() && log[k] == oldest;
    assert(in_minute_window(now)(log[k]));
    assert(!in_minute_window(later)(log[k]));
    assert forall|i: int| 0 <= i < log.len() && in_minute_window(later)(
        #[trigger] log[i],
    ) implies in_minute_window(now)(log[i]) by {}
    lemma_narrower_filter_keeps_less(log, in_minute_window(now), in_minute_window(later));
}

/// A tenant whose day window is full is refused at once, whatever its
/// minute window holds: the request does not wait and is not recorded.
pub proof fn law_full_day_window_fails_at_once(log: Seq<i64>, limits: RateLimits, now: i64)
    requires
        daily_count(log, now) >= limits.spec_daily_cap(),
    ensures
        admission(log, limits, now) is DailyQuotaExhausted,
        log_after(log, limits, now) == pruned(log, now),
{
}

/// A call that fails on the day window leaves no slot taken: the limiter
/// counts as many permits after it as before.
pub proof fn law_failed_call_leaks_no_slot(
    state: LimiterState,
    limits: RateLimits,
    tenant: TenantId,
    now: i64,
)
    requires
        verdict(state, limits, tenant, false, now) is DailyQuotaExhausted,
    ensures
        state_after(state, limits, tenant, false, now).outstanding == state.outstanding,
{
}

/// The slot comes first. A call without a permit that finds every slot
/// taken waits for a slot and for nothing else: its tenant's windows are not
/// looked at and its history is not touched, whatever they hold.
pub proof fn law_slot_comes_first(state: LimiterState, limits: RateLimits, tenant: TenantId, now: i64)
    requires
        state.outstanding >= state.capacity,
    ensures
        verdict(state, limits, tenant, false, now) is WaitForSlot,
        state_after(state, limits, tenant, false, now) == state,
{
}

/// A call that holds a slot is never sent back to wait for one, and keeps
/// its slot while it waits for its tenant's minute window.
pub proof fn law_held_slot_is_kept(state: LimiterState, limits: RateLimits, tenant: TenantId, now: i64)
    ensures
        !(verdict(state, limits, tenant, true, now) is WaitForSlot),
        verdict(state, limits, tenant, true, now) is WaitForWindow ==> state_after(
            state,
            limits,
            tenant,
            true,
            now,
        ).outstanding == state.outstanding,
{
}

/// One thing that happens to a limiter.
pub enum Step {
    /// A call for `tenant` takes a step at `now`, with or without a permit
    /// from an earlier step.
    Acquire { tenant: TenantId, holding: bool, now: i64 },
    /// A permit comes back.
    Release,
}

/// The limiter after one step.
pub open spec fn step(state: LimiterState, limits: RateLimits, s: Step) -> LimiterState {
    match s {
        Step::Acquire { tenant, holding, now } => state_after(state, limits, tenant, holding, now),
        Step::Release => RateLimiter::released(state),
    }
}

/// The limiter after a sequence of steps.
pub open spec fn run(state: LimiterState, limits: RateLimits, steps: Seq<Step>) -> LimiterState
    decreases steps.len(),
{
    if steps.len() == 0 {
        state
    } else {
        step(run(state, limits, steps.drop_last()), limits, steps.last())
    }
}

/// No more permits are out than there are slots, at no time, whatever calls
/// arrive, wait, fail or end, and in whatever order.
pub proof fn law_outstanding_never_exceeds_limit(limits: RateLimits, steps: Seq<Step>)
    ensures
        run(RateLimiter::initial(limits), limits, steps).outstanding
            <= limits.spec_concurrent_limit(),
        run(RateLimiter::initial(limits), limits, steps).capacity
            == limits.spec_concurrent_limit(),
    decreases steps.len(),
{
    if steps.len() > 0 {
        law_outstanding_never_exceeds_limit(limits, steps.drop_last());
    }
}

/// A step of one tenant leaves every other tenant's history as it was.
pub proof fn law_step_touches_one_tenant(
    state: LimiterState,
    limits: RateLimits,
    tenant: TenantId,
    holding: bool,
    now: i64,
    other: TenantId,
)
    requires
        other != tenant,
    ensures
        history_of(state_after(state, limits, tenant, holding, now), other) == history_of(
            state,
            other,
        ),
        state_after(state, limits, tenant, holding, now).histories.contains_key(other)
            == state.histories.contains_key(other),
{
}

/// Tenants are independent but for the slots they share.
///
/// Whatever tenant `a` does, and however full its windows are, a call of
/// another tenant `b` that holds a slot gets the answer it would have got
/// had `a` never been there. A call of `b` that has no slot yet gets that
/// answer too whenever a slot is free.
pub proof fn law_tenants_are_independent(
    state: LimiterState,
    limits: RateLimits,
    a: TenantId,
    a_holding: bool,
    a_now: i64,
    b: TenantId,
    b_now: i64,
)
    requires
        a != b,
    ensures
        ({
            let after_a = state_after(state, limits, a, a_holding, a_now);
            &&& verdict(after_a, limits, b, true, b_now) == verdict(state, limits, b, true, b_now)
            &&& after_a.outstanding < after_a.capacity ==> verdict(
                after_a,
                limits,
                b,
                false,
                b_now,
            ) == verdict(state, limits, b, true, b_now)
            &&& log_after(history_of(after_a, b), limits, b_now) == log_after(
                history_of(state, b),
                limits,
                b_now,
            )
        }),
{
    law_step_touches_one_tenant(state, limits, a, a_holding, a_now, b);
}

/// Pruning keeps exactly the entries of the trailing 24 hours, and loses
/// none of the trailing minute.
pub proof fn law_pruning_keeps_the_day_window(log: Seq<i64>, now: i64)
    ensures
        forall|i: int|
            0 <= i < pruned(log, now).len() ==> now - (#[trigger] pruned(log, now)[i])
                < DAY_WINDOW_SECS,
        forall|i: int|
            0 <= i < log.len() && now - log[i] < DAY_WINDOW_SECS ==> pruned(log, now).contains(
                #[trigger] log[i],
            ),
        forall|i: int|
            0 <= i < minute_entries(log, now).len() ==> now - (#[trigger] minute_entries(
                log,
                now,
            )[i]) < MINUTE_WINDOW_SECS,
        minute_count(pruned(log, now), now) == minute_count(log, now),
        pruned(pruned(log, now), now) == pruned(log, now),
    decreases log.len(),
{
    let day = in_day_window(now);
    let minute = in_minute_window(now);
    assert forall|i: int| 0 <= i < log.len() && now - log[i] < DAY_WINDOW_SECS implies pruned(
        log,
        now,
    ).contains(#[trigger] log[i]) by {
        assert(day(log[i]));
        log.lemma_filter_contains(day, i);
    }
    assert forall|i: int| 0 <= i < pruned(log, now).len() implies now - (#[trigger] pruned(
        log,
        now,
    )[i]) < DAY_WINDOW_SECS by {
        log.lemma_filter_pred(day, i);
    }
    assert forall|i: int| 0 <= i < minute_entries(log, now).len() implies now
        - (#[trigger] minute_entries(log, now)[i]) < MINUTE_WINDOW_SECS by {
        log.lemma_filter_pred(minute, i);
    }
    assert forall|i: int| 0 <= i < pruned(log, now).len() implies day(
        #[trigger] pruned(log, now)[i],
    ) by {
        log.lemma_filter_pred(day, i);
    }
    lemma_filter_keeps_all(pruned(log, now), day);
    lemma_minute_entries_survive_pruning(log, now);
}

/// The entries of the trailing minute are the same before and after
/// pruning.
pub proof fn lemma_minute_entries_survive_pruning(log: Seq<i64>, now: i64)
    ensures
        minute_entries(pruned(log, now), now) == minute_entries(log, now),
    decreases log.len(),
{
    reveal(Seq::filter);
    let day = in_day_window(now);
    let minute = in_minute_window(now);
    if log.len() > 0 {
        let front = log.drop_last();
        lemma_minute_entries_survive_pruning(front, now);
        let t = log.last();
        if day(t) {
            front.filter(day).lemma_filter_push(t, minute);
        } else {
            assert(!minute(t));
        }
    }
}

/// An entry that is 24 hours old or older counts for nothing: with it or
/// without it, both counts and the answer to a request are the same.
pub proof fn law_stale_entries_are_not_counted(log: Seq<i64>, limits: RateLimits, now: i64, i: int)
    requires
        0 <= i < log.len(),
        now - log[i] >= DAY_WINDOW_SECS,
    ensures
        daily_count(log.remove(i), now) == daily_count(log, now),
        minute_count(log.remove(i), now) == minute_count(log, now),
        pruned(log.remove(i), now) == pruned(log, now),
        admission(log.remove(i), limits, now) == admission(log, limits, now),
        log_after(log.remove(i), limits, now) == log_after(log, limits, now),
{
    assert(!in_day_window(now)(log[i]));
    assert(!in_minute_window(now)(log[i]));
    lemma_filter_remove(log, in_day_window(now), i);
    lemma_filter_remove(log, in_minute_window(now), i);
}

/// A history in order of time stays in order: pruning keeps the order, and a
/// call admitted at a second that is not before the last one goes to the
/// end.
pub proof fn law_history_stays_chronological(log: Seq<i64>, limits: RateLimits, now: i64)
    requires
        chronological(log),
        log.len() > 0 ==> log.last() <= now,
    ensures
        chronological(pruned(log, now)),
        chronological(log_after(log, limits, now)),
{
    lemma_filter_chronological(log, in_day_window(now));
    let kept = pruned(log, now);
    if admission(log, limits, now) is Granted {
        let out = kept.push(now);
        assert forall|i: int, j: int| 0 <= i <= j < out.len() implies out[i] <= out[j] by {
            if j == kept.len() && i < kept.len() {
                assert(log.contains(kept[i]));
                let at = choose|at: int| 0 <= at < log.len() && log[at] == kept[i];
                assert(log[at] <= log[log.len() - 1]);
            }
        }
    }
}

/// In a chronological history the oldest call of the minute window is the
/// first entry that lies in the window.
pub proof fn law_oldest_is_first_in_window(log: Seq<i64>, now: i64)
    requires
        chronological(log),
        minute_count(log, now) > 0,
    ensures
        oldest_in_minute(log, now) == minute_entries(log, now)[0],
{
    let recent = minute_entries(log, now);
    lemma_filter_chronological(log, in_minute_window(now));
    lemma_earliest_is_minimum(recent);
    let at = choose|at: int| 0 <= at < recent.len() && recent[at] == earliest(recent);
    assert(recent[0] <= recent[at]);
}

/// A snapshot that names every tenant once with its history stands for
/// exactly the histories it was taken from: a limiter restored from it
/// knows the same tenants with the same timestamps, in the same order.
pub proof fn law_snapshot_brings_histories_back(
    entries: Seq<(TenantId, Seq<i64>)>,
    logs: Map<TenantId, Seq<i64>>,
)
    requires
        lists(entries, logs),
    ensures
        histories(entries) == logs,
{
    lemma_listing_histories(entries, logs);
}

} // verus!
