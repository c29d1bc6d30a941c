//! Sliding-window accounting for one tenant.
//!
//! A tenant's history is the sequence of the epoch seconds at which its calls
//! were admitted. Everything the tracker decides is a function of that
//! sequence, the quotas and the current second; those functions are the spec
//! functions of this module, and [`TenantRateLimitState::request_admission`] is proved to
//! compute them.

use crate::rate_limiter::limits::RateLimits;
use crate::rate_limiter::limits::DAY_WINDOW_SECS;
use crate::rate_limiter::limits::MINUTE_WINDOW_SECS;
use crate::rate_limiter::limits::RETRY_AFTER_SECS;
use std::collections::VecDeque;
use vstd::prelude::*;

verus! {

/// The timestamps that are less than 24 hours old at `now`.
pub open spec fn in_day_window(now: i64) -> spec_fn(i64) -> bool {
    |t: i64| now - t < DAY_WINDOW_SECS
}

/// The timestamps that are less than 60 seconds old at `now`.
pub open spec fn in_minute_window(now: i64) -> spec_fn(i64) -> bool {
    |t: i64| t > now - MINUTE_WINDOW_SECS
}

/// The history without the entries that are 24 hours old or older.
pub open spec fn pruned(log: Seq<i64>, now: i64) -> Seq<i64> {
    log.filter(in_day_window(now))
}

/// Calls of the trailing 24 hours.
pub open spec fn daily_count(log: Seq<i64>, now: i64) -> nat {
    pruned(log, now).len()
}

/// The entries of the trailing 60 seconds, in the order of the history.
pub open spec fn minute_entries(log: Seq<i64>, now: i64) -> Seq<i64> {
    log.filter(in_minute_window(now))
}

/// Calls of the trailing 60 seconds.
pub open spec fn minute_count(log: Seq<i64>, now: i64) -> nat {
    minute_entries(log, now).len()
}

/// The smallest timestamp of a sequence (0 for the empty one).
pub open spec fn earliest(s: Seq<i64>) -> i64
    decreases s.len(),
{
    if s.len() == 0 {
        0
    } else if s.len() == 1 {
        s[0]
    } else {
        let rest = earliest(s.drop_last());
        if s.last() < rest {
            s.last()
        } else {
            rest
        }
    }
}

/// The oldest call of the trailing 60 seconds.
pub open spec fn oldest_in_minute(log: Seq<i64>, now: i64) -> i64 {
    earliest(minute_entries(log, now))
}

/// Seconds to stay away when the oldest call of a full minute window was
/// made at `oldest`: until 61 seconds after it, and never less than one
/// second. The result is capped at what a `u64` holds.
pub open spec fn wait_seconds(oldest: i64, now: i64) -> u64 {
    let wait = oldest + RETRY_AFTER_SECS - now;
    if wait < 1 {
        1
    } else if wait > u64::MAX {
        u64::MAX
    } else {
        wait as u64
    }
}

/// No entry is younger than the one before it.
pub open spec fn chronological(log: Seq<i64>) -> bool {
    forall|i: int, j: int| 0 <= i <= j < log.len() ==> log[i] <= log[j]
}

/// What the tracker answers to one request for admission.
#[derive(Clone, Copy, Debug, PartialEq, Eq, Structural)]
pub enum Admission {
    /// Both windows have room; the call was recorded.
    Granted,
    /// The minute window is full: ask again after this many seconds.
    Wait { seconds: u64 },
    /// The day window is full: the call must not be made.
    DailyQuotaExhausted,
}

/// The answer to a request at `now` from a tenant with history `log`: the day
/// window is checked first and fails at once, then the minute window, which
/// asks the caller to wait.
pub open spec fn admission(log: Seq<i64>, limits: RateLimits, now: i64) -> Admission {
    let kept = pruned(log, now);
    if kept.len() >= limits.spec_daily_cap() {
        Admission::DailyQuotaExhausted
    } else if minute_count(kept, now) >= limits.spec_minute_cap() && minute_count(kept, now) > 0 {
        Admission::Wait { seconds: wait_seconds(oldest_in_minute(kept, now), now) }
    } else {
        Admission::Granted
    }
}

/// The history after a request at `now`: pruned in every case, and with `now`
/// appended when the request was granted.
pub open spec fn log_after(log: Seq<i64>, limits: RateLimits, now: i64) -> Seq<i64> {
    let kept = pruned(log, now);
    if admission(log, limits, now) is Granted {
        kept.push(now)
    } else {
        kept
    }
}

/// The request history of a single tenant.
#[derive(Debug)]
pub struct TenantRateLimitState {
    /// Epoch seconds of the admitted calls, in the order of admission.
    pub requests: VecDeque<i64>,
}

impl View for TenantRateLimitState {
    type V = Seq<i64>;

    open spec fn view(&self) -> Seq<i64> {
        self.requests@
    }
}

impl Default for TenantRateLimitState {
    fn default() -> (state: TenantRateLimitState)
        ensures
            state@ == Seq::<i64>::empty(),
    {
        TenantRateLimitState { requests: VecDeque::new() }
    }
}

/// `earliest` is a lower bound of the sequence and one of its entries.
pub proof fn lemma_earliest_is_minimum(s: Seq<i64>)
    requires
        s.len() > 0,
    ensures
        s.contains(earliest(s)),
        forall|i: int| 0 <= i < s.len() ==> earliest(s) <= #[trigger] s[i],
    decreases s.len(),
{
    if s.len() == 1 {
        assert(s[0] == earliest(s));
    } else {
        let front = s.drop_last();
        lemma_earliest_is_minimum(front);
        let k = choose|k: int| 0 <= k < front.len() && front[k] == earliest(front);
        assert(s[k] == front[k]);
        assert(s[s.len() - 1] == s.last());
        assert forall|i: int| 0 <= i < s.len() implies earliest(s) <= #[trigger] s[i] by {
            if i < front.len() {
                assert(front[i] == s[i]);
            }
        }
    }
}

/// Appending one entry moves `earliest` to it exactly when it is smaller.
pub proof fn lemma_earliest_push(s: Seq<i64>, t: i64)
    ensures
        earliest(s.push(t)) == if s.len() == 0 || t < earliest(s) {
            t
        } else {
            earliest(s)
        },
{
    assert(s.push(t).drop_last() =~= s);
    assert(s.push(t).last() == t);
}

impl TenantRateLimitState {
    /// A tenant that has made no call.
    pub fn new() -> (state: TenantRateLimitState)
        ensures
            state@ == Seq::<i64>::empty(),
    {
        TenantRateLimitState { requests: VecDeque::new() }
    }

    /// A tenant with the given history.
    pub fn from_timestamps(timestamps: &Vec<i64>) -> (state: TenantRateLimitState)
        ensures
            state@ == timestamps@,
    {
        let mut requests: VecDeque<i64> = VecDeque::new();
        let mut i: usize = 0;
        while i < timestamps.len()
            invariant
                i <= timestamps.len(),
                requests@ == timestamps@.take(i as int),
            decreases timestamps.len() - i,
        {
            requests.push_back(timestamps[i]);
            proof {
                timestamps@.lemma_take_succ_push(i as int);
            }
            i += 1;
        }
        proof {
            timestamps@.lemma_take_len();
        }
        TenantRateLimitState { requests }
    }

    /// The history, oldest admission first.
    pub fn timestamps(&self) -> (out: Vec<i64>)
        ensures
            out@ == self@,
    {
        let mut out: Vec<i64> = Vec::new();
        let mut i: usize = 0;
        while i < self.requests.len()
            invariant
                i <= self.requests@.len(),
                out@ == self.requests@.take(i as int),
            decreases self.requests@.len() - i,
        {
            out.push(self.requests[i]);
            proof {
                self.requests@.lemma_take_succ_push(i as int);
            }
            i += 1;
        }
        proof {
            self.requests@.lemma_take_len();
        }
        out
    }

    /// Drops every entry that is 24 hours old or older at `now`; the others
    /// keep their order.
    pub fn prune(&mut self, now: i64)
        ensures
            final(self)@ == pruned(old(self)@, now),
    {
        let ghost before = self.requests@;
        let n = self.requests.len();
        let mut kept: VecDeque<i64> = VecDeque::new();
        let mut i: usize = 0;
        while i < n
            invariant
                n == before.len(),
                i <= n,
                self.requests@ == before,
                kept@ == before.take(i as int).filter(in_day_window(now)),
            decreases n - i,
        {
            let t = self.requests[i];
            proof {
                before.lemma_take_succ_push(i as int);
                before.take(i as int).lemma_filter_push(t, in_day_window(now));
            }
            if (now as i128) - (t as i128) < (DAY_WINDOW_SECS as i128) {
                kept.push_back(t);
            }
            i += 1;
        }
        proof {
            before.lemma_take_len();
        }
        self.requests = kept;
    }

    /// Calls of the trailing 24 hours at `now`.
    pub fn requests_in_last_day(&self, now: i64) -> (count: usize)
        ensures
            count == daily_count(self@, now),
    {
        let n = self.requests.len();
        let mut count: usize = 0;
        let mut i: usize = 0;
        while i < n
            invariant
                n == self.requests@.len(),
                i <= n,
                count <= i,
                count == self.requests@.take(i as int).filter(in_day_window(now)).len(),
            decreases n - i,
        {
            let t = self.requests[i];
            proof {
                self.requests@.lemma_take_succ_push(i as int);
                self.requests@.take(i as int).lemma_filter_push(t, in_day_window(now));
            }
            if (now as i128) - (t as i128) < (DAY_WINDOW_SECS as i128) {
                count += 1;
            }
            i += 1;
        }
        proof {
            self.requests@.lemma_take_len();
        }
        count
    }

    /// Calls of the trailing 60 seconds at `now`, and the oldest of them
    /// where there is one.
    pub fn requests_in_last_minute(&self, now: i64) -> (window: (usize, Option<i64>))
        ensures
            window.0 == minute_count(self@, now),
            window.1 == if minute_count(self@, now) > 0 {
                Some(oldest_in_minute(self@, now))
            } else {
                None
            },
    {
        let n = self.requests.len();
        let mut count: usize = 0;
        let mut oldest: Option<i64> = None;
        let mut i: usize = 0;
        while i < n
            invariant
                n == self.requests@.len(),
                i <= n,
                count <= i,
                count == self.requests@.take(i as int).filter(in_minute_window(now)).len(),
                oldest == if count > 0 {
                    Some(earliest(self.requests@.take(i as int).filter(in_minute_window(now))))
                } else {
                    None
                },
            decreases n - i,
        {
            let t = self.requests[i];
            proof {
                self.requests@.lemma_take_succ_push(i as int);
                self.requests@.take(i as int).lemma_filter_push(t, in_minute_window(now));
                lemma_earliest_push(
                    self.requests@.take(i as int).filter(in_minute_window(now)),
                    t,
                );
            }
            if (t as i128) > (now as i128) - (MINUTE_WINDOW_SECS as i128) {
                count += 1;
                oldest = match oldest {
                    Some(o) => if t < o {
                        Some(t)
                    } else {
                        Some(o)
                    },
                    None => Some(t),
                };
            }
            i += 1;
        }
        proof {
            self.requests@.lemma_take_len();
        }
        (count, oldest)
    }

    /// Seconds to stay away from a tenant whose minute window is full and
    /// whose oldest call in it was made at `oldest`.
    pub fn wait_for(oldest: i64, now: i64) -> (seconds: u64)
        ensures
            seconds == wait_seconds(oldest, now),
    {
        let wait: i128 = (oldest as i128) + (RETRY_AFTER_SECS as i128) - (now as i128);
        if wait < 1 {
            1
        } else if wait > (u64::MAX as i128) {
            u64::MAX
        } else {
            wait as u64
        }
    }

    /// One request for admission at `now`.
    ///
    /// The history is pruned. Then, with the day window full, the request
    /// fails; with the minute window full, the caller is told how long to
    /// wait before asking again; otherwise `now` is recorded and the request
    /// is granted. The tracker never sleeps: the caller does, holding nothing.
    pub fn request_admission(&mut self, limits: &RateLimits, now: i64) -> (outcome: Admission)
        ensures
            outcome == admission(old(self)@, *limits, now),
            final(self)@ == log_after(old(self)@, *limits, now),
    {
        self.prune(now);
        let requests_in_last_day = self.requests.len();
        if requests_in_last_day as u64 >= limits.daily_cap() as u64 {
            return Admission::DailyQuotaExhausted;
        }
        let (requests_in_last_minute, oldest_in_minute) = self.requests_in_last_minute(now);
        if requests_in_last_minute as u64 >= limits.minute_cap() as u64 {
            if let Some(oldest) = oldest_in_minute {
                return Admission::Wait { seconds: Self::wait_for(oldest, now) };
            }
        }
        self.requests.push_back(now);
        Admission::Granted
    }
}

} // verus!
