//! The quotas the limiter enforces and the safety margin it keeps below them.

use vstd::prelude::*;

verus! {

/// Calls that may be in flight at once, across all tenants.
pub const CONCURRENT_LIMIT: usize = 5;

/// Calls one tenant may make within any 60 seconds.
pub const MINUTE_LIMIT: u32 = 60;

/// Calls one tenant may make within any 24 hours.
pub const DAILY_LIMIT: u32 = 5000;

/// Margin kept below the minute and the daily quota, against clock skew and
/// races at the window's edge.
pub const RATE_LIMIT_BUFFER: u32 = 2;

/// Length of the minute window, in seconds.
pub const MINUTE_WINDOW_SECS: i64 = 60;

/// Length of the day window, in seconds.
pub const DAY_WINDOW_SECS: i64 = 86400;

/// Seconds after the oldest call of a full minute window at which the tenant
/// is tried again: the window's length and one second of margin.
pub const RETRY_AFTER_SECS: i64 = 61;

/// The quotas of one limiter.
#[derive(Clone, Copy, Debug, PartialEq, Eq, Structural)]
pub struct RateLimits {
    concurrent_limit: usize,
    minute_limit: u32,
    daily_limit: u32,
    buffer: u32,
}

impl RateLimits {
    /// The buffer fits below both window quotas.
    pub open spec fn consistent(concurrent_limit: usize, minute_limit: u32, daily_limit: u32, buffer: u32) -> bool {
        buffer <= minute_limit && buffer <= daily_limit
    }

    #[verifier::type_invariant]
    spec fn inv(self) -> bool {
        Self::consistent(self.concurrent_limit, self.minute_limit, self.daily_limit, self.buffer)
    }

    pub closed spec fn spec_concurrent_limit(&self) -> usize {
        self.concurrent_limit
    }

    pub closed spec fn spec_minute_limit(&self) -> u32 {
        self.minute_limit
    }

    pub closed spec fn spec_daily_limit(&self) -> u32 {
        self.daily_limit
    }

    pub closed spec fn spec_buffer(&self) -> u32 {
        self.buffer
    }

    /// Admissions a tenant may hold in its minute window.
    pub open spec fn spec_minute_cap(&self) -> u32 {
        if self.spec_buffer() <= self.spec_minute_limit() {
            (self.spec_minute_limit() - self.spec_buffer()) as u32
        } else {
            0
        }
    }

    /// Admissions a tenant may hold in its day window.
    pub open spec fn spec_daily_cap(&self) -> u32 {
        if self.spec_buffer() <= self.spec_daily_limit() {
            (self.spec_daily_limit() - self.spec_buffer()) as u32
        } else {
            0
        }
    }

    /// The quotas of the upstream service with the standard margin, as a
    /// value of specifications.
    pub closed spec fn standard_limits() -> RateLimits {
        RateLimits {
            concurrent_limit: CONCURRENT_LIMIT,
            minute_limit: MINUTE_LIMIT,
            daily_limit: DAILY_LIMIT,
            buffer: RATE_LIMIT_BUFFER,
        }
    }

    /// The quotas of the upstream service with the standard margin.
    pub fn standard() -> (limits: RateLimits)
        ensures
            limits == Self::standard_limits(),
            limits.spec_concurrent_limit() == CONCURRENT_LIMIT,
            limits.spec_minute_limit() == MINUTE_LIMIT,
            limits.spec_daily_limit() == DAILY_LIMIT,
            limits.spec_buffer() == RATE_LIMIT_BUFFER,
            limits.spec_minute_cap() == 58,
            limits.spec_daily_cap() == 4998,
    {
        RateLimits {
            concurrent_limit: CONCURRENT_LIMIT,
            minute_limit: MINUTE_LIMIT,
            daily_limit: DAILY_LIMIT,
            buffer: RATE_LIMIT_BUFFER,
        }
    }

    /// Quotas of the caller's choosing; `None` exactly when the buffer is
    /// larger than one of the window quotas.
    pub fn new(concurrent_limit: usize, minute_limit: u32, daily_limit: u32, buffer: u32) -> (limits: Option<RateLimits>)
        ensures
            limits.is_some() == Self::consistent(concurrent_limit, minute_limit, daily_limit, buffer),
            limits matches Some(l) ==> {
                &&& l.spec_concurrent_limit() == concurrent_limit
                &&& l.spec_minute_limit() == minute_limit
                &&& l.spec_daily_limit() == daily_limit
                &&& l.spec_buffer() == buffer
            },
    {
        if buffer <= minute_limit && buffer <= daily_limit {
            Some(RateLimits { concurrent_limit, minute_limit, daily_limit, buffer })
        } else {
            None
        }
    }

    #[verifier::when_used_as_spec(spec_concurrent_limit)]
    pub fn concurrent_limit(&self) -> (n: usize)
        ensures
            n == self.spec_concurrent_limit(),
    {
        self.concurrent_limit
    }

    #[verifier::when_used_as_spec(spec_minute_limit)]
    pub fn minute_limit(&self) -> (n: u32)
        ensures
            n == self.spec_minute_limit(),
    {
        self.minute_limit
    }

    #[verifier::when_used_as_spec(spec_daily_limit)]
    pub fn daily_limit(&self) -> (n: u32)
        ensures
            n == self.spec_daily_limit(),
    {
        self.daily_limit
    }

    #[verifier::when_used_as_spec(spec_buffer)]
    pub fn buffer(&self) -> (n: u32)
        ensures
            n == self.spec_buffer(),
    {
        self.buffer
    }

    /// Admissions a tenant may hold in its minute window: the quota less the
    /// buffer.
    #[verifier::when_used_as_spec(spec_minute_cap)]
    pub fn minute_cap(&self) -> (n: u32)
        ensures
            n == self.spec_minute_cap(),
            n == self.spec_minute_limit() - self.spec_buffer(),
    {
        proof {
            use_type_invariant(self);
        }
        self.minute_limit - self.buffer
    }

    /// Admissions a tenant may hold in its day window: the quota less the
    /// buffer.
    #[verifier::when_used_as_spec(spec_daily_cap)]
    pub fn daily_cap(&self) -> (n: u32)
        ensures
            n == self.spec_daily_cap(),
            n == self.spec_daily_limit() - self.spec_buffer(),
    {
        proof {
            use_type_invariant(self);
        }
        self.daily_limit - self.buffer
    }
}

} // verus!
