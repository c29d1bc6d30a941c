use uuid::Uuid;
use xero_rs_async::error::XeroError;
use xero_rs_async::rate_limiter::gate::ConcurrencyGate;
use xero_rs_async::rate_limiter::limits::RateLimits;
use xero_rs_async::rate_limiter::limits::CONCURRENT_LIMIT;
use xero_rs_async::rate_limiter::limits::DAILY_LIMIT;
use xero_rs_async::rate_limiter::limits::MINUTE_LIMIT;
use xero_rs_async::rate_limiter::limits::RATE_LIMIT_BUFFER;
use xero_rs_async::rate_limiter::snapshot::Snapshot;
use xero_rs_async::rate_limiter::window::Admission;
use xero_rs_async::rate_limiter::window::TenantRateLimitState;
use xero_rs_async::rate_limiter::Acquire;
use xero_rs_async::rate_limiter::RateLimiter;

const NOW: i64 = 1_750_000_000;

fn tenant(n: u128) -> u128 {
    Uuid::from_u128(n).as_u128()
}

fn history(state: &TenantRateLimitState) -> Vec<i64> {
    state.requests.iter().copied().collect()
}

/// Admits `count` calls for one tenant, 58 to the minute, starting at
/// `start`, and hands back the second of the last one.
fn fill(state: &mut TenantRateLimitState, limits: &RateLimits, start: i64, count: usize) -> i64 {
    let mut now = start;
    let mut in_this_minute = 0;
    for _ in 0..count {
        if in_this_minute == 58 {
            now += 61;
            in_this_minute = 0;
        }
        assert_eq!(state.request_admission(limits, now), Admission::Granted);
        in_this_minute += 1;
    }
    now
}

#[test]
fn standard_limits_are_the_upstream_quotas_less_the_buffer() {
    let limits = RateLimits::standard();
    assert_eq!(limits.concurrent_limit(), 5);
    assert_eq!(limits.minute_limit(), 60);
    assert_eq!(limits.daily_limit(), 5000);
    assert_eq!(limits.buffer(), 2);
    assert_eq!(limits.minute_cap(), 58);
    assert_eq!(limits.daily_cap(), 4998);
    assert_eq!(CONCURRENT_LIMIT, 5);
    assert_eq!(MINUTE_LIMIT, 60);
    assert_eq!(DAILY_LIMIT, 5000);
    assert_eq!(RATE_LIMIT_BUFFER, 2);
}

#[test]
fn limits_with_a_buffer_above_a_quota_are_refused() {
    assert!(RateLimits::new(5, 5, 5000, 6).is_none());
    assert!(RateLimits::new(5, 60, 1, 2).is_none());
    let limits = RateLimits::new(3, 5, 10, 5).expect("buffer equal to a quota is allowed");
    assert_eq!(limits.minute_cap(), 0);
    assert_eq!(limits.daily_cap(), 5);
    assert_eq!(limits.concurrent_limit(), 3);
}

#[test]
fn fifty_eight_calls_in_one_second_pass_and_the_next_waits_61_seconds() {
    let limits = RateLimits::standard();
    let mut state = TenantRateLimitState::new();
    for _ in 0..58 {
        assert_eq!(state.request_admission(&limits, NOW), Admission::Granted);
    }
    assert_eq!(state.requests.len(), 58);
    assert_eq!(state.request_admission(&limits, NOW), Admission::Wait { seconds: 61 });
    assert_eq!(state.requests.len(), 58);
}

#[test]
fn the_wait_ends_61_seconds_after_the_oldest_call_of_the_minute() {
    let limits = RateLimits::standard();
    let mut state = TenantRateLimitState::new();
    for k in 0..58 {
        assert_eq!(state.request_admission(&limits, NOW + k / 2), Admission::Granted);
    }
    let asked_at = NOW + 40;
    assert_eq!(
        state.request_admission(&limits, asked_at),
        Admission::Wait { seconds: 21 }
    );
    assert_eq!(asked_at + 21, NOW + 61);
    // At that second the four calls made at NOW and NOW + 1 have left the
    // window, and the oldest call in it was made at NOW + 2.
    for _ in 0..4 {
        assert_eq!(state.request_admission(&limits, NOW + 61), Admission::Granted);
    }
    assert_eq!(
        state.request_admission(&limits, NOW + 61),
        Admission::Wait { seconds: 2 }
    );
}

#[test]
fn a_wait_is_never_shorter_than_a_second_and_fits_a_u64() {
    assert_eq!(TenantRateLimitState::wait_for(100, 100), 61);
    assert_eq!(TenantRateLimitState::wait_for(41, 100), 2);
    assert_eq!(TenantRateLimitState::wait_for(40, 100), 1);
    assert_eq!(TenantRateLimitState::wait_for(0, 100), 1);
    assert_eq!(TenantRateLimitState::wait_for(i64::MIN, i64::MAX), 1);
    assert_eq!(TenantRateLimitState::wait_for(i64::MAX, i64::MIN), u64::MAX);
    assert_eq!(TenantRateLimitState::wait_for(i64::MAX, 0), i64::MAX as u64 + 61);
}

#[test]
fn the_daily_quota_fails_at_once_after_4998_calls() {
    let limits = RateLimits::standard();
    let mut state = TenantRateLimitState::new();
    let last = fill(&mut state, &limits, NOW, 4998);
    assert!(last - NOW < 86400);
    assert_eq!(state.requests.len(), 4998);
    // The minute window is full as well: the day window is asked first.
    assert_eq!(state.request_admission(&limits, last), Admission::DailyQuotaExhausted);
    // And with an empty minute window the answer stays the same.
    assert_eq!(
        state.request_admission(&limits, last + 600),
        Admission::DailyQuotaExhausted
    );
    assert_eq!(state.requests.len(), 4998);
}

#[test]
fn the_daily_quota_frees_up_as_calls_turn_24_hours_old() {
    let limits = RateLimits::standard();
    let mut state = TenantRateLimitState::new();
    let last = fill(&mut state, &limits, NOW, 4998);
    assert_eq!(
        state.request_admission(&limits, NOW + 86399),
        Admission::DailyQuotaExhausted
    );
    // One second later the 58 calls made at NOW are 24 hours old.
    assert_eq!(state.request_admission(&limits, NOW + 86400), Admission::Granted);
    assert_eq!(state.requests.len(), 4998 - 58 + 1);
    assert!(last > NOW);
}

#[test]
fn entries_of_24_hours_and_more_count_for_nothing() {
    let limits = RateLimits::new(5, 3, 4, 0).expect("consistent limits");
    let timestamps = vec![NOW - 90000, NOW - 86401, NOW - 86400, NOW - 86399, NOW - 59];
    let mut state = TenantRateLimitState::from_timestamps(&timestamps);
    assert_eq!(state.requests_in_last_day(NOW), 2);
    assert_eq!(state.requests_in_last_minute(NOW), (1, Some(NOW - 59)));
    state.prune(NOW);
    assert_eq!(history(&state), vec![NOW - 86399, NOW - 59]);
    assert_eq!(state.requests_in_last_day(NOW), 2);
    assert_eq!(state.requests_in_last_minute(NOW), (1, Some(NOW - 59)));
    assert_eq!(state.request_admission(&limits, NOW), Admission::Granted);
    assert_eq!(history(&state), vec![NOW - 86399, NOW - 59, NOW]);
}

#[test]
fn the_minute_window_is_open_at_60_seconds() {
    let state = TenantRateLimitState::from_timestamps(&vec![NOW - 61, NOW - 60, NOW - 59, NOW]);
    assert_eq!(state.requests_in_last_minute(NOW), (2, Some(NOW - 59)));
    let empty = TenantRateLimitState::new();
    assert_eq!(empty.requests_in_last_minute(NOW), (0, None));
    assert_eq!(empty.requests_in_last_day(NOW), 0);
}

#[test]
fn the_oldest_call_of_the_minute_is_the_smallest_timestamp_in_it() {
    let state = TenantRateLimitState::from_timestamps(&vec![NOW - 5, NOW - 70, NOW - 30, NOW - 10]);
    assert_eq!(state.requests_in_last_minute(NOW), (3, Some(NOW - 30)));
}

#[test]
fn timestamps_come_back_in_the_order_of_admission() {
    let timestamps = vec![3, 1, 2];
    let state = TenantRateLimitState::from_timestamps(&timestamps);
    assert_eq!(state.timestamps(), timestamps);
    assert_eq!(TenantRateLimitState::new().timestamps(), Vec::<i64>::new());
}

#[test]
fn a_minute_cap_of_zero_admits_a_tenant_with_an_empty_window() {
    let limits = RateLimits::new(5, 2, 100, 2).expect("consistent limits");
    let mut state = TenantRateLimitState::new();
    assert_eq!(state.request_admission(&limits, NOW), Admission::Granted);
    assert_eq!(state.request_admission(&limits, NOW), Admission::Wait { seconds: 61 });
    assert_eq!(state.request_admission(&limits, NOW + 60), Admission::Granted);
}

#[test]
fn the_gate_hands_out_as_many_permits_as_it_has_slots() {
    let mut gate = ConcurrencyGate::new(5);
    let mut permits = Vec::new();
    for k in 1..=5 {
        let permit = gate.try_acquire().expect("a slot is free");
        assert_eq!(permit.slot(), k);
        assert_eq!(gate.outstanding(), k);
        permits.push(permit);
    }
    assert_eq!(gate.available(), 0);
    assert!(gate.try_acquire().is_none());
    assert_eq!(gate.outstanding(), 5);
    gate.release(permits.pop().expect("five permits"));
    assert_eq!(gate.outstanding(), 4);
    assert_eq!(gate.available(), 1);
    assert!(gate.try_acquire().is_some());
    assert_eq!(gate.limit(), 5);
}

#[test]
fn releasing_into_an_idle_gate_changes_nothing() {
    let mut first = ConcurrencyGate::new(1);
    let mut second = ConcurrencyGate::new(1);
    let permit = first.try_acquire().expect("a slot is free");
    second.release(permit);
    assert_eq!(second.outstanding(), 0);
    assert_eq!(first.outstanding(), 1);
    let mut none = ConcurrencyGate::new(0);
    assert!(none.try_acquire().is_none());
}

#[test]
fn six_calls_of_six_tenants_leave_the_sixth_waiting_for_a_slot() {
    let mut limiter = RateLimiter::new().expect("an in-memory limiter");
    let mut permits = Vec::new();
    for n in 1..=5 {
        match limiter.acquire_permit_at(tenant(n), None, NOW) {
            Ok(Acquire::Admitted { permit, snapshot }) => {
                assert!(snapshot.is_none());
                permits.push(permit);
            }
            other => panic!("call {} was not admitted: {:?}", n, other),
        }
    }
    assert_eq!(limiter.outstanding(), 5);
    assert!(matches!(
        limiter.acquire_permit_at(tenant(6), None, NOW),
        Ok(Acquire::WaitingForSlot)
    ));
    assert_eq!(limiter.outstanding(), 5);
    // The sixth tenant has not been recorded while it waits for a slot.
    assert_eq!(limiter.snapshot().entries.len(), 5);

    limiter.release(permits.pop().expect("five permits"));
    assert_eq!(limiter.outstanding(), 4);
    assert!(matches!(
        limiter.acquire_permit_at(tenant(6), None, NOW),
        Ok(Acquire::Admitted { .. })
    ));
    assert_eq!(limiter.outstanding(), 5);
}

#[test]
fn outstanding_permits_never_exceed_the_limit() {
    let mut limiter = RateLimiter::new().expect("an in-memory limiter");
    let mut permits = Vec::new();
    for round in 0..40u128 {
        match limiter.acquire_permit_at(tenant(round % 7), None, NOW + round as i64) {
            Ok(Acquire::Admitted { permit, .. }) => permits.push(permit),
            Ok(Acquire::WaitingForSlot) => {
                assert_eq!(limiter.outstanding(), CONCURRENT_LIMIT);
                limiter.release(permits.remove(0));
            }
            other => panic!("unexpected step: {:?}", other),
        }
        assert!(limiter.outstanding() <= CONCURRENT_LIMIT);
        assert_eq!(limiter.outstanding(), permits.len());
    }
}

#[test]
fn a_saturated_tenant_does_not_delay_another() {
    let mut limiter = RateLimiter::new().expect("an in-memory limiter");
    let a = tenant(0xa);
    let b = tenant(0xb);
    for _ in 0..58 {
        match limiter.acquire_permit_at(a, None, NOW) {
            Ok(Acquire::Admitted { permit, .. }) => limiter.release(permit),
            other => panic!("unexpected step: {:?}", other),
        }
    }
    let waiting = match limiter.acquire_permit_at(a, None, NOW) {
        Ok(Acquire::WaitingForWindow { permit, seconds }) => {
            assert_eq!(seconds, 61);
            permit
        }
        other => panic!("unexpected step: {:?}", other),
    };
    // Tenant a holds one slot while it waits; b is admitted at once.
    assert_eq!(limiter.outstanding(), 1);
    let for_b = match limiter.acquire_permit_at(b, None, NOW) {
        Ok(Acquire::Admitted { permit, .. }) => permit,
        other => panic!("unexpected step: {:?}", other),
    };
    assert_eq!(limiter.outstanding(), 2);
    // When a comes back after its wait, it is admitted with the permit it kept.
    let slot = waiting.slot();
    match limiter.acquire_permit_at(a, Some(waiting), NOW + 61) {
        Ok(Acquire::Admitted { permit, .. }) => {
            assert_eq!(permit.slot(), slot);
            limiter.release(permit);
        }
        other => panic!("unexpected step: {:?}", other),
    }
    limiter.release(for_b);
    assert_eq!(limiter.outstanding(), 0);
}

#[test]
fn a_call_that_fails_on_the_daily_quota_gives_its_slot_back() {
    let limits = RateLimits::new(5, 60, 3, 0).expect("consistent limits");
    let mut limiter = RateLimiter::with_limits(limits);
    let id = Uuid::parse_str("a1a2a3a4-b1b2-c1c2-d1d2-d3d4d5d6d7d8").expect("a uuid");
    for _ in 0..3 {
        match limiter.acquire_permit_at(id.as_u128(), None, NOW) {
            Ok(Acquire::Admitted { permit, .. }) => limiter.release(permit),
            other => panic!("unexpected step: {:?}", other),
        }
    }
    match limiter.acquire_permit_at(id.as_u128(), None, NOW) {
        Err(XeroError::RateLimiter(message)) => assert_eq!(
            message,
            "Daily rate limit for tenant a1a2a3a4-b1b2-c1c2-d1d2-d3d4d5d6d7d8 is nearly exhausted."
        ),
        other => panic!("unexpected step: {:?}", other),
    }
    assert_eq!(limiter.outstanding(), 0);
    assert_eq!(
        RateLimiter::daily_limit_text(id.as_u128()),
        format!("Daily rate limit for tenant {} is nearly exhausted.", id)
    );
}

#[test]
fn a_new_limiter_is_empty_and_in_memory() {
    let limiter = RateLimiter::new().expect("an in-memory limiter");
    assert_eq!(limiter.outstanding(), 0);
    assert!(!limiter.is_durable());
    assert_eq!(limiter.limits(), RateLimits::standard());
    assert!(limiter.snapshot().entries.is_empty());
}

#[test]
fn the_clock_driven_step_records_the_present_second() {
    let mut limiter = RateLimiter::new().expect("an in-memory limiter");
    let before = chrono::Utc::now().timestamp();
    let permit = match limiter.acquire_permit(tenant(1), None) {
        Ok(Acquire::Admitted { permit, .. }) => permit,
        other => panic!("unexpected step: {:?}", other),
    };
    let after = chrono::Utc::now().timestamp();
    let snapshot = limiter.snapshot();
    assert_eq!(snapshot.entries.len(), 1);
    assert_eq!(snapshot.entries[0].0, tenant(1));
    assert_eq!(snapshot.entries[0].1.len(), 1);
    assert!(before <= snapshot.entries[0].1[0] && snapshot.entries[0].1[0] <= after);
    limiter.release(permit);
}

#[test]
fn a_snapshot_is_written_as_a_json_object_keyed_by_uuid() {
    let snapshot = Snapshot {
        entries: vec![(1, vec![NOW - 30, NOW - 20, NOW - 10])],
    };
    assert_eq!(
        snapshot.encode().expect("a snapshot can be written"),
        "{\"00000000-0000-0000-0000-000000000001\":[1749999970,1749999980,1749999990]}"
    );
    assert_eq!(Snapshot::empty().encode().expect("a snapshot can be written"), "{}");
}

#[test]
fn a_snapshot_round_trips_through_its_text() {
    let snapshot = Snapshot {
        entries: vec![
            (tenant(7), vec![-5, 0, i64::MAX]),
            (u128::MAX, vec![]),
            (tenant(9), vec![i64::MIN, 12]),
        ],
    };
    let text = snapshot.encode().expect("a snapshot can be written");
    let back = Snapshot::decode(&text).expect("what was written can be read");
    let mut expected = snapshot.entries.clone();
    expected.sort();
    let mut got = back.entries.clone();
    got.sort();
    assert_eq!(got, expected);
}

#[test]
fn a_text_that_is_no_snapshot_is_refused_and_loads_as_no_history() {
    for text in [
        "",
        "not json",
        "[1,2,3]",
        "{\"00000000-0000-0000-0000-000000000001\":[1,2",
        "{\"00000000-0000-0000-0000-000000000001\":[1.5]}",
        "{\"00000000-0000-0000-0000-000000000001\":\"x\"}",
        "{\"not-a-uuid\":[1,2,3]}",
        "{\"00000000-0000-0000-0000-000000000001\":[9223372036854775808]}",
    ] {
        assert!(matches!(Snapshot::decode(text), Err(XeroError::Serde(_))), "{}", text);
        assert!(Snapshot::load(Some(text)).entries.is_empty(), "{}", text);
    }
    assert!(Snapshot::load(None).entries.is_empty());
    let loaded = Snapshot::load(Some("{\"00000000-0000-0000-0000-00000000000a\":[4,5]}"));
    assert_eq!(loaded.entries, vec![(10, vec![4, 5])]);
}

#[test]
fn a_restored_limiter_knows_the_histories_of_the_snapshot() {
    let limits = RateLimits::standard();
    let snapshot = Snapshot {
        entries: vec![(1, vec![10, 20]), (2, vec![30]), (1, vec![40])],
    };
    let limiter = RateLimiter::restore(limits, &snapshot);
    assert!(limiter.is_durable());
    assert_eq!(limiter.outstanding(), 0);
    let mut entries = limiter.snapshot().entries;
    entries.sort();
    // Tenant 1 is listed twice: the later entry stands.
    assert_eq!(entries, vec![(1, vec![40]), (2, vec![30])]);
}

#[test]
fn a_reloaded_tenant_is_held_to_the_calls_it_made_before() {
    let limits = RateLimits::new(5, 5, 5000, 0).expect("consistent limits");
    let t = Uuid::parse_str("6f9619ff-8b86-d011-b42d-00cf4fc964ff").expect("a uuid");
    let first = RateLimiter::restore(
        limits,
        &Snapshot {
            entries: vec![(t.as_u128(), vec![NOW - 30, NOW - 20, NOW - 10])],
        },
    );
    let text = first.snapshot().encode().expect("a snapshot can be written");
    assert_eq!(
        text,
        "{\"6f9619ff-8b86-d011-b42d-00cf4fc964ff\":[1749999970,1749999980,1749999990]}"
    );
    assert_eq!(first.outstanding(), 0);

    let mut limiter = RateLimiter::from_cache(limits, Some(&text));
    assert!(limiter.is_durable());
    for k in 0..2 {
        match limiter.acquire_permit_at(t.as_u128(), None, NOW) {
            Ok(Acquire::Admitted { permit, snapshot }) => {
                let snapshot = snapshot.expect("a durable limiter hands out a snapshot");
                assert_eq!(snapshot.entries.len(), 1);
                assert_eq!(snapshot.entries[0].1.len(), 4 + k);
                assert_eq!(snapshot.entries[0].1[3 + k], NOW);
                limiter.release(permit);
            }
            other => panic!("unexpected step: {:?}", other),
        }
    }
    match limiter.acquire_permit_at(t.as_u128(), None, NOW) {
        Ok(Acquire::WaitingForWindow { permit, seconds }) => {
            assert_eq!(NOW + seconds as i64, NOW - 30 + 61);
            assert_eq!(seconds, 31);
            limiter.release(permit);
        }
        other => panic!("unexpected step: {:?}", other),
    }
}

#[test]
fn a_limiter_without_a_cache_file_or_with_a_corrupt_one_starts_empty() {
    let limits = RateLimits::standard();
    assert!(RateLimiter::from_cache(limits, None).snapshot().entries.is_empty());
    assert!(RateLimiter::from_cache(limits, Some("{{"))
        .snapshot()
        .entries
        .is_empty());
    assert!(RateLimiter::from_cache(limits, Some("{{")).is_durable());
}
