use casino_bot::commands::timely::{
    days_left, decide_timely, decide_timely_now, record_after_claim, timely_days, timely_end,
    ResetReason, TimelyAction, TimelyTimes, MIN_TIMELY_DAYS,
};
use casino_bot::time::{hours_and_minutes, whole_days, Moment, NANOS_PER_DAY, SECS_PER_DAY};

fn at(secs: i64) -> Moment {
    Moment { secs, nanos: 0 }
}

const T0: i64 = 1_700_000_000;

fn record(last: i64, end: i64) -> TimelyTimes {
    TimelyTimes { last_at: Some(at(last)), end_at: Some(at(end)) }
}

#[test]
fn first_claim_starts_a_period() {
    let times = TimelyTimes { last_at: None, end_at: None };
    assert_eq!(decide_timely(times, false, at(T0)), TimelyAction::First);
}

#[test]
fn inconsistent_record_is_broken() {
    let none = TimelyTimes { last_at: None, end_at: None };
    assert_eq!(decide_timely(none, true, at(T0)), TimelyAction::Broken);
    let half = TimelyTimes { last_at: Some(at(T0)), end_at: None };
    assert_eq!(decide_timely(half, true, at(T0)), TimelyAction::Broken);
    assert_eq!(decide_timely(record(T0, T0 + 10 * SECS_PER_DAY), false, at(T0)), TimelyAction::Broken);
}

#[test]
fn claim_next_day_multiplies() {
    let r = record(T0, T0 + 10 * SECS_PER_DAY);
    assert_eq!(decide_timely(r, true, at(T0 + SECS_PER_DAY + 1)), TimelyAction::Multiply);
    assert_eq!(decide_timely(r, true, at(T0 + 2 * SECS_PER_DAY)), TimelyAction::Multiply);
}

#[test]
fn claim_too_early_waits_with_time_left() {
    let r = record(T0, T0 + 10 * SECS_PER_DAY);
    // 3 h 25 min 30 s after the previous claim: 20 h 34 min 30 s left.
    let now = at(T0 + 3 * 3600 + 25 * 60 + 30);
    assert_eq!(decide_timely(r, true, now), TimelyAction::Wait { hours: 20, minutes: 34 });
    // exactly one day later is still too early
    assert_eq!(decide_timely(r, true, at(T0 + SECS_PER_DAY)), TimelyAction::Wait { hours: 0, minutes: 0 });
    assert_eq!(decide_timely(r, true, at(T0)), TimelyAction::Wait { hours: 24, minutes: 0 });
}

#[test]
fn skipped_day_resets() {
    let r = record(T0, T0 + 10 * SECS_PER_DAY);
    assert_eq!(
        decide_timely(r, true, at(T0 + 2 * SECS_PER_DAY + 1)),
        TimelyAction::Reset(ResetReason::SkippedDay)
    );
}

#[test]
fn ended_period_resets() {
    let r = record(T0, T0 + SECS_PER_DAY + 100);
    assert_eq!(
        decide_timely(r, true, at(T0 + SECS_PER_DAY + 101)),
        TimelyAction::Reset(ResetReason::PeriodEnded)
    );
    // skipping a day wins over the end of the period
    assert_eq!(
        decide_timely(r, true, at(T0 + 3 * SECS_PER_DAY)),
        TimelyAction::Reset(ResetReason::SkippedDay)
    );
}

#[test]
fn granted_claim_is_refused_for_a_day() {
    let r = record(T0, T0 + 10 * SECS_PER_DAY);
    let now = at(T0 + SECS_PER_DAY + 500);
    let action = decide_timely(r, true, now);
    assert_eq!(action, TimelyAction::Multiply);
    let next = record_after_claim(r, action, now, at(0));
    assert_eq!(next, TimelyTimes { last_at: Some(now), end_at: Some(at(T0 + 10 * SECS_PER_DAY)) });
    assert!(matches!(decide_timely(next, true, now), TimelyAction::Wait { .. }));
    assert!(matches!(
        decide_timely(next, true, at(now.secs + SECS_PER_DAY)),
        TimelyAction::Wait { .. }
    ));
    assert_eq!(decide_timely(next, true, at(now.secs + SECS_PER_DAY + 1)), TimelyAction::Multiply);
}

#[test]
fn new_period_record() {
    let none = TimelyTimes { last_at: None, end_at: None };
    let now = at(T0);
    let end = timely_end(now, 7);
    assert_eq!(end, at(T0 + 7 * SECS_PER_DAY));
    let next = record_after_claim(none, TimelyAction::First, now, end);
    assert_eq!(next, TimelyTimes { last_at: Some(now), end_at: Some(end) });
    let waited = record_after_claim(next, TimelyAction::Wait { hours: 1, minutes: 2 }, at(T0 + 5), at(0));
    assert_eq!(waited, next);
}

#[test]
fn days_left_rounds_towards_zero() {
    let now = at(T0);
    assert_eq!(days_left(at(T0 + 3 * SECS_PER_DAY + 5), now), 3);
    assert_eq!(days_left(at(T0 + SECS_PER_DAY - 1), now), 0);
    assert_eq!(days_left(at(T0 - SECS_PER_DAY - 1), now), -1);
    assert_eq!(whole_days(-NANOS_PER_DAY), -1);
}

#[test]
fn timely_days_in_range() {
    for _ in 0..200 {
        let d = timely_days(12);
        assert!(MIN_TIMELY_DAYS <= d && d <= 12);
    }
    assert_eq!(timely_days(5), 5);
}

#[test]
fn timely_days_draws_vary() {
    let mut seen = std::collections::HashSet::new();
    for _ in 0..400 {
        seen.insert(timely_days(30));
    }
    assert!(seen.len() > 5);
}

#[test]
fn decision_against_clock_uses_current_time() {
    let none = TimelyTimes { last_at: None, end_at: None };
    let (now, action) = decide_timely_now(none, false);
    assert_eq!(action, TimelyAction::First);
    assert!(now.secs > 1_600_000_000);
    assert!(now.is_valid());
}

#[test]
fn hours_and_minutes_split() {
    let span: i128 = (5 * 3600 + 59 * 60 + 59) as i128 * 1_000_000_000 + 999;
    assert_eq!(hours_and_minutes(span), (5, 59));
    assert_eq!(hours_and_minutes(0), (0, 0));
}

#[test]
fn moment_order_and_days() {
    let a = Moment { secs: 10, nanos: 5 };
    let b = Moment { secs: 10, nanos: 4 };
    assert!(a.is_after(&b));
    assert!(!b.is_after(&a));
    assert_eq!(b.span_to(&a), 1);
    assert_eq!(a.plus_days(2), Moment { secs: 10 + 2 * SECS_PER_DAY, nanos: 5 });
    assert!(!Moment { secs: 0, nanos: 1_000_000_000 }.is_valid());
}
