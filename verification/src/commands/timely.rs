//! The daily reward ("timely"): a first claim starts a period of a few
//! days; a claim on the day after the previous one grows the reward; a claim
//! within a day of the previous one is refused; a skipped day or the end of
//! the period starts a new period.
use crate::random::uniform_inclusive;
use crate::time::{
    hours_and_minutes, now, spec_whole_days, whole_days, Moment, MAX_SECS, MIN_SECS, NANOS_PER_DAY,
    NANOS_PER_HOUR, NANOS_PER_MINUTE, SECS_PER_DAY,
};
use vstd::prelude::*;

verus! {

/// Fewest days a timely period lasts.
pub const MIN_TIMELY_DAYS: i8 = 5;

/// Most days a timely period lasts.
pub const TIMELY_DAYS_LIMIT: i8 = 30;

/// Why a new timely period starts.
#[derive(Debug, Clone, Copy, PartialEq, Eq)]
pub enum ResetReason {
    /// More than two days passed since the previous claim.
    SkippedDay,
    /// The period's end has passed.
    PeriodEnded,
}

/// What a timely claim does.
#[derive(Debug, Clone, Copy, PartialEq, Eq)]
pub enum TimelyAction {
    /// The player never claimed: a first period starts.
    First,
    /// The claim continues the streak and grows the reward.
    Multiply,
    /// Less than a day passed since the previous claim; the time left,
    /// in whole hours and the whole minutes beyond them.
    Wait { hours: i64, minutes: i64 },
    /// A new period starts.
    Reset(ResetReason),
    /// The stored claim record is inconsistent.
    Broken,
}

/// When the player last claimed and when the current period ends.
#[derive(Debug, Clone, Copy, PartialEq, Eq)]
pub struct TimelyTimes {
    pub last_at: Option<Moment>,
    pub end_at: Option<Moment>,
}

/// The inputs of a timely decision are instants the bot can store, and the
/// day arithmetic on the previous claim stays in range.
pub open spec fn timely_inputs_ok(times: TimelyTimes, has_value: bool) -> bool {
    &&& (times.last_at matches Some(l) ==> l.wf())
    &&& (times.end_at matches Some(e) ==> e.wf())
    &&& match (times.last_at, times.end_at) {
        (Some(l), Some(_)) => has_value ==> l.secs + 2 * SECS_PER_DAY <= MAX_SECS,
        _ => true,
    }
}

/// The time left until `deadline`, split as the wait message shows it.
pub open spec fn wait_until(deadline: int, now: Moment) -> TimelyAction {
    let span = deadline - now.total();
    TimelyAction::Wait {
        hours: (span / NANOS_PER_HOUR as int) as i64,
        minutes: ((span % NANOS_PER_HOUR as int) / NANOS_PER_MINUTE as int) as i64,
    }
}

/// What a claim at `now` does, given the stored record (`has_value` tells
/// whether a previous reward is stored).
pub open spec fn timely_action(times: TimelyTimes, has_value: bool, now: Moment) -> TimelyAction {
    match (times.last_at, times.end_at) {
        (None, None) => if !has_value {
            TimelyAction::First
        } else {
            TimelyAction::Broken
        },
        (Some(l), Some(e)) => if !has_value {
            TimelyAction::Broken
        } else {
            let is_next_day = now.total() > l.total() + NANOS_PER_DAY;
            let is_day_after_next_day = now.total() > l.total() + 2 * NANOS_PER_DAY;
            let is_timely_end = now.total() > e.total();
            if is_next_day && !is_day_after_next_day && !is_timely_end {
                TimelyAction::Multiply
            } else if !is_next_day {
                wait_until(l.total() + NANOS_PER_DAY, now)
            } else if is_day_after_next_day {
                TimelyAction::Reset(ResetReason::SkippedDay)
            } else {
                TimelyAction::Reset(ResetReason::PeriodEnded)
            }
        },
        _ => TimelyAction::Broken,
    }
}

/// Whether an action grants a reward.
pub open spec fn grants(action: TimelyAction) -> bool {
    action is First || action is Multiply || action is Reset
}

/// The record after the action: a granted claim is stamped with `now`;
/// a new period ends at `new_end`; the multiplying claim keeps the period.
pub open spec fn record_after(
    times: TimelyTimes,
    action: TimelyAction,
    now: Moment,
    new_end: Moment,
) -> TimelyTimes {
    match action {
        TimelyAction::First => TimelyTimes { last_at: Some(now), end_at: Some(new_end) },
        TimelyAction::Reset(_) => TimelyTimes { last_at: Some(now), end_at: Some(new_end) },
        TimelyAction::Multiply => TimelyTimes { last_at: Some(now), end_at: times.end_at },
        _ => times,
    }
}

/// Decides what a claim at `now` does.
pub fn decide_timely(times: TimelyTimes, has_value: bool, now: Moment) -> (a: TimelyAction)
    requires
        timely_inputs_ok(times, has_value),
        now.wf(),
    ensures
        a == timely_action(times, has_value, now),
{
    match (times.last_at, times.end_at) {
        (None, None) => {
            if !has_value {
                TimelyAction::First
            } else {
                TimelyAction::Broken
            }
        },
        (Some(l), Some(e)) => {
            if !has_value {
                return TimelyAction::Broken;
            }
            let next_day = l.plus_days(1);
            let day_after_next_day = l.plus_days(2);
            let is_next_day = now.is_after(&next_day);
            let is_day_after_next_day = now.is_after(&day_after_next_day);
            let is_timely_end = now.is_after(&e);
            if is_next_day && !is_day_after_next_day && !is_timely_end {
                TimelyAction::Multiply
            } else if !is_next_day {
                let span = now.span_to(&next_day);
                let (hours, minutes) = hours_and_minutes(span);
                TimelyAction::Wait { hours, minutes }
            } else if is_day_after_next_day {
                TimelyAction::Reset(ResetReason::SkippedDay)
            } else {
                TimelyAction::Reset(ResetReason::PeriodEnded)
            }
        },
        _ => TimelyAction::Broken,
    }
}

/// Decides what a claim made now does; returns the instant it used.
pub fn decide_timely_now(times: TimelyTimes, has_value: bool) -> (r: (Moment, TimelyAction))
    requires
        timely_inputs_ok(times, has_value),
    ensures
        r.0.wf(),
        r.0.secs >= 0,
        r.1 == timely_action(times, has_value, r.0),
{
    let now = now();
    let action = decide_timely(times, has_value, now);
    (now, action)
}

/// The record to store after the claim.
pub fn record_after_claim(
    times: TimelyTimes,
    action: TimelyAction,
    now: Moment,
    new_end: Moment,
) -> (r: TimelyTimes)
    ensures
        r == record_after(times, action, now, new_end),
{
    match action {
        TimelyAction::First => TimelyTimes { last_at: Some(now), end_at: Some(new_end) },
        TimelyAction::Reset(_) => TimelyTimes { last_at: Some(now), end_at: Some(new_end) },
        TimelyAction::Multiply => TimelyTimes { last_at: Some(now), end_at: times.end_at },
        _ => times,
    }
}

/// Draws the length in days of a new period, between the fewest days and
/// `max_days`.
pub fn timely_days(max_days: i8) -> (d: i8)
    requires
        MIN_TIMELY_DAYS <= max_days,
    ensures
        MIN_TIMELY_DAYS <= d <= max_days,
{
    uniform_inclusive(MIN_TIMELY_DAYS as i64, max_days as i64) as i8
}

/// When a period of `days` days that starts at `now` ends.
pub fn timely_end(now: Moment, days: i8) -> (end: Moment)
    requires
        now.wf(),
        MIN_SECS <= now.secs + days * SECS_PER_DAY <= MAX_SECS,
    ensures
        end.wf(),
        end.total() == now.total() + days * NANOS_PER_DAY,
{
    now.plus_days(days as i64)
}

/// Whole days left in the period, rounded towards zero.
pub fn days_left(end: Moment, now: Moment) -> (d: i64)
    requires
        end.wf(),
        now.wf(),
    ensures
        d == spec_whole_days(end.total() - now.total()),
{
    whole_days(now.span_to(&end))
}

/// A granted claim is refused for a whole day afterwards: every claim from
/// the instant of the grant up to one day later waits.
pub proof fn claim_refused_for_a_day(
    times: TimelyTimes,
    has_value: bool,
    now: Moment,
    new_end: Moment,
    later: Moment,
)
    requires
        timely_inputs_ok(times, has_value),
        now.wf(),
        new_end.wf(),
        later.wf(),
        grants(timely_action(times, has_value, now)),
        now.total() <= later.total() <= now.total() + NANOS_PER_DAY,
    ensures
        timely_action(
            record_after(times, timely_action(times, has_value, now), now, new_end),
            true,
            later,
        ) is Wait,
{
}

/// A claim more than one and at most two days after the previous one
/// continues the streak while the period lasts, and starts a new period
/// once it has ended; a claim more than two days after the previous one
/// starts a new period.
pub proof fn timely_schedule(last: Moment, end: Moment, now: Moment)
    requires
        last.wf(),
        end.wf(),
        now.wf(),
    ensures
        ({
            let times = TimelyTimes { last_at: Some(last), end_at: Some(end) };
            let d = NANOS_PER_DAY as int;
            &&& last.total() + d < now.total() <= last.total() + 2 * d && now.total() <= end.total()
                ==> timely_action(times, true, now) == TimelyAction::Multiply
            &&& last.total() + d < now.total() <= last.total() + 2 * d && now.total() > end.total()
                ==> timely_action(times, true, now) == TimelyAction::Reset(
                ResetReason::PeriodEnded,
            )
            &&& now.total() > last.total() + 2 * d ==> timely_action(times, true, now)
                == TimelyAction::Reset(ResetReason::SkippedDay)
        }),
{
}

/// The wait shown is the time left until a day after the previous claim,
/// rounded down to the minute; when the clock has not gone back, it is at
/// most one day.
pub proof fn wait_is_time_left(last: Moment, end: Moment, now: Moment)
    requires
        last.wf(),
        end.wf(),
        now.wf(),
        now.total() <= last.total() + NANOS_PER_DAY,
    ensures
        ({
            let times = TimelyTimes { last_at: Some(last), end_at: Some(end) };
            let left = last.total() + NANOS_PER_DAY - now.total();
            let a = timely_action(times, true, now);
            &&& a is Wait
            &&& a->hours * NANOS_PER_HOUR + a->minutes * NANOS_PER_MINUTE <= left
            &&& left < a->hours * NANOS_PER_HOUR + (a->minutes + 1) * NANOS_PER_MINUTE
            &&& now.total() >= last.total() ==> a->hours * 60 + a->minutes <= 24 * 60
        }),
{
    let left = last.total() + NANOS_PER_DAY - now.total();
    let h = NANOS_PER_HOUR as int;
    let m = NANOS_PER_MINUTE as int;
    assert(left == (left / h) * h + left % h) by (nonlinear_arith)
        requires
            h > 0,
    ;
    assert(left % h == ((left % h) / m) * m + (left % h) % m) by (nonlinear_arith)
        requires
            m > 0,
    ;
}

/// The stored record after each kind of claim: a first claim and a reset
/// both start a new period, stamped now and ending at the newly drawn end;
/// a multiplying claim is stamped now and keeps the period's end; a refused
/// or broken claim changes nothing.
pub proof fn record_after_each_claim(
    times: TimelyTimes,
    reason: ResetReason,
    now: Moment,
    new_end: Moment,
    hours: i64,
    minutes: i64,
)
    ensures
        record_after(times, TimelyAction::First, now, new_end).last_at == Some(now),
        record_after(times, TimelyAction::First, now, new_end).end_at == Some(new_end),
        record_after(times, TimelyAction::Reset(reason), now, new_end).last_at == Some(now),
        record_after(times, TimelyAction::Reset(reason), now, new_end).end_at == Some(new_end),
        record_after(times, TimelyAction::Multiply, now, new_end).last_at == Some(now),
        record_after(times, TimelyAction::Multiply, now, new_end).end_at == times.end_at,
        record_after(times, TimelyAction::Wait { hours, minutes }, now, new_end) == times,
        record_after(times, TimelyAction::Broken, now, new_end) == times,
{
}

/// A new period continues the streak: after a first claim or a reset at
/// `now` with a period ending at `new_end`, a claim more than one and at
/// most two days later, and not after `new_end`, multiplies.
pub proof fn new_period_continues_next_day(
    times: TimelyTimes,
    has_value: bool,
    now: Moment,
    new_end: Moment,
    later: Moment,
)
    requires
        now.wf(),
        new_end.wf(),
        later.wf(),
        timely_action(times, has_value, now) is First || timely_action(times, has_value, now) is Reset,
        now.total() + NANOS_PER_DAY < later.total() <= now.total() + 2 * NANOS_PER_DAY,
        later.total() <= new_end.total(),
    ensures
        timely_action(
            record_after(times, timely_action(times, has_value, now), now, new_end),
            true,
            later,
        ) == TimelyAction::Multiply,
{
}

} // verus!
