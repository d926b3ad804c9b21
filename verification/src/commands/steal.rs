//! Stealing from another player: once a day, against a player who is not
//! a bot and not the thief; the attempt succeeds, fails, or, very rarely,
//! takes everything.
use crate::time::{hours_and_minutes, now, Moment, MAX_SECS, NANOS_PER_DAY, SECS_PER_DAY};
use vstd::prelude::*;

verus! {

/// Outcomes of a steal attempt, in the order of their weights.
#[derive(Debug, Clone, Copy, PartialEq, Eq)]
pub enum StealChoice {
    Steal,
    Fail,
    StealAll,
}

/// Number of outcomes of a steal attempt.
pub const STEAL_CHOICES: usize = 3;

/// Whom a player tries to steal from.
#[derive(Debug, Clone, Copy, PartialEq, Eq)]
pub enum StealTarget {
    /// The bot itself.
    TheBot,
    /// Another bot.
    OtherBot,
    /// The thief themselves.
    Themselves,
    /// Another player: the attempt goes ahead.
    Player,
}

/// The outcome at a position of the weights.
pub open spec fn choice(index: int) -> StealChoice {
    if index == 0 {
        StealChoice::Steal
    } else if index == 1 {
        StealChoice::Fail
    } else {
        StealChoice::StealAll
    }
}

/// The outcome at a position of the weights.
pub fn choice_at(index: usize) -> (c: StealChoice)
    requires
        index < STEAL_CHOICES,
    ensures
        c == choice(index as int),
{
    if index == 0 {
        StealChoice::Steal
    } else if index == 1 {
        StealChoice::Fail
    } else {
        StealChoice::StealAll
    }
}

/// Classifies the target; the checks run in this order: the bot itself,
/// another bot, the thief.
pub open spec fn target_kind(author_id: u64, target_id: u64, bot_id: u64, target_is_bot: bool) -> StealTarget {
    if target_id == bot_id {
        StealTarget::TheBot
    } else if target_is_bot {
        StealTarget::OtherBot
    } else if author_id == target_id {
        StealTarget::Themselves
    } else {
        StealTarget::Player
    }
}

/// Classifies the target of a steal attempt.
pub fn check_steal_target(author_id: u64, target_id: u64, bot_id: u64, target_is_bot: bool) -> (t:
    StealTarget)
    ensures
        t == target_kind(author_id, target_id, bot_id, target_is_bot),
{
    if target_id == bot_id {
        StealTarget::TheBot
    } else if target_is_bot {
        StealTarget::OtherBot
    } else if author_id == target_id {
        StealTarget::Themselves
    } else {
        StealTarget::Player
    }
}

/// The previous attempt, if any, is a storable instant whose next day is
/// in range.
pub open spec fn cooldown_inputs_ok(last_steal_at: Option<Moment>) -> bool {
    last_steal_at matches Some(l) ==> l.wf() && l.secs + SECS_PER_DAY <= MAX_SECS
}

/// While less than a day passed since the previous attempt, the time left
/// in whole hours and the whole minutes beyond them; otherwise nothing.
pub open spec fn cooldown_left(last_steal_at: Option<Moment>, now: Moment) -> Option<(i64, i64)> {
    match last_steal_at {
        Some(l) => if l.total() + NANOS_PER_DAY > now.total() {
            let span = l.total() + NANOS_PER_DAY - now.total();
            Some(
                (
                    (span / 3_600_000_000_000int) as i64,
                    ((span % 3_600_000_000_000int) / 60_000_000_000int) as i64,
                ),
            )
        } else {
            None
        },
        None => None,
    }
}

/// The time left before the next attempt, if the previous one was less
/// than a day ago.
pub fn steal_cooldown(last_steal_at: Option<Moment>, now: Moment) -> (r: Option<(i64, i64)>)
    requires
        cooldown_inputs_ok(last_steal_at),
        now.wf(),
    ensures
        r == cooldown_left(last_steal_at, now),
{
    match last_steal_at {
        Some(l) => {
            let next = l.plus_days(1);
            if next.is_after(&now) {
                let span = now.span_to(&next);
                Some(hours_and_minutes(span))
            } else {
                None
            }
        },
        None => None,
    }
}

/// The time left before the next attempt, read against the clock; returns
/// the instant it used.
pub fn steal_cooldown_now(last_steal_at: Option<Moment>) -> (r: (Moment, Option<(i64, i64)>))
    requires
        cooldown_inputs_ok(last_steal_at),
    ensures
        r.0.wf(),
        r.0.secs >= 0,
        r.1 == cooldown_left(last_steal_at, r.0),
{
    let now = now();
    (now, steal_cooldown(last_steal_at, now))
}

/// One attempt a day: after an attempt at `at`, every later attempt
/// before one day has passed is refused, and from then on it is allowed.
pub proof fn one_attempt_a_day(at: Moment, later: Moment)
    requires
        cooldown_inputs_ok(Some(at)),
        later.wf(),
        at.total() <= later.total(),
    ensures
        later.total() < at.total() + NANOS_PER_DAY ==> cooldown_left(Some(at), later) is Some,
        later.total() >= at.total() + NANOS_PER_DAY ==> cooldown_left(Some(at), later) is None,
{
}

/// Only another player who is not a bot can be robbed.
pub proof fn only_other_players(author_id: u64, target_id: u64, bot_id: u64, target_is_bot: bool)
    ensures
        target_kind(author_id, target_id, bot_id, target_is_bot) == StealTarget::Player <==> (
        target_id != bot_id && !target_is_bot && author_id != target_id),
{
}

/// The stored time of the last attempt after an attempt at `now`: every
/// outcome stamps it, except a successful draw against a victim who cannot
/// pay the amount, which ends the attempt without a change.
pub fn steal_stamp(choice: StealChoice, victim_can_pay: bool, last: Option<Moment>, now: Moment) -> (r:
    Option<Moment>)
    ensures
        r == (if choice == StealChoice::Steal && !victim_can_pay {
            last
        } else {
            Some(now)
        }),
{
    match choice {
        StealChoice::Steal => if victim_can_pay {
            Some(now)
        } else {
            last
        },
        _ => Some(now),
    }
}

/// A stamped attempt blocks the next one for a day.
pub proof fn stamped_attempt_blocks_a_day(
    choice: StealChoice,
    victim_can_pay: bool,
    last: Option<Moment>,
    now: Moment,
    later: Moment,
)
    requires
        !(choice == StealChoice::Steal && !victim_can_pay),
        cooldown_inputs_ok(Some(now)),
        later.wf(),
        now.total() <= later.total() < now.total() + NANOS_PER_DAY,
    ensures
        cooldown_left(
            if choice == StealChoice::Steal && !victim_can_pay {
                last
            } else {
                Some(now)
            },
            later,
        ) is Some,
{
}

} // verus!
