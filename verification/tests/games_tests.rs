use casino_bot::commands::steal::steal_stamp;
use casino_bot::commands::balance::balance_refused;
use casino_bot::commands::bankroll::{self, balance_factor, reward_at};
use casino_bot::commands::betroll::{
    balance_multiplier, reward_for_roll, roll_betroll, PossibleRewards, MAX_ROLL,
};
use casino_bot::commands::give::{give_precheck, GiveRefusal};
use casino_bot::commands::steal::{
    check_steal_target, choice_at, steal_cooldown, steal_cooldown_now, StealChoice, StealTarget,
};
use casino_bot::time::{Moment, SECS_PER_DAY};

#[test]
fn betroll_outcome_table() {
    assert_eq!(reward_for_roll(0), PossibleRewards::Back);
    for r in 1..=65 {
        assert_eq!(reward_for_roll(r), PossibleRewards::Zero);
    }
    for r in 66..=89 {
        assert_eq!(reward_for_roll(r), PossibleRewards::Two);
    }
    for r in 90..=92 {
        assert_eq!(reward_for_roll(r), PossibleRewards::Four);
    }
    for r in 93..=98 {
        assert_eq!(reward_for_roll(r), PossibleRewards::Six);
    }
    for r in 99..=101 {
        assert_eq!(reward_for_roll(r), PossibleRewards::Ten);
    }
}

#[test]
fn betroll_multiplier_is_value_minus_one() {
    for r in [
        PossibleRewards::Zero,
        PossibleRewards::Back,
        PossibleRewards::Two,
        PossibleRewards::Four,
        PossibleRewards::Six,
        PossibleRewards::Ten,
    ] {
        assert_eq!(balance_multiplier(r) as i16, r.value() as i16 - 1);
    }
    assert_eq!(balance_multiplier(PossibleRewards::Four), 3);
}

#[test]
fn betroll_rolls_in_range_and_vary() {
    let mut seen = std::collections::HashSet::new();
    for _ in 0..1000 {
        let (roll, reward) = roll_betroll();
        assert!((0..=MAX_ROLL).contains(&roll));
        assert_eq!(reward, reward_for_roll(roll));
        seen.insert(roll);
    }
    assert!(seen.len() > 20);
}

#[test]
fn bankroll_wheel_and_payouts() {
    let order = [
        bankroll::PossibleRewards::Zero,
        bankroll::PossibleRewards::Back,
        bankroll::PossibleRewards::Two,
        bankroll::PossibleRewards::Four,
        bankroll::PossibleRewards::Six,
        bankroll::PossibleRewards::Ten,
    ];
    for (i, r) in order.iter().enumerate() {
        assert_eq!(reward_at(i), *r);
    }
    let factors: Vec<i8> = order.iter().map(|r| balance_factor(*r)).collect();
    assert_eq!(factors, vec![-1, 0, 2, 4, 6, 10]);
    assert_eq!(bankroll::PossibleRewards::Ten.value(), 10);
}

#[test]
fn steal_choices() {
    assert_eq!(choice_at(0), StealChoice::Steal);
    assert_eq!(choice_at(1), StealChoice::Fail);
    assert_eq!(choice_at(2), StealChoice::StealAll);
}

#[test]
fn steal_targets() {
    assert_eq!(check_steal_target(1, 9, 9, true), StealTarget::TheBot);
    assert_eq!(check_steal_target(1, 5, 9, true), StealTarget::OtherBot);
    assert_eq!(check_steal_target(5, 5, 9, false), StealTarget::Themselves);
    assert_eq!(check_steal_target(1, 5, 9, false), StealTarget::Player);
}

#[test]
fn steal_once_a_day() {
    let t = Moment { secs: 1_700_000_000, nanos: 0 };
    assert_eq!(steal_cooldown(None, t), None);
    let later = Moment { secs: t.secs + 2 * 3600 + 30 * 60, nanos: 0 };
    assert_eq!(steal_cooldown(Some(t), later), Some((21, 30)));
    let next_day = Moment { secs: t.secs + SECS_PER_DAY, nanos: 0 };
    assert_eq!(steal_cooldown(Some(t), next_day), None);
    let just_before = Moment { secs: t.secs + SECS_PER_DAY - 1, nanos: 999_999_999 };
    assert_eq!(steal_cooldown(Some(t), just_before), Some((0, 0)));
}

#[test]
fn steal_cooldown_against_clock() {
    let (now, left) = steal_cooldown_now(None);
    assert_eq!(left, None);
    assert!(now.secs > 1_600_000_000);
    let recent = Moment { secs: now.secs - 60, nanos: 0 };
    let (_, left) = steal_cooldown_now(Some(recent));
    let (h, m) = left.unwrap();
    assert!(h == 23 && m >= 58);
}

#[test]
fn balance_of_bots_refused() {
    assert!(balance_refused(3, 9, true));
    assert!(!balance_refused(9, 9, true));
    assert!(!balance_refused(3, 9, false));
}

#[test]
fn give_checks() {
    assert_eq!(give_precheck(true, 1, 1), Some(GiveRefusal::TooSmall));
    assert_eq!(give_precheck(false, 1, 1), Some(GiveRefusal::ToSelf));
    assert_eq!(give_precheck(false, 1, 2), None);
}

#[test]
fn betroll_gain_over_all_rolls() {
    let total: i32 = (0..=MAX_ROLL).map(|r| balance_multiplier(reward_for_roll(r)) as i32).sum();
    assert_eq!(total, 25);
}

#[test]
fn steal_stamps() {
    let last = Some(Moment { secs: 5, nanos: 0 });
    let now = Moment { secs: 99, nanos: 1 };
    assert_eq!(steal_stamp(StealChoice::Steal, false, last, now), last);
    assert_eq!(steal_stamp(StealChoice::Steal, true, last, now), Some(now));
    assert_eq!(steal_stamp(StealChoice::Fail, false, None, now), Some(now));
    assert_eq!(steal_stamp(StealChoice::StealAll, true, last, now), Some(now));
}
