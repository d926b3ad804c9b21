//! The dice game: a roll from 0 to 101 decides whether the stake is lost,
//! returned, or multiplied.
use crate::random::uniform_inclusive;
use vstd::prelude::*;

verus! {

/// Highest roll of the dice.
pub const MAX_ROLL: i64 = 101;

/// Outcomes of a roll, named by how many times the stake comes back.
#[derive(Debug, Clone, Copy, PartialEq, Eq)]
pub enum PossibleRewards {
    /// The stake is lost.
    Zero,
    Back,
    Two,
    Four,
    Six,
    Ten,
}

impl PossibleRewards {
    /// How many times the stake comes back.
    pub open spec fn times(self) -> int {
        match self {
            PossibleRewards::Zero => 0,
            PossibleRewards::Back => 1,
            PossibleRewards::Two => 2,
            PossibleRewards::Four => 4,
            PossibleRewards::Six => 6,
            PossibleRewards::Ten => 10,
        }
    }

    /// How many times the stake comes back.
    pub fn value(&self) -> (v: u8)
        ensures
            v == self.times(),
    {
        match self {
            PossibleRewards::Zero => 0,
            PossibleRewards::Back => 1,
            PossibleRewards::Two => 2,
            PossibleRewards::Four => 4,
            PossibleRewards::Six => 6,
            PossibleRewards::Ten => 10,
        }
    }
}

/// The outcome of a roll.
pub open spec fn reward_for(roll: int) -> PossibleRewards {
    if roll == 0 {
        PossibleRewards::Back
    } else if 66 <= roll <= 89 {
        PossibleRewards::Two
    } else if 90 <= roll <= 92 {
        PossibleRewards::Four
    } else if 93 <= roll <= 98 {
        PossibleRewards::Six
    } else if roll >= 99 {
        PossibleRewards::Ten
    } else {
        PossibleRewards::Zero
    }
}

/// By how many stakes the balance changes.
pub open spec fn stake_multiplier(reward: PossibleRewards) -> int {
    match reward {
        PossibleRewards::Zero => -1,
        PossibleRewards::Back => 0,
        PossibleRewards::Two => 1,
        PossibleRewards::Four => 3,
        PossibleRewards::Six => 5,
        PossibleRewards::Ten => 9,
    }
}

/// The outcome of a roll.
pub fn reward_for_roll(roll: i64) -> (r: PossibleRewards)
    ensures
        r == reward_for(roll as int),
{
    if roll == 0 {
        PossibleRewards::Back
    } else if 66 <= roll && roll <= 89 {
        PossibleRewards::Two
    } else if 90 <= roll && roll <= 92 {
        PossibleRewards::Four
    } else if 93 <= roll && roll <= 98 {
        PossibleRewards::Six
    } else if roll >= 99 {
        PossibleRewards::Ten
    } else {
        PossibleRewards::Zero
    }
}

/// By how many stakes the balance changes for an outcome.
pub fn balance_multiplier(reward: PossibleRewards) -> (m: i8)
    ensures
        m == stake_multiplier(reward),
{
    match reward {
        PossibleRewards::Zero => -1,
        PossibleRewards::Back => 0,
        PossibleRewards::Two => 1,
        PossibleRewards::Four => 3,
        PossibleRewards::Six => 5,
        PossibleRewards::Ten => 9,
    }
}

/// Rolls the dice and returns the roll with its outcome.
pub fn roll_betroll() -> (r: (i64, PossibleRewards))
    ensures
        0 <= r.0 <= MAX_ROLL,
        r.1 == reward_for(r.0 as int),
{
    let roll = uniform_inclusive(0, MAX_ROLL);
    (roll, reward_for_roll(roll))
}

/// An outcome of n times the stake changes the balance by n - 1 stakes:
/// the stake is paid and n stakes come back.
pub proof fn multiplier_pays_stake_back(reward: PossibleRewards)
    ensures
        stake_multiplier(reward) == reward.times() - 1,
{
}

/// The outcomes by roll: 0 returns the stake, 1 to 65 lose it, 66 to 89
/// double it, 90 to 92 give four times, 93 to 98 six times, 99 and up ten
/// times.
pub proof fn outcome_table(roll: int)
    requires
        0 <= roll <= MAX_ROLL,
    ensures
        (reward_for(roll) == PossibleRewards::Back) <==> roll == 0,
        (reward_for(roll) == PossibleRewards::Zero) <==> 1 <= roll <= 65,
        (reward_for(roll) == PossibleRewards::Two) <==> 66 <= roll <= 89,
        (reward_for(roll) == PossibleRewards::Four) <==> 90 <= roll <= 92,
        (reward_for(roll) == PossibleRewards::Six) <==> 93 <= roll <= 98,
        (reward_for(roll) == PossibleRewards::Ten) <==> 99 <= roll <= MAX_ROLL,
{
}

/// Sum of the balance changes, in stakes, over the rolls from `lo` up to
/// but not including `hi`.
pub open spec fn total_change(lo: int, hi: int) -> int
    decreases hi - lo,
{
    if hi <= lo {
        0
    } else {
        total_change(lo, hi - 1) + stake_multiplier(reward_for(hi - 1))
    }
}

/// The rolls split at any point in between.
proof fn total_change_split(lo: int, mid: int, hi: int)
    requires
        lo <= mid <= hi,
    ensures
        total_change(lo, hi) == total_change(lo, mid) + total_change(mid, hi),
    decreases hi - mid,
{
    if hi > mid {
        total_change_split(lo, mid, hi - 1);
    }
}

/// Over rolls that all give the same change `c`, the total is `c` per roll.
proof fn total_change_constant(lo: int, hi: int, c: int)
    requires
        lo <= hi,
        forall|r: int| lo <= r < hi ==> stake_multiplier(#[trigger] reward_for(r)) == c,
    ensures
        total_change(lo, hi) == c * (hi - lo),
    decreases hi - lo,
{
    if hi > lo {
        total_change_constant(lo, hi - 1, c);
        assert(stake_multiplier(reward_for(hi - 1)) == c);
        assert(c * (hi - 1 - lo) + c == c * (hi - lo)) by (nonlinear_arith);
    } else {
        assert(c * (hi - lo) == 0) by (nonlinear_arith)
            requires
                hi == lo,
        ;
    }
}

/// Summed over all 102 equally likely rolls, a player gains 25 stakes: on
/// average each bet returns 25/102 of the stake on top of it.
pub proof fn expected_gain()
    ensures
        total_change(0, 102) == 25,
{
    total_change_split(0, 1, 102);
    total_change_split(1, 66, 102);
    total_change_split(66, 90, 102);
    total_change_split(90, 93, 102);
    total_change_split(93, 99, 102);
    total_change_constant(0, 1, 0);
    total_change_constant(1, 66, -1);
    total_change_constant(66, 90, 1);
    total_change_constant(90, 93, 3);
    total_change_constant(93, 99, 5);
    total_change_constant(99, 102, 9);
}

} // verus!
