//! The weighted wheel: one of six outcomes is drawn by weight; the
//! balance loses the stake, keeps it, or gains a multiple of it.
use vstd::prelude::*;

verus! {

/// Outcomes of the wheel, named by the multiple of the stake they pay.
#[derive(Debug, Clone, Copy, PartialEq, Eq)]
pub enum PossibleRewards {
    /// The stake is lost.
    Zero,
    Back,
    Two,
    Four,
    Six,
    Ten,
}

impl PossibleRewards {
    /// The multiple of the stake in the outcome's name.
    pub open spec fn times(self) -> int {
        match self {
            PossibleRewards::Zero => 0,
            PossibleRewards::Back => 1,
            PossibleRewards::Two => 2,
            PossibleRewards::Four => 4,
            PossibleRewards::Six => 6,
            PossibleRewards::Ten => 10,
        }
    }

    /// The multiple of the stake in the outcome's name.
    pub fn value(&self) -> (v: u8)
        ensures
            v == self.times(),
    {
        match self {
            PossibleRewards::Zero => 0,
            PossibleRewards::Back => 1,
            PossibleRewards::Two => 2,
            PossibleRewards::Four => 4,
            PossibleRewards::Six => 6,
            PossibleRewards::Ten => 10,
        }
    }
}

/// Number of outcomes on the wheel.
pub const WHEEL_SIZE: usize = 6;

/// The outcomes in the order of the wheel's weights.
pub open spec fn wheel(index: int) -> PossibleRewards {
    if index == 0 {
        PossibleRewards::Zero
    } else if index == 1 {
        PossibleRewards::Back
    } else if index == 2 {
        PossibleRewards::Two
    } else if index == 3 {
        PossibleRewards::Four
    } else if index == 4 {
        PossibleRewards::Six
    } else {
        PossibleRewards::Ten
    }
}

/// By how many stakes the balance changes.
pub open spec fn stake_change(reward: PossibleRewards) -> int {
    match reward {
        PossibleRewards::Zero => -1,
        PossibleRewards::Back => 0,
        PossibleRewards::Two => 2,
        PossibleRewards::Four => 4,
        PossibleRewards::Six => 6,
        PossibleRewards::Ten => 10,
    }
}

/// The outcome at a position of the wheel.
pub fn reward_at(index: usize) -> (r: PossibleRewards)
    requires
        index < WHEEL_SIZE,
    ensures
        r == wheel(index as int),
{
    if index == 0 {
        PossibleRewards::Zero
    } else if index == 1 {
        PossibleRewards::Back
    } else if index == 2 {
        PossibleRewards::Two
    } else if index == 3 {
        PossibleRewards::Four
    } else if index == 4 {
        PossibleRewards::Six
    } else {
        PossibleRewards::Ten
    }
}

/// By how many stakes the balance changes for an outcome.
pub fn balance_factor(reward: PossibleRewards) -> (f: i8)
    ensures
        f == stake_change(reward),
{
    match reward {
        PossibleRewards::Zero => -1,
        PossibleRewards::Back => 0,
        PossibleRewards::Two => 2,
        PossibleRewards::Four => 4,
        PossibleRewards::Six => 6,
        PossibleRewards::Ten => 10,
    }
}

/// A winning outcome adds the multiple of the stake in its name, the
/// losing outcome takes the stake, and `Back` leaves the balance alone.
pub proof fn wheel_payouts(reward: PossibleRewards)
    ensures
        reward.times() >= 2 ==> stake_change(reward) == reward.times(),
        reward == PossibleRewards::Zero ==> stake_change(reward) == -1,
        reward == PossibleRewards::Back ==> stake_change(reward) == 0,
{
}

} // verus!
