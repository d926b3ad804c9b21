//! Giving money to another player.
use vstd::prelude::*;

verus! {

/// Why a gift is refused before any balance is looked up.
#[derive(Debug, Clone, Copy, PartialEq, Eq)]
pub enum GiveRefusal {
    /// The amount is below the smallest amount that can be given.
    TooSmall,
    /// The giver names themselves.
    ToSelf,
}

/// Checks a gift before the balances are read: the amount first, then the
/// receiver.
pub fn give_precheck(amount_too_small: bool, giver_id: u64, receiver_id: u64) -> (r: Option<
    GiveRefusal,
>)
    ensures
        r == (if amount_too_small {
            Some(GiveRefusal::TooSmall)
        } else if giver_id == receiver_id {
            Some(GiveRefusal::ToSelf)
        } else {
            None
        }),
{
    if amount_too_small {
        Some(GiveRefusal::TooSmall)
    } else if giver_id == receiver_id {
        Some(GiveRefusal::ToSelf)
    } else {
        None
    }
}

} // verus!
