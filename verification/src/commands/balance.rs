//! Showing a balance.
use vstd::prelude::*;

verus! {

/// Whether asking for the balance of a user is refused: bots other than
/// this bot have none.
pub fn balance_refused(user_id: u64, bot_id: u64, user_is_bot: bool) -> (b: bool)
    ensures
        b == (user_id != bot_id && user_is_bot),
{
    user_id != bot_id && user_is_bot
}

} // verus!
