use vstd::prelude::*;

verus! {

/// A voice channel that the bot created for a player.
#[derive(Debug, Clone, Copy, PartialEq, Eq)]
pub struct ActiveCustomVoice {
    pub id: i64,
    pub owner_id: i64,
}

/// A message that was forwarded to the starboard.
#[derive(Debug, Clone, Copy, PartialEq, Eq)]
pub struct StarboardMessage {
    pub message_id: i64,
    pub server_id: i64,
    pub forwarded_message_id: i64,
    pub last_reaction_count: i16,
}

} // verus!
