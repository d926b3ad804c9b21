//! Reactions to server events: custom voice channels spawned from a
//! dedicated voice channel, a role watch on one member, and the renaming of
//! channels whose name or topic insults a certain person.
use crate::text::{chars_of, contains, contains_text, string_from_chars};
use vstd::prelude::*;

verus! {

/// The server whose member is watched.
pub const WATCHED_GUILD_ID: u64 = 1184271056148631574;

/// The member who is kept without roles.
pub const WATCHED_USER_ID: u64 = 464355896592695296;

/// What a voice state change leads to.
#[derive(Debug, Clone, Copy, PartialEq, Eq)]
pub enum VoiceAction {
    /// The user left voice or joined another channel: empty custom
    /// channels are cleaned up.
    Cleanup,
    /// The user joined the spawn channel.
    Spawn,
}

/// What joining the spawn channel leads to.
#[derive(Debug, Clone, Copy, PartialEq, Eq)]
pub enum SpawnOutcome {
    /// The user is not a player: disconnected.
    KickNotPlayer,
    /// The spawn channel's category cannot be read: disconnected.
    KickNoCategory,
    /// The player cannot pay for a channel: disconnected.
    KickLowBalance,
    /// A channel is created, paid for, and the player moved into it.
    Create,
}

/// Why a channel cannot become the spawn channel.
#[derive(Debug, Clone, Copy, PartialEq, Eq)]
pub enum SpawnSettingError {
    /// It is not a voice channel.
    NotVoice,
    /// Its category cannot be seen.
    NoCategory,
}

/// What a voice state change leads to.
pub fn voice_update(joined_channel: Option<u64>, spawn_channel_id: u64) -> (a: VoiceAction)
    ensures
        a == (match joined_channel {
            Some(c) => if c == spawn_channel_id {
                VoiceAction::Spawn
            } else {
                VoiceAction::Cleanup
            },
            None => VoiceAction::Cleanup,
        }),
{
    match joined_channel {
        Some(c) => if c == spawn_channel_id {
            VoiceAction::Spawn
        } else {
            VoiceAction::Cleanup
        },
        None => VoiceAction::Cleanup,
    }
}

/// What joining the spawn channel leads to; the checks run in this order:
/// the user is a player, the category is readable, the balance covers one
/// coin.
pub fn spawn_outcome(is_player: bool, has_category: bool, can_pay: bool) -> (o: SpawnOutcome)
    ensures
        o == (if !is_player {
            SpawnOutcome::KickNotPlayer
        } else if !has_category {
            SpawnOutcome::KickNoCategory
        } else if !can_pay {
            SpawnOutcome::KickLowBalance
        } else {
            SpawnOutcome::Create
        }),
{
    if !is_player {
        SpawnOutcome::KickNotPlayer
    } else if !has_category {
        SpawnOutcome::KickNoCategory
    } else if !can_pay {
        SpawnOutcome::KickLowBalance
    } else {
        SpawnOutcome::Create
    }
}

/// The name of a spawned channel: "Войс имени " and the user's display
/// name, or the account name when there is none.
pub fn voice_channel_name(name: &str, global_name: Option<&str>) -> (r: String)
    ensures
        r@ == "Войс имени "@ + match global_name {
            Some(g) => g@,
            None => name@,
        },
{
    let mut v = chars_of("Войс имени ");
    let who = match global_name {
        Some(g) => chars_of(g),
        None => chars_of(name),
    };
    let ghost head = v@;
    let mut i: usize = 0;
    while i < who.len()
        invariant
            i <= who.len(),
            v@ == head + who@.subrange(0, i as int),
        decreases who.len() - i,
    {
        v.push(who[i]);
        i += 1;
        assert(v@ =~= head + who@.subrange(0, i as int));
    }
    assert(who@.subrange(0, who.len() as int) =~= who@);
    string_from_chars(&v)
}

/// Whether a custom channel is deleted during the clean-up: it is a
/// server channel and nobody is in it.
pub fn deletes_custom_voice(is_guild_channel: bool, members_empty: bool) -> (b: bool)
    ensures
        b == (is_guild_channel && members_empty),
{
    is_guild_channel && members_empty
}

/// The spawn settings for a channel: refused unless it is a voice channel
/// in a visible category.
pub fn custom_voice_setting(is_voice: bool, parent_id: Option<u64>, channel_id: u64) -> (r: Result<
    crate::models::config::CustomVoice,
    SpawnSettingError,
>)
    ensures
        !is_voice ==> r == Err::<crate::models::config::CustomVoice, SpawnSettingError>(
            SpawnSettingError::NotVoice,
        ),
        is_voice && parent_id is None ==> r == Err::<
            crate::models::config::CustomVoice,
            SpawnSettingError,
        >(SpawnSettingError::NoCategory),
        is_voice && parent_id is Some ==> r == Ok::<
            crate::models::config::CustomVoice,
            SpawnSettingError,
        >(
            crate::models::config::CustomVoice {
                category_id: parent_id->0,
                voice_channel_id: channel_id,
            },
        ),
{
    if !is_voice {
        return Err(SpawnSettingError::NotVoice);
    }
    match parent_id {
        Some(category_id) => Ok(
            crate::models::config::CustomVoice { category_id, voice_channel_id: channel_id },
        ),
        None => Err(SpawnSettingError::NoCategory),
    }
}

/// Whether the member update is answered by removing all roles: the
/// watched member of the watched server has some.
pub fn strips_roles(guild_id: u64, user_id: Option<u64>, has_roles: bool) -> (b: bool)
    ensures
        b == (guild_id == WATCHED_GUILD_ID && user_id == Some(WATCHED_USER_ID) && has_roles),
{
    if guild_id != WATCHED_GUILD_ID {
        return false;
    }
    match user_id {
        Some(u) => u == WATCHED_USER_ID && has_roles,
        None => false,
    }
}

/// Whether a channel name or topic is replaced: it names the person (in
/// Cyrillic or Latin letters) together with the insult.
pub open spec fn insults(text: Seq<char>) -> bool {
    (contains(text, "алиже"@) || contains(text, "alije"@)) && contains(text, "пидор"@)
}

/// Whether a channel name or topic is replaced.
pub fn is_insult(text: &str) -> (b: bool)
    ensures
        b == insults(text@),
{
    (contains_text(text, "алиже") || contains_text(text, "alije")) && contains_text(text, "пидор")
}

/// Whether a channel topic is replaced: there is one and it is an insult.
pub fn topic_is_insult(topic: Option<&str>) -> (b: bool)
    ensures
        b == (topic matches Some(t) && insults(t@)),
{
    match topic {
        Some(t) => is_insult(t),
        None => false,
    }
}

} // verus!
