use casino_bot::errors::{argument_error_message, usage_text};
use casino_bot::events::{
    custom_voice_setting, deletes_custom_voice, is_insult, spawn_outcome, strips_roles,
    topic_is_insult, voice_channel_name, voice_update, SpawnOutcome, SpawnSettingError,
    VoiceAction, WATCHED_GUILD_ID, WATCHED_USER_ID,
};
use casino_bot::models::config::CustomVoice;
use casino_bot::text::{
    chars_of, contains_text, decimal_text, replace_text, same_text, signed_decimal_text,
    starts_with_text,
};

#[test]
fn decimals() {
    assert_eq!(decimal_text(0), "0");
    assert_eq!(decimal_text(1234567890), "1234567890");
    assert_eq!(decimal_text(u64::MAX), u64::MAX.to_string());
    assert_eq!(signed_decimal_text(-42), "-42");
    assert_eq!(signed_decimal_text(i64::MIN), i64::MIN.to_string());
}

#[test]
fn searching_and_replacing() {
    assert!(contains_text("алиже пидор", "пидор"));
    assert!(!contains_text("abc", "abd"));
    assert!(contains_text("abc", ""));
    assert_eq!(replace_text("aaaa", "aa", "b"), "bb");
    assert_eq!(replace_text("abcabc", "bc", ""), "aa");
    assert_eq!(replace_text("xyz", "q", "r"), "xyz");
    assert!(same_text("ёж", "ёж"));
    assert!(!same_text("ёж", "еж"));
    assert!(starts_with_text("prefix-rest", "prefix"));
    assert_eq!(chars_of("ёж"), vec!['ё', 'ж']);
}

#[test]
fn voice_updates() {
    assert_eq!(voice_update(None, 5), VoiceAction::Cleanup);
    assert_eq!(voice_update(Some(4), 5), VoiceAction::Cleanup);
    assert_eq!(voice_update(Some(5), 5), VoiceAction::Spawn);
}

#[test]
fn spawn_outcomes() {
    assert_eq!(spawn_outcome(false, false, false), SpawnOutcome::KickNotPlayer);
    assert_eq!(spawn_outcome(true, false, true), SpawnOutcome::KickNoCategory);
    assert_eq!(spawn_outcome(true, true, false), SpawnOutcome::KickLowBalance);
    assert_eq!(spawn_outcome(true, true, true), SpawnOutcome::Create);
}

#[test]
fn voice_names_and_cleanup() {
    assert_eq!(voice_channel_name("acc", Some("Вася")), "Войс имени Вася");
    assert_eq!(voice_channel_name("acc", None), "Войс имени acc");
    assert!(deletes_custom_voice(true, true));
    assert!(!deletes_custom_voice(true, false));
    assert!(!deletes_custom_voice(false, true));
}

#[test]
fn spawn_settings() {
    assert_eq!(custom_voice_setting(false, Some(1), 2), Err(SpawnSettingError::NotVoice));
    assert_eq!(custom_voice_setting(true, None, 2), Err(SpawnSettingError::NoCategory));
    assert_eq!(
        custom_voice_setting(true, Some(1), 2),
        Ok(CustomVoice { category_id: 1, voice_channel_id: 2 })
    );
}

#[test]
fn role_watch() {
    assert!(strips_roles(WATCHED_GUILD_ID, Some(WATCHED_USER_ID), true));
    assert!(!strips_roles(WATCHED_GUILD_ID, Some(WATCHED_USER_ID), false));
    assert!(!strips_roles(WATCHED_GUILD_ID, None, true));
    assert!(!strips_roles(1, Some(WATCHED_USER_ID), true));
    assert!(!strips_roles(WATCHED_GUILD_ID, Some(2), true));
}

#[test]
fn insults() {
    assert!(is_insult("алиже пидор"));
    assert!(is_insult("пидор alije"));
    assert!(!is_insult("алиже молодец"));
    assert!(!is_insult("пидор"));
    assert!(topic_is_insult(Some("channel of alije the пидор")));
    assert!(!topic_is_insult(None));
}

#[test]
fn error_messages() {
    assert_eq!(usage_text(None), "Губы губа губами");
    assert_eq!(usage_text(Some("use it so")), "use it so");
    assert_eq!(
        argument_error_message(Some("abc"), "bad number", "usage"),
        "**Что это за хуйня: `abc`, bad number**\nusage"
    );
    assert_eq!(argument_error_message(None, "missing", "usage"), "**missing**\nusage");
}
