use casino_bot::starboard::{decide_forward_step, forward_text, ForwardStep};
use casino_bot::embed::{embed_plan, EmbedParts, MessageParts};
use casino_bot::models::config::Starboard;
use casino_bot::starboard::{
    below_threshold, check_forward_channel, counter_changed, embed_author,
    forward_channel_setting, is_file_link, is_image, reaction_channel_check, reaction_label,
    starboard_record, updated_counter_text, with_whitelist, ForwardChannelError, SkipReason,
    StarboardEmbedType,
};

fn config() -> Starboard {
    Starboard { forward_channel_id: 100, channels_whitelist: vec![7, 8], reaction_threshold: 3 }
}

#[test]
fn skipped_channels() {
    let c = config();
    assert_eq!(reaction_channel_check(&c, 8), Some(SkipReason::Whitelisted));
    assert_eq!(reaction_channel_check(&c, 100), Some(SkipReason::ForwardChannel));
    assert_eq!(reaction_channel_check(&c, 9), None);
}

#[test]
fn thresholds() {
    assert!(below_threshold(2, 3));
    assert!(!below_threshold(3, 3));
}

#[test]
fn counters() {
    assert!(!counter_changed(5, 5));
    assert!(counter_changed(6, 5));
    assert!(counter_changed(0, -1));
    assert!(!counter_changed(usize::MAX, -1));
}

#[test]
fn counter_text() {
    assert_eq!(updated_counter_text("5 в #general, 5!", 5, 12), "12 в #general, 12!");
    assert_eq!(updated_counter_text("no digits", 5, 12), "no digits");
    assert_eq!(updated_counter_text("555", 55, 1), "15");
    assert_eq!(updated_counter_text("x-3y", -3, 4), "x4y");
}

#[test]
fn records() {
    let r = starboard_record(11, 22, 33, 4);
    assert_eq!((r.message_id, r.server_id, r.forwarded_message_id, r.last_reaction_count), (11, 22, 33, 4));
    let w = starboard_record(u64::MAX, 1, 1, 70000);
    assert_eq!(w.message_id, -1);
    assert_eq!(w.last_reaction_count, 70000usize as i16);
}

#[test]
fn attachments() {
    assert!(is_image(Some("image/png")));
    assert!(!is_image(Some("video/mp4")));
    assert!(!is_image(None));
    assert!(is_file_link(Some("video/mp4")));
    assert!(!is_file_link(Some("image/jpeg")));
    assert!(!is_file_link(None));
}

#[test]
fn labels_and_authors() {
    assert_eq!(reaction_label(Some("kek")), ":kek:");
    assert_eq!(reaction_label(None), ":хз чо за реакция:");
    assert_eq!(embed_author(StarboardEmbedType::Reply, "vasya"), "Пиздит на vasya");
    assert_eq!(embed_author(StarboardEmbedType::Original, "vasya"), "vasya");
}

#[test]
fn forward_channel_settings() {
    assert_eq!(check_forward_channel(false, Some(5)), Err(ForwardChannelError::NotText));
    assert_eq!(check_forward_channel(true, None), Ok(true));
    assert_eq!(check_forward_channel(true, Some(1)), Ok(true));
    assert_eq!(check_forward_channel(true, Some(2)), Ok(false));
    let s = forward_channel_setting(55, None, Some(config()));
    assert_eq!((s.forward_channel_id, s.reaction_threshold), (55, 3));
    assert_eq!(s.channels_whitelist, vec![7, 8]);
    let s = forward_channel_setting(56, Some(9), None);
    assert_eq!((s.forward_channel_id, s.reaction_threshold), (56, 9));
    assert!(s.channels_whitelist.is_empty());
}

#[test]
fn whitelist_survives_new_forward_channel() {
    let listed = with_whitelist(config(), vec![1, 2, 3]);
    assert_eq!((listed.forward_channel_id, listed.reaction_threshold), (100, 3));
    let moved = forward_channel_setting(200, Some(4), Some(listed));
    assert_eq!(reaction_channel_check(&moved, 2), Some(SkipReason::Whitelisted));
    assert_eq!(reaction_channel_check(&moved, 200), Some(SkipReason::ForwardChannel));
}

#[test]
fn forwarded_text() {
    assert_eq!(forward_text("⭐", 3, 200), "⭐3 в <#200>");
    assert_eq!(forward_text("<:kek:55>", 12, 7), "<:kek:55>12 в <#7>");
}

#[test]
fn forward_steps() {
    assert_eq!(decide_forward_step(None, 3), ForwardStep::Forward);
    assert_eq!(decide_forward_step(Some(3), 4), ForwardStep::UpdateCounter);
    assert_eq!(decide_forward_step(Some(3), 3), ForwardStep::KeepExisting);
}

#[test]
fn embed_plans() {
    let m = MessageParts {
        author_name: "vasya".into(),
        content: "hello".into(),
        attachments: vec![
            (Some("image/png".into()), "a.png".into()),
            (Some("video/mp4".into()), "b.mp4".into()),
            (Some("image/jpeg".into()), "c.jpg".into()),
            (None, "d".into()),
        ],
        embeds: vec![
            EmbedParts {
                title: Some("T1".into()),
                description: None,
                image: None,
                thumbnail: Some("th1".into()),
                fields: vec![("n".into(), "v".into(), true)],
            },
            EmbedParts {
                title: None,
                description: Some("D2".into()),
                image: None,
                thumbnail: None,
                fields: vec![],
            },
        ],
    };
    let p = embed_plan(StarboardEmbedType::Reply, &m);
    assert_eq!(p.author, "Пиздит на vasya");
    assert_eq!(p.description, "hello");
    assert!(!p.original);
    assert_eq!(p.image.as_deref(), Some("c.jpg"));
    assert_eq!(p.thumbnail.as_deref(), Some("th1"));
    let fields: Vec<(&str, &str, bool)> =
        p.fields.iter().map(|(a, b, c)| (a.as_str(), b.as_str(), *c)).collect();
    assert_eq!(fields, vec![("T1", "", false), ("n", "v", true), ("", "D2", false)]);

    let mut m2 = m;
    m2.embeds[1].image = Some("e.gif".into());
    let p2 = embed_plan(StarboardEmbedType::Original, &m2);
    assert!(p2.original);
    assert_eq!(p2.author, "vasya");
    assert_eq!(p2.image.as_deref(), Some("e.gif"));
}
