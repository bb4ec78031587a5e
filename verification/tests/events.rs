use maxine::events::{
    guild_create, links_reply, message, reaction_add, ready,
    voice_state_update, Channel, Greeting, NewChannel, VoicePlan, Welcome,
};

fn channel(id: u64, name: &str, text_based: bool, parent: Option<u64>) -> Channel {
    Channel { id, name: name.to_string(), text_based, parent }
}

#[test]
fn the_status_shows_the_number_of_guilds() {
    assert_eq!(ready("in {guildsCount} guilds", 12), "in 12 guilds");
    assert_eq!(ready("{guildsCount}/{guildsCount}", 0), "0/0");
    assert_eq!(ready("no mark", 3), "no mark");
}

#[test]
fn a_known_guild_is_left_alone() {
    let channels = vec![channel(1, "general", true, None)];
    assert_eq!(guild_create(Some(false), &channels, "Maxine", "s", 1), None);
}

#[test]
fn a_new_guild_is_greeted_in_general() {
    let channels = vec![
        channel(1, "General", false, None),
        channel(2, "rules", true, None),
        channel(3, "GENERAL", true, Some(9)),
        channel(4, "general", true, None),
    ];
    let expected = Welcome {
        nickname: "Maxine".to_string(),
        greeting: Some(Greeting {
            channel: 3,
            message: "Hi, i'm Maxine, thanks for inviting me!".to_string(),
            activity: "Watching 4 guilds".to_string(),
        }),
    };
    assert_eq!(
        guild_create(Some(true), &channels, "Maxine", "Watching {guildsCount} guilds", 4),
        Some(expected)
    );
    let quiet = vec![channel(2, "rules", true, None)];
    assert_eq!(
        guild_create(None, &quiet, "Maxine", "s", 1),
        Some(Welcome { nickname: "Maxine".to_string(), greeting: None })
    );
}

#[test]
fn entering_the_maker_makes_a_channel() {
    let maker = channel(5, "Temp Channel Creator", false, Some(77));
    assert_eq!(
        voice_state_update(None, 0, Some(&maker), "Ann"),
        VoicePlan {
            create: Some(NewChannel { name: "Ann's Channel".to_string(), category: Some(77) }),
            delete: None,
        }
    );
    let other = channel(6, "Lounge", false, None);
    assert_eq!(
        voice_state_update(None, 0, Some(&other), "Ann"),
        VoicePlan { create: None, delete: None }
    );
}

#[test]
fn leaving_an_empty_made_channel_deletes_it() {
    let made = channel(8, "Ann's Channel", false, Some(77));
    assert_eq!(
        voice_state_update(Some(&made), 0, None, "Ann"),
        VoicePlan { create: None, delete: Some(8) }
    );
    assert_eq!(
        voice_state_update(Some(&made), 2, None, "Ann"),
        VoicePlan { create: None, delete: None }
    );
    let lounge = channel(6, "Lounge", false, None);
    assert_eq!(
        voice_state_update(Some(&lounge), 0, None, "Ann"),
        VoicePlan { create: None, delete: None }
    );
    let maker = channel(5, "temp channel creator", false, None);
    assert_eq!(
        voice_state_update(Some(&made), 0, Some(&maker), "Bob"),
        VoicePlan {
            create: Some(NewChannel { name: "Bob's Channel".to_string(), category: None }),
            delete: Some(8),
        }
    );
}

#[test]
fn links_are_answered_behind_the_base() {
    assert_eq!(
        message(
            false,
            "https://fxtwitter.com",
            "look https://x.com/user/status/1 and HTTP://Twitter.com/a?b=1 end"
        ),
        Some("https://fxtwitter.com/user/status/1; https://fxtwitter.com/a?b=1".to_string())
    );
    assert_eq!(
        message(false, "https://fxtwitter.com", "see https://x.com"),
        Some("https://fxtwitter.com".to_string())
    );
}

#[test]
fn messages_without_links_are_not_answered() {
    assert_eq!(message(false, "https://fxtwitter.com", "no links here"), None);
    assert_eq!(message(false, "https://fxtwitter.com", "https://example.com/x.com"), None);
    assert_eq!(message(true, "https://fxtwitter.com", "https://x.com/a"), None);
    assert_eq!(message(false, "", "https://x.com/a"), None);
}

#[test]
fn links_reply_handles_every_capture() {
    assert_eq!(
        links_reply(false, "base", Some(vec![Some("/a".to_string()), None])),
        Some("base/a; base".to_string())
    );
    assert_eq!(links_reply(false, "base", Some(vec![])), None);
    assert_eq!(links_reply(false, "base", None), None);
    assert_eq!(links_reply(true, "base", Some(vec![None])), None);
}

#[test]
fn only_the_bin_on_an_own_message_deletes() {
    assert!(reaction_add("\u{1F5D1}\u{FE0F}", 7, 7));
    assert!(!reaction_add("\u{1F5D1}\u{FE0F}", 8, 7));
    assert!(!reaction_add("\u{1F5D1}", 7, 7));
    assert!(!reaction_add("", 7, 7));
}
