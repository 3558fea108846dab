use wetterbot::config::{environment, ConfigHandler};
use wetterbot::dispatch::{dispatch, screen_event, ChatEvent, DispatchAction};

fn handler(channel: Option<&str>, command: Option<&str>) -> ConfigHandler {
    ConfigHandler::Environment(
        environment::Config::new(
            Some("T".to_string()),
            channel.map(|s| s.to_string()),
            command.map(|s| s.to_string()),
        )
        .unwrap(),
    )
}

fn event(content: &str, channel_name: &str) -> ChatEvent {
    ChatEvent {
        author_is_bot: false,
        content: content.to_string(),
        channel_name: channel_name.to_string(),
    }
}

#[test]
fn own_messages_are_ignored() {
    let cfg = handler(None, None);
    let ev = ChatEvent {
        author_is_bot: true,
        content: "wetter Berlin".to_string(),
        channel_name: "general".to_string(),
    };
    assert!(matches!(dispatch(&cfg, &ev), DispatchAction::Ignore));
}

#[test]
fn messages_without_trigger_are_ignored() {
    let cfg = handler(None, None);
    assert!(matches!(dispatch(&cfg, &event("guten morgen", "general")), DispatchAction::Ignore));
}

#[test]
fn trigger_match_is_case_insensitive_on_message() {
    let cfg = handler(None, None);
    match dispatch(&cfg, &event("WETTER Berlin", "general")) {
        DispatchAction::Fetch(loc) => assert_eq!(loc, "Berlin"),
        other => panic!("expected a fetch, got {:?}", other),
    }
}

#[test]
fn trigger_matches_anywhere_in_message() {
    let cfg = handler(None, None);
    match dispatch(&cfg, &event("xxwetterxx Berlin", "general")) {
        DispatchAction::Fetch(loc) => assert_eq!(loc, "Berlin"),
        other => panic!("expected a fetch, got {:?}", other),
    }
}

#[test]
fn scope_mismatch_is_discarded_without_reply_or_fetch() {
    let cfg = handler(Some("general"), None);
    assert!(matches!(dispatch(&cfg, &event("wetter Berlin", "random")), DispatchAction::Ignore));
}

#[test]
fn scope_match_proceeds() {
    let cfg = handler(Some("general"), None);
    match dispatch(&cfg, &event("wetter Berlin", "general")) {
        DispatchAction::Fetch(loc) => assert_eq!(loc, "Berlin"),
        other => panic!("expected a fetch, got {:?}", other),
    }
}

#[test]
fn one_token_draws_the_too_few_reply() {
    let cfg = handler(None, None);
    match dispatch(&cfg, &event("wetter", "general")) {
        DispatchAction::Reply(m) => assert_eq!(m, "Too few arguments: Location is missing."),
        other => panic!("expected a reply, got {:?}", other),
    }
}

#[test]
fn three_tokens_draw_the_too_many_reply() {
    let cfg = handler(None, None);
    match dispatch(&cfg, &event("wetter Berlin extra", "general")) {
        DispatchAction::Reply(m) => assert_eq!(m, "Too many arguments."),
        other => panic!("expected a reply, got {:?}", other),
    }
}

#[test]
fn two_tokens_fetch_the_second() {
    let cfg = handler(None, None);
    match dispatch(&cfg, &event("wetter Berlin", "general")) {
        DispatchAction::Fetch(loc) => assert_eq!(loc, "Berlin"),
        other => panic!("expected a fetch, got {:?}", other),
    }
}

#[test]
fn screening_passes_triggered_messages_only() {
    let cfg = handler(None, None);
    assert!(screen_event(&cfg, false, "WETTER Berlin"));
    assert!(!screen_event(&cfg, false, "guten morgen"));
    assert!(!screen_event(&cfg, true, "wetter Berlin"));
}

#[test]
fn configured_command_overrides_the_default() {
    let cfg = handler(None, Some("sonne"));
    match dispatch(&cfg, &event("sonne Paris", "general")) {
        DispatchAction::Fetch(loc) => assert_eq!(loc, "Paris"),
        other => panic!("expected a fetch, got {:?}", other),
    }
    assert!(matches!(dispatch(&cfg, &event("wetter Paris", "general")), DispatchAction::Ignore));
}
