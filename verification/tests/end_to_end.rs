use wetterbot::config::create_config_handler;
use wetterbot::dispatch::{dispatch, render_reply, ChatEvent, DispatchAction};
use wetterbot::weather::weather_forecasts;

#[test]
fn trigger_to_reply_scenario() {
    // Configuration resolves from the environment: token "T", no channel
    // scope, the default trigger phrase.
    let args: Vec<String> = Vec::new();
    let cfg = create_config_handler(None, &args, Some("T".to_string()), None, None).unwrap();
    assert_eq!(cfg.get_token(), "T");
    assert_eq!(cfg.get_channel(), None);
    assert_eq!(cfg.get_command(), "wetter");

    // The inbound event asks for Paris; dispatch routes it to a fetch for
    // exactly that location.
    let ev = ChatEvent {
        author_is_bot: false,
        content: "wetter Paris".to_string(),
        channel_name: "any".to_string(),
    };
    let location = match dispatch(&cfg, &ev) {
        DispatchAction::Fetch(loc) => loc,
        other => panic!("expected a fetch, got {:?}", other),
    };
    assert_eq!(location, "Paris");

    // The fetched body becomes a reply of exactly three fields, titled by
    // the date with its quote characters stripped.
    let body = "{\"weather\": [{\"date\": \"2024-05-01\", \"hourly\": [\
        {\"time\": \"0\"}, {\"time\": \"300\"}, {\"time\": \"600\"}, {\"time\": \"900\"}, \
        {\"time\": \"1200\"}, {\"time\": \"1500\"}, {\"time\": \"1800\"}, {\"time\": \"2100\"}]}]}";
    let forecast = weather_forecasts(body).unwrap();
    let reply = render_reply(&forecast);
    assert_eq!(reply.title, "2024-05-01");
    assert_eq!(reply.fields.len(), 3);
}
