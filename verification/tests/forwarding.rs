use chat_relay::event::{ChatEvent, PrivateMessage, RgbColor};
use chat_relay::forward::{handle_message, post_request, request_with_body, Forward};
use chat_relay::record::{channel_name, ChatMessage};
use chat_relay::startup::watched_users;
use chat_relay::watch::is_watched;

fn message(login: &str, text: &str) -> PrivateMessage {
    PrivateMessage {
        channel_login: "stegi".to_string(),
        sender_login: login.to_string(),
        sender_name: "Stegi".to_string(),
        message_text: text.to_string(),
        server_timestamp: 1_700_000_000,
        name_color: Some(RgbColor { r: 255, g: 0, b: 127 }),
    }
}

#[test]
fn watched_sender_is_forwarded_once_with_its_login() {
    let watch = watched_users();
    let action = handle_message(ChatEvent::Privmsg(message("stegi", "hello")), &watch);
    let expected = Forward {
        record: ChatMessage {
            timestamp: 1_700_000_000,
            channel: "#stegi".to_string(),
            user: "stegi".to_string(),
            content: "hello".to_string(),
            display_name: "Stegi".to_string(),
        },
        color: Some(RgbColor { r: 255, g: 0, b: 127 }),
    };
    assert_eq!(action, Some(expected));
}

#[test]
fn second_watched_sender_is_forwarded() {
    let watch = watched_users();
    let mut msg = message("di1araas", "gg");
    msg.channel_login = "di1araas".to_string();
    msg.sender_name = "Di1araas".to_string();
    let action = handle_message(ChatEvent::Privmsg(msg), &watch).unwrap();
    assert_eq!(action.record.user, "di1araas");
    assert_eq!(action.record.channel, "#di1araas");
    assert_eq!(action.record.display_name, "Di1araas");
    assert_eq!(action.record.content, "gg");
}

#[test]
fn unwatched_sender_is_dropped() {
    let watch = watched_users();
    let action = handle_message(ChatEvent::Privmsg(message("somebody", "hello")), &watch);
    assert_eq!(action, None);
}

#[test]
fn watch_list_match_is_case_sensitive() {
    let watch = watched_users();
    assert_eq!(handle_message(ChatEvent::Privmsg(message("Stegi", "x")), &watch), None);
    assert_eq!(handle_message(ChatEvent::Privmsg(message("STEGI", "x")), &watch), None);
}

#[test]
fn watch_list_match_does_not_normalize() {
    let watch = watched_users();
    assert_eq!(handle_message(ChatEvent::Privmsg(message(" stegi", "x")), &watch), None);
    assert_eq!(handle_message(ChatEvent::Privmsg(message("stegi ", "x")), &watch), None);
    assert_eq!(handle_message(ChatEvent::Privmsg(message("steg", "x")), &watch), None);
    assert_eq!(handle_message(ChatEvent::Privmsg(message("", "x")), &watch), None);
    assert_eq!(handle_message(ChatEvent::Privmsg(message("*", "x")), &watch), None);
}

#[test]
fn other_events_are_dropped() {
    let watch = watched_users();
    assert_eq!(handle_message(ChatEvent::Other, &watch), None);
}

#[test]
fn empty_watch_list_forwards_nothing() {
    let watch: Vec<String> = Vec::new();
    assert_eq!(handle_message(ChatEvent::Privmsg(message("stegi", "x")), &watch), None);
}

#[test]
fn missing_color_does_not_stop_forwarding() {
    let watch = watched_users();
    let mut msg = message("stegi", "hello");
    msg.name_color = None;
    let action = handle_message(ChatEvent::Privmsg(msg), &watch).unwrap();
    assert_eq!(action.color, None);
    assert_eq!(action.record.user, "stegi");
}

#[test]
fn is_watched_finds_exact_logins_only() {
    let watch = vec!["alpha".to_string(), "beta".to_string()];
    assert!(is_watched(&"alpha".to_string(), &watch));
    assert!(is_watched(&"beta".to_string(), &watch));
    assert!(!is_watched(&"Alpha".to_string(), &watch));
    assert!(!is_watched(&"alphabeta".to_string(), &watch));
    assert!(!is_watched(&"gamma".to_string(), &watch));
}

#[test]
fn channel_name_puts_the_marker_first() {
    assert_eq!(channel_name("stegi"), "#stegi");
    assert_eq!(channel_name(""), "#");
    assert_eq!(channel_name("#a"), "##a");
}

#[test]
fn record_takes_every_field_from_the_message() {
    let msg = PrivateMessage {
        channel_login: "room".to_string(),
        sender_login: "login".to_string(),
        sender_name: "Name".to_string(),
        message_text: "text".to_string(),
        server_timestamp: -5,
        name_color: None,
    };
    let record = ChatMessage::from_privmsg(&msg);
    assert_eq!(
        record,
        ChatMessage {
            timestamp: -5,
            channel: "#room".to_string(),
            user: "login".to_string(),
            content: "text".to_string(),
            display_name: "Name".to_string(),
        }
    );
}

#[test]
fn request_has_url_headers_and_body() {
    let request = request_with_body("{}".to_string(), "https://example.test/in", "secret");
    assert_eq!(request.url, "https://example.test/in");
    assert_eq!(
        request.headers,
        vec![
            ("authorization".to_string(), "secret".to_string()),
            ("content-type".to_string(), "application/json".to_string()),
        ]
    );
    assert_eq!(request.body, "{}");
}

#[test]
fn post_request_carries_the_pretty_json_of_the_record() {
    let record = ChatMessage {
        timestamp: 1_700_000_000,
        channel: "#stegi".to_string(),
        user: "stegi".to_string(),
        content: "hello".to_string(),
        display_name: "Stegi".to_string(),
    };
    let request = post_request(&record, "https://example.test/in", "key").unwrap();
    let expected = "{\n  \"timestamp\": 1700000000,\n  \"channel\": \"#stegi\",\n  \"user\": \"stegi\",\n  \"content\": \"hello\",\n  \"display_name\": \"Stegi\"\n}";
    assert_eq!(request.body, expected);
    assert_eq!(request.url, "https://example.test/in");
    assert_eq!(request.headers[0], ("authorization".to_string(), "key".to_string()));
    assert_eq!(request.headers[1], ("content-type".to_string(), "application/json".to_string()));
    assert_eq!(request.headers.len(), 2);
}
