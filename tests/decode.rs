use slack_socket_mode_client::decode::{decode_event, decode_message, decode_reaction_item};
use slack_socket_mode_client::endpoint::decode_open_response;
use slack_socket_mode_client::json::Json;
use slack_socket_mode_client::protocol::events_api::{Event, ReactionItem};
use slack_socket_mode_client::protocol::Message;
use slack_socket_mode_client::session::{classify_text, dispatch, Action, Inbound};

fn model(v: serde_json::Value) -> Json {
    match v {
        serde_json::Value::Null => Json::Null,
        serde_json::Value::Bool(b) => Json::Bool(b),
        serde_json::Value::Number(n) => match n.as_u64() {
            Some(u) => Json::UInt(u),
            None => Json::OtherNumber,
        },
        serde_json::Value::String(s) => Json::Str(s),
        serde_json::Value::Array(a) => Json::Array(a.into_iter().map(model).collect()),
        serde_json::Value::Object(m) => Json::Object(m.into_iter().map(|(k, v)| (k, model(v))).collect()),
    }
}

fn parse(text: &str) -> Json {
    model(serde_json::from_str(text).unwrap())
}

const HELLO: &str = r#"{"type":"hello","num_connections":1,"debug_info":{"host":"applink-3","build_number":5,"approximate_connection_time":18060},"connection_info":{"app_id":"A01"}}"#;

#[test]
fn decode_hello_frame() {
    match decode_message(&parse(HELLO)) {
        Some(Message::Hello { num_connections, connection_info, debug_info }) => {
            assert_eq!(num_connections, 1);
            assert_eq!(connection_info.app_id, "A01");
            assert_eq!(debug_info.host, "applink-3");
            assert_eq!(debug_info.started, None);
            assert_eq!(debug_info.build_number, Some(5));
            assert_eq!(debug_info.approximate_connection_time, Some(18060));
        },
        other => panic!("unexpected {:?}", other),
    }
}

#[test]
fn hello_frame_reaches_handler_values_unchanged() {
    match dispatch(classify_text(String::from(HELLO), Ok(parse(HELLO)))) {
        Action::Hello { connection_info, num_connections, debug_info } => {
            assert_eq!(connection_info.app_id, "A01");
            assert_eq!(num_connections, 1);
            assert_eq!(debug_info.host, "applink-3");
        },
        other => panic!("unexpected {:?}", other),
    }
}

#[test]
fn decode_disconnect_frame() {
    let text = r#"{"type":"disconnect","reason":"refresh_requested","debug_info":{"host":"h"}}"#;
    match decode_message(&parse(text)) {
        Some(Message::Disconnect { reason, debug_info }) => {
            assert_eq!(reason, "refresh_requested");
            assert_eq!(debug_info.host, "h");
        },
        other => panic!("unexpected {:?}", other),
    }
}

#[test]
fn decode_events_api_message_with_defaults() {
    let text = r#"{"type":"events_api","envelope_id":"E1","accepts_response_payload":false,
        "payload":{"team_id":"T1","event":{"type":"message","event_ts":"1.2","channel":"C1","text":"hi \"there\"","user":null}}}"#;
    match decode_message(&parse(text)) {
        Some(Message::EventsApi { envelope_id, payload }) => {
            assert_eq!(envelope_id, "E1");
            assert_eq!(payload.team_id, "T1");
            match payload.event {
                Event::Message(m) => {
                    assert_eq!(m.event_ts, "1.2");
                    assert_eq!(m.channel, "C1");
                    assert_eq!(m.text.as_deref(), Some("hi \"there\""));
                    assert_eq!(m.user, None);
                    assert!(!m.hidden);
                    assert!(!m.is_starred);
                    assert!(m.pinned_to.is_empty());
                    assert!(m.reactions.is_empty());
                },
                other => panic!("unexpected {:?}", other),
            }
        },
        other => panic!("unexpected {:?}", other),
    }
}

#[test]
fn decode_message_event_with_lists() {
    let text = r#"{"type":"message","event_ts":"1","channel":"C","hidden":true,"pinned_to":["C","D"],
        "reactions":[{"name":"wave","count":2,"users":["U1","U2"]},{"name":"ok","count":0}]}"#;
    match decode_event(&parse(text)) {
        Some(Event::Message(m)) => {
            assert!(m.hidden);
            assert_eq!(m.pinned_to, vec![String::from("C"), String::from("D")]);
            assert_eq!(m.reactions.len(), 2);
            assert_eq!(m.reactions[0].name, "wave");
            assert_eq!(m.reactions[0].count, 2);
            assert_eq!(m.reactions[0].users, vec![String::from("U1"), String::from("U2")]);
            assert!(m.reactions[1].users.is_empty());
        },
        other => panic!("unexpected {:?}", other),
    }
}

#[test]
fn decode_reaction_removed_on_file_comment() {
    let text = r#"{"type":"reaction_removed","event_ts":"3","user":"U","reaction":"x",
        "item":{"type":"file_comment","file_comment":"Fc1","file":"F1"}}"#;
    match decode_event(&parse(text)) {
        Some(Event::ReactionRemoved(r)) => {
            assert_eq!(r.reaction, "x");
            assert_eq!(r.item_user, None);
            match r.item {
                ReactionItem::FileComment { file_comment, file } => {
                    assert_eq!(file_comment, "Fc1");
                    assert_eq!(file, "F1");
                },
                other => panic!("unexpected {:?}", other),
            }
        },
        other => panic!("unexpected {:?}", other),
    }
}

#[test]
fn decode_reaction_items() {
    assert!(matches!(decode_reaction_item(&parse(r#"{"type":"file","file":"F"}"#)), Some(ReactionItem::File { ref file }) if file == "F"));
    assert!(matches!(decode_reaction_item(&parse(r#"{"type":"message","channel":"C","ts":"1"}"#)), Some(ReactionItem::Message { .. })));
    assert!(decode_reaction_item(&parse(r#"{"type":"message","channel":"C"}"#)).is_none());
    assert!(decode_reaction_item(&parse(r#"{"type":"channel"}"#)).is_none());
}

#[test]
fn unknown_message_type_is_rejected() {
    assert!(decode_message(&parse(r#"{"type":"slash_commands","envelope_id":"E"}"#)).is_none());
    assert!(decode_message(&parse(r#"{"envelope_id":"E"}"#)).is_none());
    assert!(decode_message(&parse(r#"[1,2]"#)).is_none());
}

#[test]
fn unknown_event_type_is_rejected() {
    let text = r#"{"type":"events_api","envelope_id":"E","payload":{"team_id":"T","event":{"type":"app_mention"}}}"#;
    assert!(decode_message(&parse(text)).is_none());
}

#[test]
fn missing_required_field_is_rejected() {
    assert!(decode_message(&parse(r#"{"type":"hello","num_connections":1,"connection_info":{"app_id":"A"}}"#)).is_none());
    assert!(decode_message(&parse(r#"{"type":"disconnect","debug_info":{"host":"h"}}"#)).is_none());
}

#[test]
fn out_of_range_or_wrong_typed_numbers_are_rejected() {
    let big = r#"{"type":"hello","num_connections":4294967296,"connection_info":{"app_id":"A"},"debug_info":{"host":"h"}}"#;
    assert!(decode_message(&parse(big)).is_none());
    let neg = r#"{"type":"hello","num_connections":-1,"connection_info":{"app_id":"A"},"debug_info":{"host":"h"}}"#;
    assert!(decode_message(&parse(neg)).is_none());
    let max = r#"{"type":"hello","num_connections":4294967295,"connection_info":{"app_id":"A"},"debug_info":{"host":"h"}}"#;
    assert!(matches!(decode_message(&parse(max)), Some(Message::Hello { num_connections: 4294967295, .. })));
    let strnum = r#"{"type":"disconnect","reason":"r","debug_info":{"host":"h","build_number":"5"}}"#;
    assert!(decode_message(&parse(strnum)).is_none());
}

#[test]
fn classify_parse_error_keeps_text_and_diagnostic() {
    match classify_text(String::from("{oops"), Err(String::from("key must be a string"))) {
        Inbound::Malformed(f) => {
            assert_eq!(f.text, "{oops");
            assert_eq!(f.diagnostic, "key must be a string");
        },
        other => panic!("unexpected {:?}", other),
    }
}

#[test]
fn classify_schema_mismatch_is_malformed() {
    let text = r#"{"type":"hello"}"#;
    match classify_text(String::from(text), Ok(parse(text))) {
        Inbound::Malformed(f) => {
            assert_eq!(f.text, text);
            assert!(!f.diagnostic.is_empty());
        },
        other => panic!("unexpected {:?}", other),
    }
}

#[test]
fn open_response_shapes() {
    let r = decode_open_response(&parse(r#"{"ok":false,"error":"invalid_auth"}"#)).unwrap();
    assert!(!r.ok);
    assert_eq!(r.error.as_deref(), Some("invalid_auth"));
    assert_eq!(r.url, None);
    let r = decode_open_response(&parse(r#"{"ok":true,"url":"wss://w.example/link"}"#)).unwrap();
    assert!(r.ok);
    assert_eq!(r.url.as_deref(), Some("wss://w.example/link"));
    assert!(decode_open_response(&parse(r#"{"url":"wss://w.example/link"}"#)).is_none());
    assert!(decode_open_response(&parse(r#"{"ok":"yes"}"#)).is_none());
}
