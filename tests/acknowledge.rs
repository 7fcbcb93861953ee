use slack_socket_mode_client::protocol::{write_object, Acknowledge};

#[test]
fn ack_without_payload_has_only_envelope_id() {
    let ack = Acknowledge { envelope_id: String::from("abc-123"), payload: None };
    assert_eq!(ack.to_json(), "{\"envelope_id\":\"abc-123\"}");
}

#[test]
fn ack_with_payload_has_both_members() {
    let ack = Acknowledge { envelope_id: String::from("e1"), payload: Some(String::from("x")) };
    assert_eq!(ack.to_json(), "{\"envelope_id\":\"e1\",\"payload\":\"x\"}");
}

#[test]
fn ack_escapes_special_characters() {
    let ack = Acknowledge { envelope_id: String::from("a\"b\\c\nd"), payload: None };
    assert_eq!(ack.to_json(), "{\"envelope_id\":\"a\\\"b\\\\c\\nd\"}");
}

#[test]
fn ack_round_trip_without_payload_has_no_payload_key() {
    let ack = Acknowledge { envelope_id: String::from("env-9"), payload: None };
    let v: serde_json::Value = serde_json::from_str(&ack.to_json()).unwrap();
    let obj = v.as_object().unwrap();
    assert!(!obj.contains_key("payload"));
    assert_eq!(obj.get("envelope_id").and_then(|e| e.as_str()), Some("env-9"));
    assert_eq!(obj.len(), 1);
}

#[test]
fn ack_round_trip_with_payload_keeps_value() {
    let ack = Acknowledge { envelope_id: String::from("env-9"), payload: Some(String::from("x")) };
    let v: serde_json::Value = serde_json::from_str(&ack.to_json()).unwrap();
    let obj = v.as_object().unwrap();
    assert_eq!(obj.get("payload").and_then(|e| e.as_str()), Some("x"));
    assert_eq!(obj.get("envelope_id").and_then(|e| e.as_str()), Some("env-9"));
}

#[test]
fn ack_round_trip_keeps_unicode_and_controls() {
    let id = "é\u{1}\t\"";
    let ack = Acknowledge { envelope_id: String::from(id), payload: None };
    let v: serde_json::Value = serde_json::from_str(&ack.to_json()).unwrap();
    assert_eq!(v.get("envelope_id").and_then(|e| e.as_str()), Some(id));
}

#[test]
fn write_object_empty() {
    assert_eq!(write_object(&Vec::new()), "{}");
}

#[test]
fn write_object_joins_members_in_order() {
    let members = vec![
        (String::from("\"b\""), String::from("1")),
        (String::from("\"a\""), String::from("[2]")),
    ];
    assert_eq!(write_object(&members), "{\"b\":1,\"a\":[2]}");
}
