use slack_socket_mode_client::protocol::events_api::{
    Event, MessageEvent, ReactionEvent, ReactionItem,
};
use slack_socket_mode_client::protocol::{ConnectionInfo, DebugInfo, EventsApiPayload, Message};
use slack_socket_mode_client::session::{
    disconnect_reason, dispatch, Action, DecodeFailure, Inbound,
};
use slack_socket_mode_client::DisconnectReason;

fn debug_info() -> DebugInfo {
    DebugInfo {
        host: String::from("applink-7"),
        started: Some(String::from("2021-01-01 00:00:00.000")),
        build_number: Some(17),
        approximate_connection_time: Some(18060),
    }
}

fn hello() -> Inbound {
    Inbound::Decoded(Message::Hello {
        num_connections: 3,
        connection_info: ConnectionInfo { app_id: String::from("A0123") },
        debug_info: debug_info(),
    })
}

fn message_event(text: &str) -> EventsApiPayload {
    EventsApiPayload {
        team_id: String::from("T1"),
        event: Event::Message(MessageEvent {
            event_ts: String::from("1.0"),
            subtype: None,
            text: Some(String::from(text)),
            user: Some(String::from("U1")),
            ts: Some(String::from("1.0")),
            deleted_ts: None,
            team: None,
            channel: String::from("C1"),
            hidden: false,
            is_starred: false,
            pinned_to: Vec::new(),
            reactions: Vec::new(),
        }),
    }
}

fn events_api(id: &str, text: &str) -> Inbound {
    Inbound::Decoded(Message::EventsApi {
        envelope_id: String::from(id),
        payload: message_event(text),
    })
}

fn disconnect(reason: &str) -> Inbound {
    Inbound::Decoded(Message::Disconnect { reason: String::from(reason), debug_info: debug_info() })
}

fn malformed() -> Inbound {
    Inbound::Malformed(DecodeFailure {
        text: String::from("{not json"),
        diagnostic: String::from("key must be a string at line 1 column 2"),
    })
}

/// Feeds frames to the dispatcher the way the receive loop does, stopping at
/// the first final action.
fn drive(frames: Vec<Inbound>) -> Vec<Action> {
    let mut out = Vec::new();
    for f in frames {
        let a = dispatch(f);
        let stop = matches!(a, Action::Finish(_));
        out.push(a);
        if stop {
            break;
        }
    }
    out
}

#[test]
fn hello_fields_pass_through_unchanged() {
    match dispatch(hello()) {
        Action::Hello { connection_info, num_connections, debug_info } => {
            assert_eq!(connection_info.app_id, "A0123");
            assert_eq!(num_connections, 3);
            assert_eq!(debug_info.host, "applink-7");
            assert_eq!(debug_info.started.as_deref(), Some("2021-01-01 00:00:00.000"));
            assert_eq!(debug_info.build_number, Some(17));
            assert_eq!(debug_info.approximate_connection_time, Some(18060));
        },
        other => panic!("unexpected {:?}", other),
    }
}

#[test]
fn events_api_is_acknowledged_with_its_envelope_id() {
    match dispatch(events_api("env-42", "hi")) {
        Action::Event { ack, payload } => {
            assert_eq!(ack.envelope_id, "env-42");
            assert!(ack.payload.is_none());
            assert_eq!(ack.to_json(), "{\"envelope_id\":\"env-42\"}");
            assert_eq!(payload.team_id, "T1");
            match payload.event {
                Event::Message(m) => assert_eq!(m.text.as_deref(), Some("hi")),
                other => panic!("unexpected {:?}", other),
            }
        },
        other => panic!("unexpected {:?}", other),
    }
}

#[test]
fn reaction_event_is_delivered() {
    let payload = EventsApiPayload {
        team_id: String::from("T9"),
        event: Event::ReactionAdded(ReactionEvent {
            event_ts: String::from("2.0"),
            user: String::from("U2"),
            reaction: String::from("thumbsup"),
            item_user: None,
            item: ReactionItem::Message { channel: String::from("C2"), ts: String::from("1.5") },
        }),
    };
    let frame = Inbound::Decoded(Message::EventsApi { envelope_id: String::from("r1"), payload });
    match dispatch(frame) {
        Action::Event { ack, payload } => {
            assert_eq!(ack.envelope_id, "r1");
            assert!(matches!(payload.event, Event::ReactionAdded(ref r) if r.reaction == "thumbsup"));
        },
        other => panic!("unexpected {:?}", other),
    }
}

#[test]
fn disconnect_refresh_requested() {
    assert!(matches!(dispatch(disconnect("refresh_requested")), Action::Finish(DisconnectReason::RefreshRequested)));
    assert!(matches!(disconnect_reason(String::from("refresh_requested")), DisconnectReason::RefreshRequested));
}

#[test]
fn disconnect_other_reason() {
    match dispatch(disconnect("link_disabled")) {
        Action::Finish(DisconnectReason::Other(s)) => assert_eq!(s, "link_disabled"),
        other => panic!("unexpected {:?}", other),
    }
    match disconnect_reason(String::from("warning")) {
        DisconnectReason::Other(s) => assert_eq!(s, "warning"),
        other => panic!("unexpected {:?}", other),
    }
}

#[test]
fn close_frame_gives_unknown() {
    assert!(matches!(dispatch(Inbound::Close), Action::Finish(DisconnectReason::Unknown)));
}

#[test]
fn stream_end_gives_unknown() {
    assert!(matches!(dispatch(Inbound::End), Action::Finish(DisconnectReason::Unknown)));
}

#[test]
fn close_after_traffic_gives_unknown() {
    let actions = drive(vec![hello(), events_api("e1", "a"), Inbound::Close, disconnect("refresh_requested")]);
    assert_eq!(actions.len(), 3);
    assert!(matches!(actions[2], Action::Finish(DisconnectReason::Unknown)));
}

#[test]
fn disconnect_wins_when_seen_before_close() {
    let actions = drive(vec![hello(), disconnect("refresh_requested"), Inbound::Close]);
    assert_eq!(actions.len(), 2);
    assert!(matches!(actions[1], Action::Finish(DisconnectReason::RefreshRequested)));
}

#[test]
fn malformed_frame_between_good_frames_is_skipped() {
    let actions = drive(vec![events_api("e1", "first"), malformed(), events_api("e2", "second"), Inbound::End]);
    assert_eq!(actions.len(), 4);
    assert!(matches!(actions[0], Action::Event { ref ack, .. } if ack.envelope_id == "e1"));
    match &actions[1] {
        Action::ReportMalformed(f) => assert_eq!(f.text, "{not json"),
        other => panic!("unexpected {:?}", other),
    }
    assert!(matches!(actions[2], Action::Event { ref ack, .. } if ack.envelope_id == "e2"));
    assert!(matches!(actions[3], Action::Finish(DisconnectReason::Unknown)));
}

#[test]
fn ping_is_answered_in_place_with_same_bytes() {
    let actions = drive(vec![hello(), Inbound::Ping(vec![1, 2, 255]), events_api("e3", "x"), Inbound::Close]);
    assert_eq!(actions.len(), 4);
    match &actions[1] {
        Action::Pong(p) => assert_eq!(p, &vec![1u8, 2, 255]),
        other => panic!("unexpected {:?}", other),
    }
    assert!(matches!(actions[2], Action::Event { .. }));
}

#[test]
fn empty_ping_gets_empty_pong() {
    assert!(matches!(dispatch(Inbound::Ping(Vec::new())), Action::Pong(ref p) if p.is_empty()));
}

#[test]
fn unsupported_frame_is_reported_and_loop_continues() {
    let actions = drive(vec![Inbound::Unsupported(String::from("Binary([0])")), hello(), Inbound::End]);
    assert_eq!(actions.len(), 3);
    assert!(matches!(actions[0], Action::ReportUnsupported(ref d) if d == "Binary([0])"));
    assert!(matches!(actions[1], Action::Hello { num_connections: 3, .. }));
}
