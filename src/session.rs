//! Decisions of the receive loop: what to do with each inbound frame.
//!
//! The caller reads frames from the WebSocket, turns each text frame into an
//! [`Inbound`] with [`classify_text`], and hands every event to [`dispatch`].
//! The returned [`Action`] says what to send, which handler callback to
//! invoke, and when the loop ends.
use vstd::prelude::*;

use crate::protocol::{
    ack_members, Acknowledge, ConnectionInfo, DebugInfo, EventsApiPayload, Message,
};
use crate::decode::{decode_message, decodes_message, message_ok};
use crate::json::Json;
use crate::DisconnectReason;

verus! {

/// A text frame that could not be decoded, with the decoder's diagnostic.
#[derive(Debug, Clone)]
pub struct DecodeFailure {
    pub text: String,
    pub diagnostic: String,
}

/// One event of the WebSocket stream, as seen by the receive loop.
#[derive(Debug, Clone)]
pub enum Inbound {
    /// A text frame that decoded into a message.
    Decoded(Message),
    /// A text frame that did not decode.
    Malformed(DecodeFailure),
    /// A ping control frame with its payload bytes.
    Ping(Vec<u8>),
    /// A close control frame.
    Close,
    /// Any other frame (binary, pong, ...), described for the log.
    Unsupported(String),
    /// The stream ended without a close frame.
    End,
}

/// What the receive loop does in answer to one inbound event.
#[derive(Debug, Clone)]
pub enum Action {
    /// Invoke the handler's hello callback with these values.
    Hello { connection_info: ConnectionInfo, num_connections: u32, debug_info: DebugInfo },
    /// Send this acknowledgment, then invoke the handler's event callback.
    Event { ack: Acknowledge, payload: EventsApiPayload },
    /// Send a pong frame carrying these bytes.
    Pong(Vec<u8>),
    /// Report the malformed frame and keep receiving.
    ReportMalformed(DecodeFailure),
    /// Report the unsupported frame and keep receiving.
    ReportUnsupported(String),
    /// Stop receiving; the connection ended with this reason.
    Finish(DisconnectReason),
}

/// The outcome named by a disconnect message's reason string.
pub open spec fn reason_outcome(reason: String) -> DisconnectReason {
    if reason@ == "refresh_requested"@ {
        DisconnectReason::RefreshRequested
    } else {
        DisconnectReason::Other(reason)
    }
}

/// The action owed to one inbound event.
pub open spec fn action_for(frame: Inbound) -> Action {
    match frame {
        Inbound::Decoded(Message::Hello { num_connections, connection_info, debug_info }) =>
            Action::Hello { connection_info, num_connections, debug_info },
        Inbound::Decoded(Message::Disconnect { reason, .. }) =>
            Action::Finish(reason_outcome(reason)),
        Inbound::Decoded(Message::EventsApi { envelope_id, payload }) =>
            Action::Event { ack: Acknowledge { envelope_id, payload: None }, payload },
        Inbound::Malformed(f) => Action::ReportMalformed(f),
        Inbound::Ping(p) => Action::Pong(p),
        Inbound::Close => Action::Finish(DisconnectReason::Unknown),
        Inbound::Unsupported(d) => Action::ReportUnsupported(d),
        Inbound::End => Action::Finish(DisconnectReason::Unknown),
    }
}

/// Whether an action ends the receive loop.
pub open spec fn is_final(a: Action) -> bool {
    a is Finish
}

/// The actions taken, in order, on a stream of inbound events: one per event,
/// up to and including the first that ends the loop.
pub open spec fn trace(frames: Seq<Inbound>) -> Seq<Action>
    decreases frames.len(),
{
    if frames.len() == 0 {
        Seq::empty()
    } else {
        let a = action_for(frames[0]);
        if is_final(a) {
            seq![a]
        } else {
            seq![a] + trace(frames.drop_first())
        }
    }
}

/// Whether no event of a stream ends the loop.
pub open spec fn keeps_open(frames: Seq<Inbound>) -> bool {
    forall|i: int| 0 <= i < frames.len() ==> !is_final(#[trigger] action_for(frames[i]))
}

/// Classifies a text frame from what the JSON parser made of it: a parse
/// error, with its diagnostic, or a value that does or does not match the
/// message schema. A frame that fails either way is reported, not fatal.
pub fn classify_text(text: String, parsed: Result<Json, String>) -> (r: Inbound)
    ensures
        match parsed {
            Err(d) => r == Inbound::Malformed(DecodeFailure { text, diagnostic: d }),
            Ok(j) => if message_ok(j) {
                r matches Inbound::Decoded(msg) && decodes_message(j, msg)
            } else {
                r matches Inbound::Malformed(f) && f.text == text
            },
        },
{
    match parsed {
        Err(diagnostic) => Inbound::Malformed(DecodeFailure { text, diagnostic }),
        Ok(j) => match decode_message(&j) {
            Some(msg) => Inbound::Decoded(msg),
            None => Inbound::Malformed(
                DecodeFailure {
                    text,
                    diagnostic: String::from_str("the value does not match the message schema"),
                },
            ),
        },
    }
}

/// Maps a disconnect message's reason to the connection's outcome.
pub fn disconnect_reason(reason: String) -> (r: DisconnectReason)
    ensures
        r == reason_outcome(reason),
{
    let refresh = String::from_str("refresh_requested");
    if reason == refresh {
        DisconnectReason::RefreshRequested
    } else {
        DisconnectReason::Other(reason)
    }
}

/// Decides what the receive loop does with one inbound event.
pub fn dispatch(frame: Inbound) -> (r: Action)
    ensures
        r == action_for(frame),
{
    match frame {
        Inbound::Decoded(Message::Hello { num_connections, connection_info, debug_info }) => {
            Action::Hello { connection_info, num_connections, debug_info }
        },
        Inbound::Decoded(Message::Disconnect { reason, .. }) => {
            Action::Finish(disconnect_reason(reason))
        },
        Inbound::Decoded(Message::EventsApi { envelope_id, payload }) => {
            Action::Event { ack: Acknowledge { envelope_id, payload: None }, payload }
        },
        Inbound::Malformed(f) => Action::ReportMalformed(f),
        Inbound::Ping(p) => Action::Pong(p),
        Inbound::Close => Action::Finish(DisconnectReason::Unknown),
        Inbound::Unsupported(d) => Action::ReportUnsupported(d),
        Inbound::End => Action::Finish(DisconnectReason::Unknown),
    }
}

/// An event that does not end the loop is answered in place: on a stream
/// whose earlier events kept the loop open, its action comes right after
/// theirs, and the later events are handled as if it had not been there.
pub proof fn lemma_trace_step(before: Seq<Inbound>, frame: Inbound, after: Seq<Inbound>)
    requires
        keeps_open(before),
        !is_final(action_for(frame)),
    ensures
        trace(before + seq![frame] + after) == trace(before) + seq![action_for(frame)] + trace(
            after,
        ),
    decreases before.len(),
{
    let whole = before + seq![frame] + after;
    if before.len() == 0 {
        assert(whole.drop_first() =~= after);
        assert(before + seq![frame] + after =~= seq![frame] + after);
    } else {
        assert(!is_final(action_for(before[0])));
        let rest = before.drop_first();
        assert forall|i: int| 0 <= i < rest.len() implies !is_final(
            #[trigger] action_for(rest[i]),
        ) by {
            assert(rest[i] == before[i + 1]);
        }
        lemma_trace_step(rest, frame, after);
        assert(whole.drop_first() =~= rest + seq![frame] + after);
        assert(whole[0] == before[0]);
        assert(trace(before) == seq![action_for(before[0])] + trace(rest));
        assert(trace(whole) =~= trace(before) + seq![action_for(frame)] + trace(after));
    }
}

/// A malformed text frame between well-formed ones does not end the loop:
/// it is reported, and the frames after it are handled in arrival order.
pub proof fn lemma_malformed_frame_is_skipped(
    before: Seq<Inbound>,
    bad: DecodeFailure,
    after: Seq<Inbound>,
)
    requires
        keeps_open(before),
    ensures
        trace(before + seq![Inbound::Malformed(bad)] + after) == trace(before) + seq![
            Action::ReportMalformed(bad),
        ] + trace(after),
{
    lemma_trace_step(before, Inbound::Malformed(bad), after);
}

/// A ping is answered with a pong carrying the same bytes, before the next
/// event is handled.
pub proof fn lemma_ping_answered_in_place(
    before: Seq<Inbound>,
    payload: Vec<u8>,
    after: Seq<Inbound>,
)
    requires
        keeps_open(before),
    ensures
        trace(before + seq![Inbound::Ping(payload)] + after) == trace(before) + seq![
            Action::Pong(payload),
        ] + trace(after),
{
    lemma_trace_step(before, Inbound::Ping(payload), after);
}

/// An event that ends the loop is the last one handled: on a stream whose
/// earlier events kept the loop open, its action closes the trace.
pub proof fn lemma_trace_stop(before: Seq<Inbound>, end: Inbound, after: Seq<Inbound>)
    requires
        keeps_open(before),
        is_final(action_for(end)),
    ensures
        trace(before + seq![end] + after) == trace(before) + seq![action_for(end)],
    decreases before.len(),
{
    let whole = before + seq![end] + after;
    if before.len() == 0 {
        assert(whole[0] == end);
        assert(trace(before) =~= Seq::<Action>::empty());
        assert(trace(whole) =~= trace(before) + seq![action_for(end)]);
    } else {
        assert(!is_final(action_for(before[0])));
        let rest = before.drop_first();
        assert forall|i: int| 0 <= i < rest.len() implies !is_final(
            #[trigger] action_for(rest[i]),
        ) by {
            assert(rest[i] == before[i + 1]);
        }
        lemma_trace_stop(rest, end, after);
        assert(whole.drop_first() =~= rest + seq![end] + after);
        assert(whole[0] == before[0]);
        assert(trace(whole) =~= trace(before) + seq![action_for(end)]);
    }
}

/// A disconnect message ends the loop at once: with reason
/// `refresh_requested` the outcome is a refresh request, with any other reason
/// `s` it is `Other(s)`.
pub proof fn lemma_disconnect_outcome(
    before: Seq<Inbound>,
    reason: String,
    debug_info: DebugInfo,
    after: Seq<Inbound>,
)
    requires
        keeps_open(before),
    ensures
        trace(before + seq![Inbound::Decoded(Message::Disconnect { reason, debug_info })] + after)
            == trace(before) + seq![Action::Finish(reason_outcome(reason))],
        reason@ == "refresh_requested"@ ==> reason_outcome(reason)
            == DisconnectReason::RefreshRequested,
        reason@ != "refresh_requested"@ ==> reason_outcome(reason) == DisconnectReason::Other(
            reason,
        ),
{
    lemma_trace_stop(before, Inbound::Decoded(Message::Disconnect { reason, debug_info }), after);
}

/// A `hello` message hands the handler its decoded values unchanged, and the
/// loop goes on.
pub proof fn lemma_hello_passed_through(
    num_connections: u32,
    connection_info: ConnectionInfo,
    debug_info: DebugInfo,
)
    ensures
        action_for(Inbound::Decoded(Message::Hello { num_connections, connection_info, debug_info }))
            == (Action::Hello { connection_info, num_connections, debug_info }),
        !is_final(
            action_for(
                Inbound::Decoded(Message::Hello { num_connections, connection_info, debug_info }),
            ),
        ),
{
}

/// An `events_api` envelope is acknowledged with its own identifier and no
/// payload, so the written acknowledgment has the single member
/// `envelope_id`; the event payload goes on to the handler.
pub proof fn lemma_events_api_acknowledged(envelope_id: String, payload: EventsApiPayload)
    ensures
        ({
            let a = action_for(Inbound::Decoded(Message::EventsApi { envelope_id, payload }));
            &&& a is Event
            &&& a->ack.envelope_id == envelope_id
            &&& a->ack.payload is None
            &&& ack_members(a->ack) == seq![("envelope_id"@, envelope_id@)]
            &&& a->Event_payload == payload
        }),
{
}

/// A close frame, or the end of the stream, with no disconnect message before
/// it, ends the loop with an unknown reason; nothing after it is handled.
pub proof fn lemma_close_without_disconnect(before: Seq<Inbound>, end: Inbound, after: Seq<Inbound>)
    requires
        keeps_open(before),
        end is Close || end is End,
    ensures
        trace(before + seq![end] + after) == trace(before) + seq![
            Action::Finish(DisconnectReason::Unknown),
        ],
{
    lemma_trace_stop(before, end, after);
}

} // verus!
