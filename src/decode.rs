//! The wire schema: how a parsed JSON value maps onto the typed messages.
//!
//! Each type has two predicates: `*_ok(j)` says that `j` has the shape the
//! type needs, and `decodes_*(j, x)` says that `x` holds exactly what `j`
//! carries. Objects select the variant of a sum type by their `type` member;
//! members that the schema does not name are ignored.
use vstd::prelude::*;

use crate::json::{
    bool_at, find, get_bool, get_opt_str, get_opt_uint, get_str, get_str_list, get_uint, lookup,
    opt_str_at, opt_uint_at, opt_view, str_at, str_list_at, str_views, uint_at, Json,
};
use crate::protocol::events_api::{
    Event, MessageEvent, MessageReaction, ReactionEvent, ReactionItem,
};
use crate::protocol::{ConnectionInfo, DebugInfo, EventsApiPayload, Message};

verus! {

/// The largest `u32`, as a bound on integer members.
pub const U32_MAX: u64 = 0xffff_ffff;

/// The largest `u64`, as a bound on integer members.
pub const U64_MAX: u64 = 0xffff_ffff_ffff_ffff;

/// The members of an object; empty for any other value.
pub open spec fn members(j: Json) -> Seq<(String, Json)> {
    match j {
        Json::Object(m) => m@,
        _ => Seq::empty(),
    }
}

/// An optional `u32` widened to `u64`.
pub open spec fn widen(o: Option<u32>) -> Option<u64> {
    match o {
        Some(n) => Some(n as u64),
        None => None,
    }
}

/// Narrows an integer read under the `u32` bound.
fn narrow(o: Option<u64>) -> (r: Option<u32>)
    requires
        o matches Some(n) ==> n <= U32_MAX,
    ensures
        widen(r) == o,
{
    match o {
        Some(n) => Some(n as u32),
        None => None,
    }
}

/// Whether `j` has the shape of a `connection_info` object.
pub open spec fn connection_info_ok(j: Json) -> bool {
    j is Object && str_at(members(j), "app_id"@) is Some
}

/// Whether `c` holds exactly what the `connection_info` object `j` carries.
pub open spec fn decodes_connection_info(j: Json, c: ConnectionInfo) -> bool {
    j is Object && str_at(members(j), "app_id"@) == Some(c.app_id@)
}

/// Decodes a `connection_info` object.
pub fn decode_connection_info(j: &Json) -> (r: Option<ConnectionInfo>)
    ensures
        r is Some <==> connection_info_ok(*j),
        r matches Some(c) ==> decodes_connection_info(*j, c),
{
    let m = match j {
        Json::Object(m) => m,
        _ => return None,
    };
    match get_str(m, "app_id") {
        Some(app_id) => Some(ConnectionInfo { app_id }),
        None => None,
    }
}

/// Whether `j` has the shape of a `debug_info` object.
pub open spec fn debug_info_ok(j: Json) -> bool {
    let m = members(j);
    &&& j is Object
    &&& str_at(m, "host"@) is Some
    &&& opt_str_at(m, "started"@) is Some
    &&& opt_uint_at(m, "build_number"@, U32_MAX) is Some
    &&& opt_uint_at(m, "approximate_connection_time"@, U64_MAX) is Some
}

/// Whether `d` holds exactly what the `debug_info` object `j` carries.
pub open spec fn decodes_debug_info(j: Json, d: DebugInfo) -> bool {
    let m = members(j);
    &&& j is Object
    &&& str_at(m, "host"@) == Some(d.host@)
    &&& opt_str_at(m, "started"@) == Some(opt_view(d.started))
    &&& opt_uint_at(m, "build_number"@, U32_MAX) == Some(widen(d.build_number))
    &&& opt_uint_at(m, "approximate_connection_time"@, U64_MAX) == Some(
        d.approximate_connection_time,
    )
}

/// Decodes a `debug_info` object.
pub fn decode_debug_info(j: &Json) -> (r: Option<DebugInfo>)
    ensures
        r is Some <==> debug_info_ok(*j),
        r matches Some(d) ==> decodes_debug_info(*j, d),
{
    let m = match j {
        Json::Object(m) => m,
        _ => return None,
    };
    let host = match get_str(m, "host") {
        Some(s) => s,
        None => return None,
    };
    let started = match get_opt_str(m, "started") {
        Some(s) => s,
        None => return None,
    };
    let build_number = match get_opt_uint(m, "build_number", U32_MAX) {
        Some(n) => narrow(n),
        None => return None,
    };
    let approximate_connection_time = match get_opt_uint(
        m,
        "approximate_connection_time",
        U64_MAX,
    ) {
        Some(n) => n,
        None => return None,
    };
    Some(DebugInfo { host, started, build_number, approximate_connection_time })
}

/// Whether `j` has the shape of a reaction entry.
pub open spec fn reaction_ok(j: Json) -> bool {
    let m = members(j);
    &&& j is Object
    &&& str_at(m, "name"@) is Some
    &&& uint_at(m, "count"@, U32_MAX) is Some
    &&& str_list_at(m, "users"@) is Some
}

/// Whether `r` holds exactly what the reaction entry `j` carries.
pub open spec fn decodes_reaction(j: Json, r: MessageReaction) -> bool {
    let m = members(j);
    &&& j is Object
    &&& str_at(m, "name"@) == Some(r.name@)
    &&& uint_at(m, "count"@, U32_MAX) == Some(r.count as u64)
    &&& str_list_at(m, "users"@) == Some(str_views(r.users@))
}

/// Decodes one entry of a message's `reactions`.
pub fn decode_reaction(j: &Json) -> (r: Option<MessageReaction>)
    ensures
        r is Some <==> reaction_ok(*j),
        r matches Some(x) ==> decodes_reaction(*j, x),
{
    let m = match j {
        Json::Object(m) => m,
        _ => return None,
    };
    let name = match get_str(m, "name") {
        Some(s) => s,
        None => return None,
    };
    let count = match get_uint(m, "count", U32_MAX) {
        Some(n) => n as u32,
        None => return None,
    };
    let users = match get_str_list(m, "users") {
        Some(v) => v,
        None => return None,
    };
    Some(MessageReaction { name, count, users })
}

/// The `reactions` member: absent reads as empty; else an array of reactions.
pub open spec fn reactions_ok(m: Seq<(String, Json)>) -> bool {
    match lookup(m, "reactions"@) {
        None => true,
        Some(Json::Array(items)) => forall|i: int|
            0 <= i < items@.len() ==> reaction_ok(#[trigger] items@[i]),
        _ => false,
    }
}

/// Whether `v` holds exactly the reactions that the members `m` carry.
pub open spec fn decodes_reactions(m: Seq<(String, Json)>, v: Seq<MessageReaction>) -> bool {
    match lookup(m, "reactions"@) {
        None => v.len() == 0,
        Some(Json::Array(items)) => v.len() == items@.len() && forall|i: int|
            0 <= i < v.len() ==> decodes_reaction(#[trigger] items@[i], v[i]),
        _ => false,
    }
}

/// Decodes the `reactions` member of a message event.
fn decode_reactions(m: &Vec<(String, Json)>) -> (r: Option<Vec<MessageReaction>>)
    ensures
        r is Some <==> reactions_ok(m@),
        r matches Some(v) ==> decodes_reactions(m@, v@),
{
    match find(m, "reactions") {
        None => Some(Vec::new()),
        Some(Json::Array(items)) => {
            let mut out: Vec<MessageReaction> = Vec::new();
            let mut i: usize = 0;
            while i < items.len()
                invariant
                    i <= items@.len(),
                    lookup(m@, "reactions"@) == Some(Json::Array(*items)),
                    out@.len() == i,
                    forall|k: int| 0 <= k < i ==> reaction_ok(#[trigger] items@[k]),
                    forall|k: int| 0 <= k < i ==> decodes_reaction(#[trigger] items@[k], out@[k]),
                decreases items@.len() - i,
            {
                match decode_reaction(&items[i]) {
                    Some(x) => {
                        out.push(x);
                    },
                    None => {
                        let ghost l = lookup(m@, "reactions"@);
                        assert(l->Some_0->Array_0 == *items);
                        assert(!reaction_ok(items@[i as int]));
                        return None;
                    },
                }
                i = i + 1;
            }
            Some(out)
        },
        _ => None,
    }
}

/// Whether `j` has the shape of a `message` event.
pub open spec fn message_event_ok(j: Json) -> bool {
    let m = members(j);
    &&& j is Object
    &&& str_at(m, "event_ts"@) is Some
    &&& opt_str_at(m, "subtype"@) is Some
    &&& opt_str_at(m, "text"@) is Some
    &&& opt_str_at(m, "user"@) is Some
    &&& opt_str_at(m, "ts"@) is Some
    &&& opt_str_at(m, "deleted_ts"@) is Some
    &&& opt_str_at(m, "team"@) is Some
    &&& str_at(m, "channel"@) is Some
    &&& bool_at(m, "hidden"@) is Some
    &&& bool_at(m, "is_starred"@) is Some
    &&& str_list_at(m, "pinned_to"@) is Some
    &&& reactions_ok(m)
}

/// Whether `e` holds exactly what the `message` event `j` carries.
pub open spec fn decodes_message_event(j: Json, e: MessageEvent) -> bool {
    let m = members(j);
    &&& j is Object
    &&& str_at(m, "event_ts"@) == Some(e.event_ts@)
    &&& opt_str_at(m, "subtype"@) == Some(opt_view(e.subtype))
    &&& opt_str_at(m, "text"@) == Some(opt_view(e.text))
    &&& opt_str_at(m, "user"@) == Some(opt_view(e.user))
    &&& opt_str_at(m, "ts"@) == Some(opt_view(e.ts))
    &&& opt_str_at(m, "deleted_ts"@) == Some(opt_view(e.deleted_ts))
    &&& opt_str_at(m, "team"@) == Some(opt_view(e.team))
    &&& str_at(m, "channel"@) == Some(e.channel@)
    &&& bool_at(m, "hidden"@) == Some(e.hidden)
    &&& bool_at(m, "is_starred"@) == Some(e.is_starred)
    &&& str_list_at(m, "pinned_to"@) == Some(str_views(e.pinned_to@))
    &&& decodes_reactions(m, e.reactions@)
}

/// Decodes the fields of a `message` event.
pub fn decode_message_event(j: &Json) -> (r: Option<MessageEvent>)
    ensures
        r is Some <==> message_event_ok(*j),
        r matches Some(e) ==> decodes_message_event(*j, e),
{
    let m = match j {
        Json::Object(m) => m,
        _ => return None,
    };
    let event_ts = match get_str(m, "event_ts") {
        Some(s) => s,
        None => return None,
    };
    let subtype = match get_opt_str(m, "subtype") {
        Some(s) => s,
        None => return None,
    };
    let text = match get_opt_str(m, "text") {
        Some(s) => s,
        None => return None,
    };
    let user = match get_opt_str(m, "user") {
        Some(s) => s,
        None => return None,
    };
    let ts = match get_opt_str(m, "ts") {
        Some(s) => s,
        None => return None,
    };
    let deleted_ts = match get_opt_str(m, "deleted_ts") {
        Some(s) => s,
        None => return None,
    };
    let team = match get_opt_str(m, "team") {
        Some(s) => s,
        None => return None,
    };
    let channel = match get_str(m, "channel") {
        Some(s) => s,
        None => return None,
    };
    let hidden = match get_bool(m, "hidden") {
        Some(b) => b,
        None => return None,
    };
    let is_starred = match get_bool(m, "is_starred") {
        Some(b) => b,
        None => return None,
    };
    let pinned_to = match get_str_list(m, "pinned_to") {
        Some(v) => v,
        None => return None,
    };
    let reactions = match decode_reactions(m) {
        Some(v) => v,
        None => return None,
    };
    Some(
        MessageEvent {
            event_ts,
            subtype,
            text,
            user,
            ts,
            deleted_ts,
            team,
            channel,
            hidden,
            is_starred,
            pinned_to,
            reactions,
        },
    )
}

/// Whether `j` has the shape of a reaction item.
pub open spec fn reaction_item_ok(j: Json) -> bool {
    let m = members(j);
    &&& j is Object
    &&& match str_at(m, "type"@) {
        Some(t) => if t == "message"@ {
            str_at(m, "channel"@) is Some && str_at(m, "ts"@) is Some
        } else if t == "file"@ {
            str_at(m, "file"@) is Some
        } else if t == "file_comment"@ {
            str_at(m, "file_comment"@) is Some && str_at(m, "file"@) is Some
        } else {
            false
        },
        None => false,
    }
}

/// Whether `x` holds exactly what the reaction item `j` carries.
pub open spec fn decodes_reaction_item(j: Json, x: ReactionItem) -> bool {
    let m = members(j);
    &&& j is Object
    &&& match x {
        ReactionItem::Message { channel, ts } => str_at(m, "type"@) == Some("message"@) && str_at(
            m,
            "channel"@,
        ) == Some(channel@) && str_at(m, "ts"@) == Some(ts@),
        ReactionItem::File { file } => str_at(m, "type"@) == Some("file"@) && str_at(m, "file"@)
            == Some(file@),
        ReactionItem::FileComment { file_comment, file } => str_at(m, "type"@) == Some(
            "file_comment"@,
        ) && str_at(m, "file_comment"@) == Some(file_comment@) && str_at(m, "file"@) == Some(
            file@,
        ),
    }
}

/// Decodes the `item` a reaction was attached to.
pub fn decode_reaction_item(j: &Json) -> (r: Option<ReactionItem>)
    ensures
        r is Some <==> reaction_item_ok(*j),
        r matches Some(x) ==> decodes_reaction_item(*j, x),
{
    let m = match j {
        Json::Object(m) => m,
        _ => return None,
    };
    let t = match get_str(m, "type") {
        Some(t) => t,
        None => return None,
    };
    if t == String::from_str("message") {
        match (get_str(m, "channel"), get_str(m, "ts")) {
            (Some(channel), Some(ts)) => Some(ReactionItem::Message { channel, ts }),
            _ => None,
        }
    } else if t == String::from_str("file") {
        match get_str(m, "file") {
            Some(file) => Some(ReactionItem::File { file }),
            None => None,
        }
    } else if t == String::from_str("file_comment") {
        match (get_str(m, "file_comment"), get_str(m, "file")) {
            (Some(file_comment), Some(file)) => Some(
                ReactionItem::FileComment { file_comment, file },
            ),
            _ => None,
        }
    } else {
        None
    }
}

/// Whether `j` has the shape of a reaction event.
pub open spec fn reaction_event_ok(j: Json) -> bool {
    let m = members(j);
    &&& j is Object
    &&& str_at(m, "event_ts"@) is Some
    &&& str_at(m, "user"@) is Some
    &&& str_at(m, "reaction"@) is Some
    &&& opt_str_at(m, "item_user"@) is Some
    &&& lookup(m, "item"@) matches Some(i) && reaction_item_ok(i)
}

/// Whether `e` holds exactly what the reaction event `j` carries.
pub open spec fn decodes_reaction_event(j: Json, e: ReactionEvent) -> bool {
    let m = members(j);
    &&& j is Object
    &&& str_at(m, "event_ts"@) == Some(e.event_ts@)
    &&& str_at(m, "user"@) == Some(e.user@)
    &&& str_at(m, "reaction"@) == Some(e.reaction@)
    &&& opt_str_at(m, "item_user"@) == Some(opt_view(e.item_user))
    &&& lookup(m, "item"@) matches Some(i) && decodes_reaction_item(i, e.item)
}

/// Decodes the fields of a `reaction_added` or `reaction_removed` event.
pub fn decode_reaction_event(j: &Json) -> (r: Option<ReactionEvent>)
    ensures
        r is Some <==> reaction_event_ok(*j),
        r matches Some(e) ==> decodes_reaction_event(*j, e),
{
    let m = match j {
        Json::Object(m) => m,
        _ => return None,
    };
    let event_ts = match get_str(m, "event_ts") {
        Some(s) => s,
        None => return None,
    };
    let user = match get_str(m, "user") {
        Some(s) => s,
        None => return None,
    };
    let reaction = match get_str(m, "reaction") {
        Some(s) => s,
        None => return None,
    };
    let item_user = match get_opt_str(m, "item_user") {
        Some(s) => s,
        None => return None,
    };
    let item = match find(m, "item") {
        Some(i) => match decode_reaction_item(i) {
            Some(x) => x,
            None => return None,
        },
        None => return None,
    };
    Some(ReactionEvent { event_ts, user, reaction, item_user, item })
}

/// Whether `j` has the shape of an event.
pub open spec fn event_ok(j: Json) -> bool {
    &&& j is Object
    &&& match str_at(members(j), "type"@) {
        Some(t) => if t == "message"@ {
            message_event_ok(j)
        } else if t == "reaction_added"@ || t == "reaction_removed"@ {
            reaction_event_ok(j)
        } else {
            false
        },
        None => false,
    }
}

/// Whether `e` holds exactly what the event `j` carries.
pub open spec fn decodes_event(j: Json, e: Event) -> bool {
    let tag = str_at(members(j), "type"@);
    match e {
        Event::Message(x) => tag == Some("message"@) && decodes_message_event(j, x),
        Event::ReactionAdded(x) => tag == Some("reaction_added"@) && decodes_reaction_event(j, x),
        Event::ReactionRemoved(x) => tag == Some("reaction_removed"@) && decodes_reaction_event(
            j,
            x,
        ),
    }
}

/// Decodes an event, selected by its `type` member.
pub fn decode_event(j: &Json) -> (r: Option<Event>)
    ensures
        r is Some <==> event_ok(*j),
        r matches Some(e) ==> decodes_event(*j, e),
{
    let m = match j {
        Json::Object(m) => m,
        _ => return None,
    };
    let t = match get_str(m, "type") {
        Some(t) => t,
        None => return None,
    };
    if t == String::from_str("message") {
        match decode_message_event(j) {
            Some(x) => Some(Event::Message(x)),
            None => None,
        }
    } else if t == String::from_str("reaction_added") {
        match decode_reaction_event(j) {
            Some(x) => Some(Event::ReactionAdded(x)),
            None => None,
        }
    } else if t == String::from_str("reaction_removed") {
        match decode_reaction_event(j) {
            Some(x) => Some(Event::ReactionRemoved(x)),
            None => None,
        }
    } else {
        None
    }
}

/// Whether `j` has the shape of an `events_api` payload.
pub open spec fn payload_ok(j: Json) -> bool {
    &&& j is Object
    &&& str_at(members(j), "team_id"@) is Some
    &&& lookup(members(j), "event"@) matches Some(e) && event_ok(e)
}

/// Whether `p` holds exactly what the `events_api` payload `j` carries.
pub open spec fn decodes_payload(j: Json, p: EventsApiPayload) -> bool {
    &&& j is Object
    &&& str_at(members(j), "team_id"@) == Some(p.team_id@)
    &&& lookup(members(j), "event"@) matches Some(e) && decodes_event(e, p.event)
}

/// Decodes the payload of an `events_api` envelope.
pub fn decode_payload(j: &Json) -> (r: Option<EventsApiPayload>)
    ensures
        r is Some <==> payload_ok(*j),
        r matches Some(p) ==> decodes_payload(*j, p),
{
    let m = match j {
        Json::Object(m) => m,
        _ => return None,
    };
    let team_id = match get_str(m, "team_id") {
        Some(s) => s,
        None => return None,
    };
    let event = match find(m, "event") {
        Some(e) => match decode_event(e) {
            Some(x) => x,
            None => return None,
        },
        None => return None,
    };
    Some(EventsApiPayload { team_id, event })
}

/// Whether a member holds a value of the shape `ok` asks for.
pub open spec fn member_ok(m: Seq<(String, Json)>, key: Seq<char>, ok: spec_fn(Json) -> bool) -> bool {
    lookup(m, key) matches Some(v) && ok(v)
}

/// Whether `j` has the shape of an inbound message.
pub open spec fn message_ok(j: Json) -> bool {
    let m = members(j);
    &&& j is Object
    &&& match str_at(m, "type"@) {
        Some(t) => if t == "hello"@ {
            &&& uint_at(m, "num_connections"@, U32_MAX) is Some
            &&& member_ok(m, "connection_info"@, |v| connection_info_ok(v))
            &&& member_ok(m, "debug_info"@, |v| debug_info_ok(v))
        } else if t == "disconnect"@ {
            &&& str_at(m, "reason"@) is Some
            &&& member_ok(m, "debug_info"@, |v| debug_info_ok(v))
        } else if t == "events_api"@ {
            &&& str_at(m, "envelope_id"@) is Some
            &&& member_ok(m, "payload"@, |v| payload_ok(v))
        } else {
            false
        },
        None => false,
    }
}

/// Whether `msg` holds exactly what the inbound message `j` carries.
pub open spec fn decodes_message(j: Json, msg: Message) -> bool {
    let m = members(j);
    &&& j is Object
    &&& match msg {
        Message::Hello { num_connections, connection_info, debug_info } => {
            &&& str_at(m, "type"@) == Some("hello"@)
            &&& uint_at(m, "num_connections"@, U32_MAX) == Some(num_connections as u64)
            &&& member_ok(m, "connection_info"@, |v| decodes_connection_info(v, connection_info))
            &&& member_ok(m, "debug_info"@, |v| decodes_debug_info(v, debug_info))
        },
        Message::Disconnect { reason, debug_info } => {
            &&& str_at(m, "type"@) == Some("disconnect"@)
            &&& str_at(m, "reason"@) == Some(reason@)
            &&& member_ok(m, "debug_info"@, |v| decodes_debug_info(v, debug_info))
        },
        Message::EventsApi { envelope_id, payload } => {
            &&& str_at(m, "type"@) == Some("events_api"@)
            &&& str_at(m, "envelope_id"@) == Some(envelope_id@)
            &&& member_ok(m, "payload"@, |v| decodes_payload(v, payload))
        },
    }
}

/// Decodes a `debug_info` member.
fn member_debug_info(m: &Vec<(String, Json)>) -> (r: Option<DebugInfo>)
    ensures
        r is Some <==> member_ok(m@, "debug_info"@, |v| debug_info_ok(v)),
        r matches Some(d) ==> member_ok(m@, "debug_info"@, |v| decodes_debug_info(v, d)),
{
    match find(m, "debug_info") {
        Some(d) => decode_debug_info(d),
        None => None,
    }
}

/// Decodes one inbound message, selected by its `type` member.
pub fn decode_message(j: &Json) -> (r: Option<Message>)
    ensures
        r is Some <==> message_ok(*j),
        r matches Some(msg) ==> decodes_message(*j, msg),
{
    let m = match j {
        Json::Object(m) => m,
        _ => return None,
    };
    let t = match get_str(m, "type") {
        Some(t) => t,
        None => return None,
    };
    if t == String::from_str("hello") {
        let num_connections = match get_uint(m, "num_connections", U32_MAX) {
            Some(n) => n as u32,
            None => return None,
        };
        let connection_info = match find(m, "connection_info") {
            Some(c) => match decode_connection_info(c) {
                Some(x) => x,
                None => return None,
            },
            None => return None,
        };
        let debug_info = match member_debug_info(m) {
            Some(d) => d,
            None => return None,
        };
        Some(Message::Hello { num_connections, connection_info, debug_info })
    } else if t == String::from_str("disconnect") {
        let reason = match get_str(m, "reason") {
            Some(s) => s,
            None => return None,
        };
        let debug_info = match member_debug_info(m) {
            Some(d) => d,
            None => return None,
        };
        Some(Message::Disconnect { reason, debug_info })
    } else if t == String::from_str("events_api") {
        let envelope_id = match get_str(m, "envelope_id") {
            Some(s) => s,
            None => return None,
        };
        let payload = match find(m, "payload") {
            Some(p) => match decode_payload(p) {
                Some(x) => x,
                None => return None,
            },
            None => return None,
        };
        Some(Message::EventsApi { envelope_id, payload })
    } else {
        None
    }
}

} // verus!
