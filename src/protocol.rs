//! Wire message types and the acknowledgment encoder.
use vstd::prelude::*;

pub mod events_api;

use self::events_api::Event;

verus! {

/// One decoded inbound text frame, selected by its `type` field.
#[derive(Debug, Clone)]
pub enum Message {
    Hello { num_connections: u32, connection_info: ConnectionInfo, debug_info: DebugInfo },
    Disconnect { reason: String, debug_info: DebugInfo },
    EventsApi { envelope_id: String, payload: EventsApiPayload },
}

/// The outbound acknowledgment of an `events_api` envelope.
#[derive(Debug, Clone)]
pub struct Acknowledge {
    pub envelope_id: String,
    pub payload: Option<String>,
}

/// The JSON text (quoted and escaped) of a string, as serde_json writes it.
pub uninterp spec fn json_string_of(s: Seq<char>) -> Seq<char>;

/// Relies on serde_json's `Display` for `Value::String`: it writes the string
/// as one compact JSON string literal, a function of the characters alone.
#[verifier::external_body]
fn json_string(s: &str) -> (r: String)
    ensures
        r@ == json_string_of(s@),
{
    serde_json::Value::String(s.to_string()).to_string()
}

/// The views of a list of already-written (key, value) pairs.
pub open spec fn pair_views(q: Seq<(String, String)>) -> Seq<(Seq<char>, Seq<char>)> {
    q.map_values(|p: (String, String)| (p.0@, p.1@))
}

/// Already-written members `k:v`, joined by commas.
pub open spec fn joined_members(q: Seq<(Seq<char>, Seq<char>)>) -> Seq<char>
    decreases q.len(),
{
    if q.len() == 0 {
        Seq::empty()
    } else {
        let sep = if q.len() == 1 {
            Seq::empty()
        } else {
            seq![',']
        };
        joined_members(q.drop_last()) + sep + q.last().0 + seq![':'] + q.last().1
    }
}

/// A JSON object written from already-written keys and values, in order.
pub open spec fn object_of_written(q: Seq<(Seq<char>, Seq<char>)>) -> Seq<char> {
    seq!['{'] + joined_members(q) + seq!['}']
}

/// The members of an acknowledgment object, keys and values unquoted: the
/// envelope identifier, then the payload only where there is one.
pub open spec fn ack_members(ack: Acknowledge) -> Seq<(Seq<char>, Seq<char>)> {
    match ack.payload {
        Some(p) => seq![("envelope_id"@, ack.envelope_id@), ("payload"@, p@)],
        None => seq![("envelope_id"@, ack.envelope_id@)],
    }
}

/// Each key and value of a member list written as a JSON string.
pub open spec fn quote_members(m: Seq<(Seq<char>, Seq<char>)>) -> Seq<(Seq<char>, Seq<char>)> {
    m.map_values(|p: (Seq<char>, Seq<char>)| (json_string_of(p.0), json_string_of(p.1)))
}

/// The compact JSON text of an object with string members.
pub open spec fn object_text(m: Seq<(Seq<char>, Seq<char>)>) -> Seq<char> {
    object_of_written(quote_members(m))
}

/// Writes a JSON object whose keys and values are already JSON texts, in the
/// order given, without whitespace.
pub fn write_object(written: &Vec<(String, String)>) -> (r: String)
    ensures
        r@ == object_of_written(pair_views(written@)),
{
    proof {
        reveal_strlit("{");
        reveal_strlit("}");
    }
    let ghost q = pair_views(written@);
    let mut out = String::from_str("{");
    let mut i: usize = 0;
    while i < written.len()
        invariant
            i <= written@.len(),
            q == pair_views(written@),
            out@ == seq!['{'] + joined_members(q.take(i as int)),
        decreases written@.len() - i,
    {
        proof {
            reveal_strlit(",");
            reveal_strlit(":");
        }
        let ghost before = out@;
        if i > 0 {
            out.append(",");
        }
        let k = written[i].0.as_str();
        let v = written[i].1.as_str();
        out.append(k);
        out.append(":");
        out.append(v);
        proof {
            let t = q.take(i + 1);
            let sep: Seq<char> = if i == 0 {
                Seq::empty()
            } else {
                seq![',']
            };
            assert(out@ =~= before + sep + k@ + seq![':'] + v@);
            assert(t.drop_last() =~= q.take(i as int));
            assert(t.last() == q[i as int]);
            assert(q[i as int] == (k@, v@));
            assert(joined_members(t) == joined_members(q.take(i as int)) + sep + k@ + seq![':']
                + v@);
            assert(out@ =~= seq!['{'] + joined_members(t));
        }
        i = i + 1;
    }
    out.append("}");
    assert(q.take(i as int) =~= q);
    out
}

/// Whether a member list has a member with this key.
pub open spec fn has_key(m: Seq<(Seq<char>, Seq<char>)>, key: Seq<char>) -> bool {
    exists|i: int| 0 <= i < m.len() && (#[trigger] m[i]).0 == key
}

/// The acknowledgment object always carries the envelope identifier; it has a
/// `payload` member exactly when a payload is present, and that member then
/// holds the payload. Without a payload the key is left out, not set to null.
pub proof fn lemma_ack_payload_member(ack: Acknowledge)
    ensures
        has_key(ack_members(ack), "envelope_id"@),
        ack_members(ack)[0] == ("envelope_id"@, ack.envelope_id@),
        has_key(ack_members(ack), "payload"@) <==> ack.payload is Some,
        forall|i: int|
            0 <= i < ack_members(ack).len() && (#[trigger] ack_members(ack)[i]).0 == "payload"@
                ==> ack_members(ack)[i].1 == ack.payload->0@,
{
    reveal_strlit("envelope_id");
    reveal_strlit("payload");
    let m = ack_members(ack);
    assert("envelope_id"@[0] != "payload"@[0]);
    assert(m[0].0 == "envelope_id"@);
    if ack.payload is Some {
        assert(m[1].0 == "payload"@);
    }
}

impl Acknowledge {
    /// The acknowledgment as compact JSON: `{"envelope_id":..}`, with a
    /// `"payload"` member after it only where a payload is present.
    pub fn to_json(&self) -> (r: String)
        ensures
            r@ == object_text(ack_members(*self)),
    {
        let mut written: Vec<(String, String)> = Vec::new();
        written.push((json_string("envelope_id"), json_string(self.envelope_id.as_str())));
        match &self.payload {
            Some(p) => {
                written.push((json_string("payload"), json_string(p.as_str())));
            },
            None => {},
        }
        let r = write_object(&written);
        assert(pair_views(written@) =~= quote_members(ack_members(*self)));
        r
    }
}

#[derive(Debug, Clone)]
pub struct ConnectionInfo {
    pub app_id: String,
}

#[derive(Debug, Clone)]
pub struct DebugInfo {
    pub host: String,
    pub started: Option<String>,
    pub build_number: Option<u32>,
    pub approximate_connection_time: Option<u64>,
}

#[derive(Debug, Clone)]
pub struct EventsApiPayload {
    pub team_id: String,
    pub event: Event,
}

} // verus!
