//! The inbound half of the frame codec: every message of the gateway is one
//! JSON object with a numeric opcode `op`, a payload `d` and — on dispatches
//! only — a sequence number `s` and an event name `t`.
//!
//! [`decode_frame`] pulls those fields out of the JSON text through the
//! trusted surface in [`crate::json`]; [`classify_frame`] then decides,
//! over plain values only, which frame arrived or which decode error to
//! raise, and that decision table is what the contract here pins down.

use vstd::prelude::*;

use crate::error::Error;
use crate::json::{
    event_name_of, extract_event_name, extract_heartbeat_d, extract_hello_interval, extract_op,
    extract_payload, extract_ready_session, extract_ready_version, extract_sequence, has_payload,
    heartbeat_d_of, hello_interval_of, json_clone, json_get, json_string, json_u64, op_of,
    ready_session_of, ready_version_of, sequence_of,
};

verus! {

/// Opcode of a dispatched event.
pub const OP_DISPATCH: u64 = 0;

/// Opcode of a heartbeat, outbound or server-requested.
pub const OP_HEARTBEAT: u64 = 1;

/// Opcode of the outbound identify handshake frame.
pub const OP_IDENTIFY: u64 = 2;

/// Opcode of an outbound presence update.
pub const OP_PRESENCE: u64 = 3;

/// Opcode of an outbound voice-state update.
pub const OP_VOICE_STATE: u64 = 4;

/// Opcode of the outbound resume frame.
pub const OP_RESUME: u64 = 6;

/// Opcode of an inbound reconnect demand.
pub const OP_RECONNECT: u64 = 7;

/// Opcode of an outbound member-chunk request.
pub const OP_REQUEST_MEMBERS: u64 = 8;

/// Opcode of an inbound session invalidation.
pub const OP_INVALIDATE: u64 = 9;

/// Opcode of the inbound hello frame.
pub const OP_HELLO: u64 = 10;

/// Opcode of an inbound heartbeat acknowledgement.
pub const OP_HEARTBEAT_ACK: u64 = 11;

/// Opcode of an outbound server sync request.
pub const OP_SYNC_SERVERS: u64 = 12;

/// Opcode of an outbound call sync request.
pub const OP_SYNC_CALLS: u64 = 13;

/// What a `READY` dispatch tells the state machine about the new session.
#[derive(Debug, Clone, PartialEq)]
pub struct ReadyData {
    /// The gateway protocol version the platform answered with.
    pub version: Option<u64>,
    /// The identifier of the session that was just established.
    pub session_id: String,
}

/// A dispatched event: a named payload with a sequence number.
#[derive(Debug)]
pub struct Dispatch {
    /// The sequence number of the event.
    pub sequence: u64,
    /// The name of the event, as the `t` field spells it.
    pub name: String,
    /// The session data extracted from a `READY` dispatch.
    pub ready: Option<ReadyData>,
    /// The raw payload, passed through to the caller undecoded.
    pub payload: serde_json::Value,
}

/// One decoded inbound gateway frame.
#[derive(Debug)]
pub enum GatewayFrame {
    /// A dispatched event.
    Dispatch(Dispatch),
    /// The platform asks for an immediate heartbeat.
    HeartbeatRequest {
        /// The sequence number the request carried, if any.
        sequence: Option<u64>,
    },
    /// The platform demands a fresh connection.
    Reconnect,
    /// The current session is invalid; treated as non-resumable.
    InvalidateSession,
    /// The first frame of a connection, fixing the heartbeat cadence.
    Hello {
        /// Milliseconds between heartbeats.
        heartbeat_interval: u64,
    },
    /// Acknowledgement of a heartbeat this side sent.
    HeartbeatAck,
}

/// The plain fields extracted from one inbound JSON message, before the
/// frame they make up has been decided.
pub struct RawFrame {
    /// The `op` field, when present and numeric.
    pub op: Option<u64>,
    /// The `s` field, when present and numeric.
    pub sequence: Option<u64>,
    /// The `t` field, when present and a string.
    pub event_name: Option<String>,
    /// The `d` field read as a number, as a heartbeat request carries it.
    pub heartbeat_sequence: Option<u64>,
    /// The `d.heartbeat_interval` field, as a hello carries it.
    pub hello_interval: Option<u64>,
    /// The session data inside `d`, when the event name is `READY`.
    pub ready: Option<ReadyData>,
    /// The `d` field itself, carried through for the caller.
    pub payload: Option<serde_json::Value>,
}

/// The event name that announces a fresh session.
pub open spec fn ready_name() -> Seq<char> {
    "READY"@
}

/// Decide which frame a set of extracted fields makes up.
///
/// This is the codec's decision table: every recognized inbound opcode maps
/// to its frame, a malformed frame of a recognized opcode is a decode
/// error, and so is any opcode this side only ever sends, or none at all.
pub fn classify_frame(raw: RawFrame) -> (r: Result<GatewayFrame, Error>)
    ensures
        raw.op is None ==> r matches Err(Error::Decode(_)),
        raw.op == Some(OP_DISPATCH) ==> (if raw.sequence is None || raw.event_name is None
            || raw.payload is None || (raw.event_name matches Some(n) && n@ == ready_name()
            && raw.ready is None) {
            r matches Err(Error::Decode(_))
        } else {
            r matches Ok(GatewayFrame::Dispatch(d)) && d.sequence == raw.sequence->0
                && d.name == raw.event_name->0 && d.ready == raw.ready && d.payload
                == raw.payload->0
        }),
        raw.op == Some(OP_HEARTBEAT) ==> r == Ok::<GatewayFrame, Error>(
            GatewayFrame::HeartbeatRequest { sequence: raw.heartbeat_sequence },
        ),
        raw.op == Some(OP_RECONNECT) ==> r == Ok::<GatewayFrame, Error>(GatewayFrame::Reconnect),
        raw.op == Some(OP_INVALIDATE) ==> r == Ok::<GatewayFrame, Error>(
            GatewayFrame::InvalidateSession,
        ),
        raw.op == Some(OP_HELLO) && raw.hello_interval is Some ==> r == Ok::<GatewayFrame, Error>(
            GatewayFrame::Hello { heartbeat_interval: raw.hello_interval->0 },
        ),
        raw.op == Some(OP_HELLO) && raw.hello_interval is None ==> r matches Err(Error::Decode(_)),
        raw.op == Some(OP_HEARTBEAT_ACK) ==> r == Ok::<GatewayFrame, Error>(
            GatewayFrame::HeartbeatAck,
        ),
        (raw.op matches Some(op) && op != OP_DISPATCH && op != OP_HEARTBEAT && op != OP_RECONNECT
            && op != OP_INVALIDATE && op != OP_HELLO && op != OP_HEARTBEAT_ACK) ==> r matches Err(
            Error::Decode(_),
        ),
{
    let op = match raw.op {
        Some(op) => op,
        None => {
            return Err(Error::Decode(String::from_str("frame without a numeric opcode")));
        },
    };
    if op == OP_DISPATCH {
        let sequence = match raw.sequence {
            Some(s) => s,
            None => {
                return Err(Error::Decode(String::from_str("dispatch without a sequence number")));
            },
        };
        let name = match raw.event_name {
            Some(n) => n,
            None => {
                return Err(Error::Decode(String::from_str("dispatch without an event name")));
            },
        };
        let payload = match raw.payload {
            Some(p) => p,
            None => {
                return Err(Error::Decode(String::from_str("dispatch without a payload")));
            },
        };
        if str_eq(&name, "READY") && raw.ready.is_none() {
            return Err(Error::Decode(String::from_str("ready event without a session")));
        }
        Ok(GatewayFrame::Dispatch(Dispatch { sequence, name, ready: raw.ready, payload }))
    } else if op == OP_HEARTBEAT {
        Ok(GatewayFrame::HeartbeatRequest { sequence: raw.heartbeat_sequence })
    } else if op == OP_RECONNECT {
        Ok(GatewayFrame::Reconnect)
    } else if op == OP_INVALIDATE {
        Ok(GatewayFrame::InvalidateSession)
    } else if op == OP_HELLO {
        match raw.hello_interval {
            Some(heartbeat_interval) => Ok(GatewayFrame::Hello { heartbeat_interval }),
            None => Err(Error::Decode(String::from_str("hello without a heartbeat interval"))),
        }
    } else if op == OP_HEARTBEAT_ACK {
        Ok(GatewayFrame::HeartbeatAck)
    } else {
        Err(Error::Decode(String::from_str("unexpected inbound opcode")))
    }
}

/// Whether a string equals a literal.
pub fn str_eq(s: &String, lit: &str) -> (r: bool)
    ensures
        r == (s@ == lit@),
{
    let other = String::from_str(lit);
    *s == other
}

/// Decode one inbound message text into a frame: extract the recognized
/// fields through the trusted text-level extractors and classify them.
/// The contract states the whole decision over the named field values:
/// which frame each recognized opcode decodes to, and that a message that
/// is not JSON, carries no recognized opcode, or is malformed for its
/// opcode yields a decode error.  Only the opaque dispatch payload, which
/// is passed through to the caller undecoded, stays unconstrained.
pub fn decode_frame(text: &str) -> (r: Result<GatewayFrame, Error>)
    ensures
        op_of(text@) is None ==> (r matches Err(Error::Decode(_))),
        op_of(text@) == Some(OP_DISPATCH) ==> (if sequence_of(text@) is None || event_name_of(
            text@,
        ) is None || !has_payload(text@) || (event_name_of(text@) == Some(ready_name())
            && ready_session_of(text@) is None) {
            r matches Err(Error::Decode(_))
        } else {
            r matches Ok(GatewayFrame::Dispatch(d)) && d.sequence == sequence_of(text@)->0
                && Some(d.name@) == event_name_of(text@) && (d.ready is Some <==> event_name_of(
                text@,
            ) == Some(ready_name())) && (d.ready matches Some(rd) ==> Some(rd.session_id@)
                == ready_session_of(text@) && rd.version == ready_version_of(text@))
        }),
        op_of(text@) == Some(OP_HEARTBEAT) ==> (r matches Ok(GatewayFrame::HeartbeatRequest {
            sequence,
        }) && sequence == heartbeat_d_of(text@)),
        op_of(text@) == Some(OP_RECONNECT) ==> (r matches Ok(GatewayFrame::Reconnect)),
        op_of(text@) == Some(OP_INVALIDATE) ==> (r matches Ok(GatewayFrame::InvalidateSession)),
        op_of(text@) == Some(OP_HELLO) && hello_interval_of(text@) is Some ==> (r matches Ok(
            GatewayFrame::Hello { heartbeat_interval },
        ) && Some(heartbeat_interval) == hello_interval_of(text@)),
        op_of(text@) == Some(OP_HELLO) && hello_interval_of(text@) is None ==> (r matches Err(
            Error::Decode(_),
        )),
        op_of(text@) == Some(OP_HEARTBEAT_ACK) ==> (r matches Ok(GatewayFrame::HeartbeatAck)),
        (op_of(text@) matches Some(op) && op != OP_DISPATCH && op != OP_HEARTBEAT
            && op != OP_RECONNECT && op != OP_INVALIDATE && op != OP_HELLO
            && op != OP_HEARTBEAT_ACK) ==> (r matches Err(Error::Decode(_))),
{
    let op = extract_op(text);
    let sequence = extract_sequence(text);
    let event_name = extract_event_name(text);
    let heartbeat_sequence = extract_heartbeat_d(text);
    let hello_interval = extract_hello_interval(text);
    let is_ready = match &event_name {
        Some(n) => str_eq(n, "READY"),
        None => false,
    };
    let ready = if is_ready {
        match extract_ready_session(text) {
            Some(session_id) => Some(
                ReadyData { version: extract_ready_version(text), session_id },
            ),
            None => None,
        }
    } else {
        None
    };
    let payload = extract_payload(text);
    classify_frame(
        RawFrame { op, sequence, event_name, heartbeat_sequence, hello_interval, ready, payload },
    )
}

/// Decode one parsed inbound message into a frame: extract the recognized
/// fields and classify them.
pub fn decode_value(value: &serde_json::Value) -> (r: Result<GatewayFrame, Error>) {
    let op = match json_get(value, "op") {
        Some(x) => json_u64(x),
        None => None,
    };
    let sequence = match json_get(value, "s") {
        Some(x) => json_u64(x),
        None => None,
    };
    let event_name = match json_get(value, "t") {
        Some(x) => json_string(x),
        None => None,
    };
    let data = json_get(value, "d");
    let heartbeat_sequence = match data {
        Some(x) => json_u64(x),
        None => None,
    };
    let hello_interval = match data {
        Some(x) => match json_get(x, "heartbeat_interval") {
            Some(y) => json_u64(y),
            None => None,
        },
        None => None,
    };
    let is_ready = match &event_name {
        Some(n) => str_eq(n, "READY"),
        None => false,
    };
    let ready = if is_ready {
        match data {
            Some(x) => {
                let session_id = match json_get(x, "session_id") {
                    Some(y) => json_string(y),
                    None => None,
                };
                let version = match json_get(x, "v") {
                    Some(y) => json_u64(y),
                    None => None,
                };
                match session_id {
                    Some(session_id) => Some(ReadyData { version, session_id }),
                    None => None,
                }
            },
            None => None,
        }
    } else {
        None
    };
    let payload = match data {
        Some(x) => Some(json_clone(x)),
        None => None,
    };
    classify_frame(
        RawFrame { op, sequence, event_name, heartbeat_sequence, hello_interval, ready, payload },
    )
}

} // verus!
