//! The trusted surface over the JSON library: picking fields out of
//! parsed values, and extracting the recognized fields of an inbound
//! message straight from its text.
//!
//! A parsed JSON value is opaque to the verifier; every fact the protocol
//! logic needs from one is first extracted into a plain value through the
//! small functions here.  Extraction from text is a function of the text
//! alone, so each such field carries a name that the extractor's contract
//! applies; the decisions over the extracted plain values are then
//! verified in [`crate::frame`] against those names.

use vstd::prelude::*;

verus! {

/// A parsed JSON value of the outside JSON library, carried opaquely.
#[verifier::external_type_specification]
#[verifier::external_body]
pub struct ExValue(serde_json::Value);

/// Relies on serde_json::Value::get: looks a key up in a JSON object,
/// yielding nothing for absent keys and non-objects.
#[verifier::external_body]
pub(crate) fn json_get<'a>(v: &'a serde_json::Value, key: &str) -> (r: Option<
    &'a serde_json::Value,
>) {
    v.get(key)
}

/// Relies on serde_json::Value::as_u64: the value of a JSON number that is
/// an unsigned 64-bit integer.
#[verifier::external_body]
pub(crate) fn json_u64(v: &serde_json::Value) -> (r: Option<u64>) {
    v.as_u64()
}

/// Relies on serde_json::Value::as_str: the text of a JSON string value,
/// copied out.
#[verifier::external_body]
pub(crate) fn json_string(v: &serde_json::Value) -> (r: Option<String>) {
    match v.as_str() {
        Some(s) => Some(s.to_owned()),
        None => None,
    }
}

/// Relies on serde_json::Value::clone: an owned copy equal to the parsed
/// value it was taken from.
#[verifier::external_body]
pub(crate) fn json_clone(v: &serde_json::Value) -> (r: serde_json::Value)
    ensures
        r == *v,
{
    v.clone()
}

// Text-level field extraction.  Parsing is a function of the message text
// alone, so each field a gateway frame is decided on gets a name, and one
// trusted extractor per field applies it; the decode logic over the
// extracted plain values is then verified against those names.

/// The `op` field of a message text: present when the text is JSON with a
/// numeric `op`.
pub uninterp spec fn op_of(text: Seq<char>) -> Option<u64>;

/// The `s` field of a message text.
pub uninterp spec fn sequence_of(text: Seq<char>) -> Option<u64>;

/// The `t` field of a message text.
pub uninterp spec fn event_name_of(text: Seq<char>) -> Option<Seq<char>>;

/// The `d` field of a message text read as a number.
pub uninterp spec fn heartbeat_d_of(text: Seq<char>) -> Option<u64>;

/// The `d.heartbeat_interval` field of a message text.
pub uninterp spec fn hello_interval_of(text: Seq<char>) -> Option<u64>;

/// The `d.session_id` field of a message text.
pub uninterp spec fn ready_session_of(text: Seq<char>) -> Option<Seq<char>>;

/// The `d.v` field of a message text.
pub uninterp spec fn ready_version_of(text: Seq<char>) -> Option<u64>;

/// Whether a message text is JSON carrying a `d` field.
pub uninterp spec fn has_payload(text: Seq<char>) -> bool;

/// Relies on serde_json::from_str, Value::get and Value::as_u64: the
/// `op` field of the text, a function of the text alone.
#[verifier::external_body]
pub(crate) fn extract_op(text: &str) -> (r: Option<u64>)
    ensures
        r == op_of(text@),
{
    let v: serde_json::Value = match serde_json::from_str(text) {
        Ok(v) => v,
        Err(_) => return None,
    };
    match v.get("op") {
        Some(x) => x.as_u64(),
        None => None,
    }
}

/// Relies on serde_json::from_str, Value::get and Value::as_u64: the
/// `s` field of the text, a function of the text alone.
#[verifier::external_body]
pub(crate) fn extract_sequence(text: &str) -> (r: Option<u64>)
    ensures
        r == sequence_of(text@),
{
    let v: serde_json::Value = match serde_json::from_str(text) {
        Ok(v) => v,
        Err(_) => return None,
    };
    match v.get("s") {
        Some(x) => x.as_u64(),
        None => None,
    }
}

/// Relies on serde_json::from_str, Value::get and Value::as_str: the
/// `t` field of the text, a function of the text alone.
#[verifier::external_body]
pub(crate) fn extract_event_name(text: &str) -> (r: Option<String>)
    ensures
        r matches Some(n) ==> event_name_of(text@) == Some(n@),
        r is None ==> event_name_of(text@) is None,
{
    let v: serde_json::Value = match serde_json::from_str(text) {
        Ok(v) => v,
        Err(_) => return None,
    };
    match v.get("t") {
        Some(x) => x.as_str().map(str::to_owned),
        None => None,
    }
}

/// Relies on serde_json::from_str, Value::get and Value::as_u64: the
/// `d` field of the text read as a number, a function of the text alone.
#[verifier::external_body]
pub(crate) fn extract_heartbeat_d(text: &str) -> (r: Option<u64>)
    ensures
        r == heartbeat_d_of(text@),
{
    let v: serde_json::Value = match serde_json::from_str(text) {
        Ok(v) => v,
        Err(_) => return None,
    };
    match v.get("d") {
        Some(x) => x.as_u64(),
        None => None,
    }
}

/// Relies on serde_json::from_str, Value::get and Value::as_u64: the
/// `d.heartbeat_interval` field of the text, a function of the text alone.
#[verifier::external_body]
pub(crate) fn extract_hello_interval(text: &str) -> (r: Option<u64>)
    ensures
        r == hello_interval_of(text@),
{
    let v: serde_json::Value = match serde_json::from_str(text) {
        Ok(v) => v,
        Err(_) => return None,
    };
    let d = match v.get("d") {
        Some(d) => d,
        None => return None,
    };
    match d.get("heartbeat_interval") {
        Some(x) => x.as_u64(),
        None => None,
    }
}

/// Relies on serde_json::from_str, Value::get and Value::as_str: the
/// `d.session_id` field of the text, a function of the text alone.
#[verifier::external_body]
pub(crate) fn extract_ready_session(text: &str) -> (r: Option<String>)
    ensures
        r matches Some(sid) ==> ready_session_of(text@) == Some(sid@),
        r is None ==> ready_session_of(text@) is None,
{
    let v: serde_json::Value = match serde_json::from_str(text) {
        Ok(v) => v,
        Err(_) => return None,
    };
    let d = match v.get("d") {
        Some(d) => d,
        None => return None,
    };
    match d.get("session_id") {
        Some(x) => x.as_str().map(str::to_owned),
        None => None,
    }
}

/// Relies on serde_json::from_str, Value::get and Value::as_u64: the
/// `d.v` field of the text, a function of the text alone.
#[verifier::external_body]
pub(crate) fn extract_ready_version(text: &str) -> (r: Option<u64>)
    ensures
        r == ready_version_of(text@),
{
    let v: serde_json::Value = match serde_json::from_str(text) {
        Ok(v) => v,
        Err(_) => return None,
    };
    let d = match v.get("d") {
        Some(d) => d,
        None => return None,
    };
    match d.get("v") {
        Some(x) => x.as_u64(),
        None => None,
    }
}

/// Relies on serde_json::from_str, Value::get and Value::clone: the `d`
/// field of the text, carried through opaquely; its presence is a
/// function of the text alone.
#[verifier::external_body]
pub(crate) fn extract_payload(text: &str) -> (r: Option<serde_json::Value>)
    ensures
        r is Some <==> has_payload(text@),
{
    let v: serde_json::Value = match serde_json::from_str(text) {
        Ok(v) => v,
        Err(_) => return None,
    };
    match v.get("d") {
        Some(d) => Some(d.clone()),
        None => None,
    }
}

} // verus!
