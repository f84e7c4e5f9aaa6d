//! The wire side of one connection attempt: decoding lines of the
//! newline-delimited JSON stream, and the plan of the subscription request.
//!
//! The JSON schema is decoded by serde_json behind two trusted functions;
//! everything that depends on what a line yielded is verified against their
//! named results.

use vstd::prelude::*;

use crate::events::ReceivedMessage;
use crate::events::ServerEvent;

verus! {

/// What the minimal decode of a line yields: the numeric `time` field of the
/// JSON object, if the line is a JSON object carrying one. A function of the
/// line alone.
pub uninterp spec fn min_time_of(line: Seq<char>) -> Option<u64>;

/// The fields of a line that the listener inspects, as one plain record:
/// the `event` tag naming the kind, the id, the timestamp, and the optional
/// expiry and topic.
#[derive(Debug, Clone, PartialEq, Eq)]
pub struct LineFields {
    pub tag: String,
    pub id: String,
    pub time: u64,
    pub expires: Option<u64>,
    pub topic: Option<String>,
}

/// What the full decode of a line yields: the inspected fields of the JSON
/// object the line encodes, if it is an object carrying the mandatory `event`,
/// `id` and `time` fields. A function of the line alone.
pub uninterp spec fn fields_of(line: Seq<char>) -> Option<LineFields>;

/// Relies on serde_json (`from_str`, `Value::get`, `Value::as_u64`): the
/// numeric `time` field of the line, when the line is a JSON object with
/// one. serde_json parses deterministically, so the result depends on the
/// line alone.
#[verifier::external_body]
pub(crate) fn decode_min_time(line: &str) -> (r: Option<u64>)
    ensures
        r == min_time_of(line@),
{
    let v: serde_json::Value = match serde_json::from_str(line) {
        Ok(v) => v,
        Err(_) => return None,
    };
    v.get("time").and_then(serde_json::Value::as_u64)
}

/// Relies on serde_json (`from_str`, `Value::get`, `Value::as_u64`,
/// `Value::as_str`): extracts the inspected fields of the JSON object a line
/// encodes. serde_json parses deterministically, so the result depends on
/// the line alone.
#[verifier::external_body]
pub(crate) fn decode_fields(line: &str) -> (r: Option<LineFields>)
    ensures
        r == fields_of(line@),
{
    let v: serde_json::Value = serde_json::from_str(line).ok()?;
    Some(LineFields {
        tag: v.get("event")?.as_str()?.to_owned(),
        id: v.get("id")?.as_str()?.to_owned(),
        time: v.get("time")?.as_u64()?,
        expires: v.get("expires").and_then(|e| e.as_u64()),
        topic: v.get("topic").and_then(|t| t.as_str()).map(|t| t.to_owned()),
    })
}

/// The server event that decoded fields stand for, if any: the tag names the
/// kind; `open` and `keepalive` need a topic; an unknown tag is no event —
/// a future kind must become an explicit new variant, nothing is silently
/// swallowed. For a `message`, the raw line is the payload handed on.
pub open spec fn decoded_event(fields: LineFields, raw: Seq<char>, r: Option<ServerEvent>) -> bool {
    if fields.tag@ == "open"@ {
        match fields.topic {
            Some(topic) => r == Some(ServerEvent::Open {
                id: fields.id,
                time: fields.time as usize,
                expires: spec_expires(fields.expires),
                topic,
            }),
            None => r is None,
        }
    } else if fields.tag@ == "message"@ {
        r matches Some(ServerEvent::Message(m)) && m.id == fields.id && m.time == fields.time
            && m.raw@ == raw
    } else if fields.tag@ == "keepalive"@ {
        match fields.topic {
            Some(topic) => r == Some(ServerEvent::KeepAlive {
                id: fields.id,
                time: fields.time as usize,
                expires: spec_expires(fields.expires),
                topic,
            }),
            None => r is None,
        }
    } else {
        r is None
    }
}

/// The expiry field as the event types carry it.
pub open spec fn spec_expires(expires: Option<u64>) -> Option<usize> {
    match expires {
        Some(e) => Some(e as usize),
        None => None,
    }
}

/// Build the server event that decoded fields encode: dispatch by the tag.
pub fn event_from_fields(fields: LineFields, line: &str) -> (r: Option<ServerEvent>)
    ensures
        decoded_event(fields, line@, r),
{
    proof {
        reveal_strlit("open");
        reveal_strlit("message");
        reveal_strlit("keepalive");
        assert("open"@.len() == 4);
        assert("message"@.len() == 7);
        assert("keepalive"@.len() == 9);
    }
    let tag_open: String = "open".to_owned();
    let tag_message: String = "message".to_owned();
    let tag_keepalive: String = "keepalive".to_owned();
    if fields.tag == tag_message {
        Some(ServerEvent::Message(ReceivedMessage {
            id: fields.id,
            time: fields.time,
            raw: line.to_owned(),
        }))
    } else if fields.tag == tag_open || fields.tag == tag_keepalive {
        let is_open: bool = fields.tag == tag_open;
        match fields.topic {
            None => None,
            Some(topic) => {
                let time: usize = #[verifier::truncate] (fields.time as usize);
                let expires: Option<usize> = match fields.expires {
                    Some(e) => Some(#[verifier::truncate] (e as usize)),
                    None => None,
                };
                if is_open {
                    Some(ServerEvent::Open { id: fields.id, time, expires, topic })
                } else {
                    Some(ServerEvent::KeepAlive { id: fields.id, time, expires, topic })
                }
            },
        }
    } else {
        None
    }
}

/// Basic-auth credentials for an endpoint.
#[derive(Debug, Clone, PartialEq, Eq)]
pub struct Credentials {
    pub username: String,
    pub password: String,
}

/// Everything one subscription request is made of: the URL ingredients
/// (endpoint, topic, resume cursor), the streaming headers, and the optional
/// basic auth. The runtime turns a plan into an actual HTTP request.
#[derive(Debug, Clone, PartialEq, Eq)]
pub struct RequestPlan {
    pub endpoint: String,
    pub topic: String,
    pub since: u64,
    pub content_type: String,
    pub transfer_encoding: String,
    pub basic_auth: Option<Credentials>,
}

} // verus!
