//! The line-delimited IPC envelope exchanged with the workflow runner.
use vstd::prelude::*;

use crate::json::JsonValue;
use crate::text;

verus! {

/// One IPC message: protocol version, id, kind (`command`, `response`,
/// `error`, `event`, `request`), name and payload.
#[derive(Debug)]
pub struct Message {
    pub v: String,
    pub id: String,
    pub kind: String,
    pub name: String,
    pub payload: JsonValue,
}

/// The protocol version every message carries.
pub open spec fn protocol_version() -> Seq<char> {
    "v1"@
}

impl Message {
    /// A `command` message.
    pub fn command(id: &str, name: &str, payload: JsonValue) -> (m: Message)
        ensures
            m.v@ == protocol_version(),
            m.id@ == id@,
            m.kind@ == "command"@,
            m.name@ == name@,
            m.payload == payload,
    {
        Message {
            v: version(),
            id: text::owned(id),
            kind: text::owned("command"),
            name: text::owned(name),
            payload,
        }
    }

    /// A `response` message that answers the request `request_id`.
    pub fn response(request_id: &str, name: &str, payload: JsonValue) -> (m: Message)
        ensures
            m.v@ == protocol_version(),
            m.id@ == request_id@,
            m.kind@ == "response"@,
            m.name@ == name@,
            m.payload == payload,
    {
        Message {
            v: version(),
            id: text::owned(request_id),
            kind: text::owned("response"),
            name: text::owned(name),
            payload,
        }
    }

    /// An `error` message answering `request_id`, whose payload is the object
    /// `{"error": message}`.
    pub fn error_response(request_id: &str, name: &str, message: &str) -> (m: Message)
        ensures
            m.v@ == protocol_version(),
            m.id@ == request_id@,
            m.kind@ == "error"@,
            m.name@ == name@,
            m.payload.str_field("error"@) == Some(message@),
            m.payload matches JsonValue::Object(f) && f@.len() == 1,
    {
        let key = text::owned("error");
        let mut fields: Vec<(String, JsonValue)> = Vec::new();
        fields.push((key, JsonValue::string(message)));
        let payload = JsonValue::Object(fields);
        proof {
            assert(payload.field("error"@) == Some(fields@[0].1));
        }
        Message {
            v: version(),
            id: text::owned(request_id),
            kind: text::owned("error"),
            name: text::owned(name),
            payload,
        }
    }
}

fn version() -> (s: String)
    ensures
        s@ == protocol_version(),
{
    text::owned("v1")
}

} // verus!
