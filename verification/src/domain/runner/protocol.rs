//! Runner protocol helpers: loop control, capability request payloads and
//! the cancel and shutdown commands.
use vstd::prelude::*;

use crate::domain::ipc::Message;
use crate::json::JsonValue;
use crate::text;

verus! {

/// Whether the IPC loop keeps reading.
#[derive(Debug, Clone, Copy, PartialEq, Eq, Structural)]
pub enum LoopControl {
    Continue,
    Stop,
}

/// Which required field a capability request lacks.
#[derive(Debug, Clone, Copy, PartialEq, Eq, Structural)]
pub enum ProtocolError {
    MissingCapability,
    MissingParams,
    MissingRequestId,
}

impl ProtocolError {
    /// The error's text.
    pub fn message(&self) -> (r: String)
        ensures
            r@ == match self {
                ProtocolError::MissingCapability => "capability_request missing payload.capability"@,
                ProtocolError::MissingParams => "capability_request missing payload.params"@,
                ProtocolError::MissingRequestId => "capability_request missing payload.request_id"@,
            },
    {
        match self {
            ProtocolError::MissingCapability => text::owned(
                "capability_request missing payload.capability",
            ),
            ProtocolError::MissingParams => text::owned("capability_request missing payload.params"),
            ProtocolError::MissingRequestId => text::owned(
                "capability_request missing payload.request_id",
            ),
        }
    }
}

/// Reads a capability request: its capability name (a string), its params
/// (any value) and its request id (a string, taken from the payload because
/// the runner correlates replies by it). Fields are checked in that order.
pub fn parse_capability_request_payload(payload: &JsonValue) -> (r: Result<
    (&str, &JsonValue, &str),
    ProtocolError,
>)
    ensures
        match r {
            Ok((capability, params, request_id)) => {
                &&& payload.str_field("capability"@) == Some(capability@)
                &&& payload.field("params"@) == Some(*params)
                &&& payload.str_field("request_id"@) == Some(request_id@)
            },
            Err(e) => if payload.str_field("capability"@) is None {
                e == ProtocolError::MissingCapability
            } else if payload.field("params"@) is None {
                e == ProtocolError::MissingParams
            } else {
                e == ProtocolError::MissingRequestId && payload.str_field("request_id"@) is None
            },
        },
{
    let capability = match payload.get_str("capability") {
        Some(c) => c,
        None => return Err(ProtocolError::MissingCapability),
    };
    let params = match payload.get("params") {
        Some(p) => p,
        None => return Err(ProtocolError::MissingParams),
    };
    let request_id = match payload.get_str("request_id") {
        Some(r) => r,
        None => return Err(ProtocolError::MissingRequestId),
    };
    Ok((capability, params, request_id))
}

/// `{key: value}`.
pub fn single_field(key: &str, value: JsonValue) -> (r: JsonValue)
    ensures
        r.field(key@) == Some(value),
        r matches JsonValue::Object(f) && f@.len() == 1,
{
    let mut fields: Vec<(String, JsonValue)> = Vec::new();
    fields.push((text::owned(key), value));
    let r = JsonValue::Object(fields);
    assert(r.field(key@) == Some(fields@[0].1));
    r
}

/// `{k1: v1, k2: v2}` (the keys must differ).
pub fn two_fields(k1: &str, v1: JsonValue, k2: &str, v2: JsonValue) -> (r: JsonValue)
    requires
        k1@ != k2@,
    ensures
        r.field(k1@) == Some(v1),
        r.field(k2@) == Some(v2),
        r matches JsonValue::Object(f) && f@.len() == 2,
{
    let mut fields: Vec<(String, JsonValue)> = Vec::new();
    fields.push((text::owned(k1), v1));
    fields.push((text::owned(k2), v2));
    let r = JsonValue::Object(fields);
    proof {
        assert(r.field(k1@) == Some(fields@[0].1));
        assert(fields@.drop_first()[0] == fields@[1]);
        assert(fields@[0].0@ == k1@);
        assert(crate::json::lookup(fields@.drop_first(), k2@) == Some(fields@[1].1));
        assert(r.field(k2@) == Some(fields@[1].1));
    }
    r
}

/// The command that asks the runner to cancel `run_id` at the user's request.
pub fn cancel_message(run_id: i64) -> (m: Message)
    ensures
        m.kind@ == "command"@,
        m.id@ == "cmd_cancel"@,
        m.name@ == "cancel_run"@,
        m.payload.field("run_id"@) matches Some(JsonValue::Number(n)) && n@ == text::int_decimal(
            run_id as int,
        ),
        m.payload.str_field("reason"@) == Some("user_requested"@),
{
    proof {
        reveal_strlit("run_id");
        reveal_strlit("reason");
        assert("run_id"@[1] != "reason"@[1]);
    }
    let payload = two_fields(
        "run_id",
        JsonValue::Number(text::fmt_i64(run_id)),
        "reason",
        JsonValue::string("user_requested"),
    );
    Message::command("cmd_cancel", "cancel_run", payload)
}

/// The command that tells the runner the run is complete and it may exit.
pub fn shutdown_message() -> (m: Message)
    ensures
        m.kind@ == "command"@,
        m.id@ == "cmd_shutdown"@,
        m.name@ == "shutdown"@,
        m.payload.str_field("reason"@) == Some("run_complete"@),
{
    let payload = single_field("reason", JsonValue::string("run_complete"));
    Message::command("cmd_shutdown", "shutdown", payload)
}

} // verus!
