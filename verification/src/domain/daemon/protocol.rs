//! The daemon's runner protocol: loop control, capability request payloads
//! and the cancel and shutdown commands.
use vstd::prelude::*;

use crate::domain::ipc::Message;
use crate::domain::runner::protocol::{self as runner_protocol, ProtocolError};
use crate::json::JsonValue;
use crate::text;

verus! {

/// Whether the daemon keeps reading.
#[derive(Debug, Clone, Copy, PartialEq, Eq, Structural)]
pub enum LoopControl {
    Continue,
    Stop,
}

/// Reads a capability request: capability, params and request id.
pub fn parse_capability_request_payload(payload: &JsonValue) -> (r: Result<
    (&str, &JsonValue, &str),
    ProtocolError,
>)
    ensures
        match r {
            Ok((capability, params, request_id)) => {
                &&& payload.str_field("capability"@) == Some(capability@)
                &&& payload.field("params"@) == Some(*params)
                &&& payload.str_field("request_id"@) == Some(request_id@)
            },
            Err(e) => if payload.str_field("capability"@) is None {
                e == ProtocolError::MissingCapability
            } else if payload.field("params"@) is None {
                e == ProtocolError::MissingParams
            } else {
                e == ProtocolError::MissingRequestId && payload.str_field("request_id"@) is None
            },
        },
{
    runner_protocol::parse_capability_request_payload(payload)
}

/// The command that cancels run `run_id` (given as its text) at the user's
/// request.
pub fn cancel_message(run_id: &str) -> (m: Message)
    ensures
        m.kind@ == "command"@,
        m.id@ == "cmd_cancel"@,
        m.name@ == "cancel_run"@,
        m.payload.str_field("run_id"@) == Some(run_id@),
        m.payload.str_field("reason"@) == Some("user_requested"@),
{
    proof {
        reveal_strlit("run_id");
        reveal_strlit("reason");
        assert("run_id"@[1] != "reason"@[1]);
    }
    let payload = runner_protocol::two_fields(
        "run_id",
        JsonValue::string(run_id),
        "reason",
        JsonValue::string("user_requested"),
    );
    Message::command("cmd_cancel", "cancel_run", payload)
}

/// The command that tells the runner the run is complete.
pub fn shutdown_message() -> (m: Message)
    ensures
        m.kind@ == "command"@,
        m.id@ == "cmd_shutdown"@,
        m.name@ == "shutdown"@,
        m.payload.str_field("reason"@) == Some("run_complete"@),
{
    runner_protocol::shutdown_message()
}

} // verus!
