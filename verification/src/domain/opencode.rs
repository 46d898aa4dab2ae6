//! Requests a workflow makes to OpenCode: routing by name, validation of
//! their payloads, model selection, and the replies built from the results.
pub mod client;
pub mod server;

use vstd::prelude::*;

use crate::json::JsonValue;
use crate::text;

verus! {

/// The OpenCode operations a workflow can request.
#[derive(Debug, Clone, Copy, PartialEq, Eq, Structural)]
pub enum GatewayRequest {
    Run,
    Command,
    Messages,
    Events,
    Cancel,
}

/// Why an OpenCode request was refused.
#[derive(Debug)]
pub enum OpencodeError {
    /// No operation has this name.
    UnknownRequest(String),
    /// The request lacks a string field (request name, field name).
    MissingField(String, String),
    /// `opencode_run` with a blank prompt.
    EmptyPrompt,
    /// `opencode_command` with a blank command.
    EmptyCommand,
}

impl OpencodeError {
    /// The error's text.
    pub fn message(&self) -> (r: String)
        ensures
            r@ == match self {
                OpencodeError::UnknownRequest(n) => "unknown OpenCode request: "@ + n@,
                OpencodeError::MissingField(req, key) => req@ + " requires payload."@ + key@
                    + " string field"@,
                OpencodeError::EmptyPrompt => "opencode_run requires a non-empty prompt"@,
                OpencodeError::EmptyCommand => "opencode_command requires a non-empty command"@,
            },
    {
        match self {
            OpencodeError::UnknownRequest(n) => text::concat(
                "unknown OpenCode request: ",
                n.as_str(),
            ),
            OpencodeError::MissingField(req, key) => {
                let mut r = text::concat(req.as_str(), " requires payload.");
                r.append(key.as_str());
                r.append(" string field");
                r
            },
            OpencodeError::EmptyPrompt => text::owned("opencode_run requires a non-empty prompt"),
            OpencodeError::EmptyCommand => text::owned(
                "opencode_command requires a non-empty command",
            ),
        }
    }
}

/// A provider and model to run a prompt with.
#[derive(Debug)]
pub struct ModelRef {
    pub provider_id: String,
    pub model_id: String,
}

/// The id and role of a session message.
#[derive(Debug)]
pub struct MessageSummary {
    pub id: String,
    pub role: String,
}

/// The operation named `name`.
pub open spec fn request_of(name: Seq<char>) -> Option<GatewayRequest> {
    if name == "opencode_run"@ {
        Some(GatewayRequest::Run)
    } else if name == "opencode_command"@ {
        Some(GatewayRequest::Command)
    } else if name == "opencode_messages"@ {
        Some(GatewayRequest::Messages)
    } else if name == "opencode_events"@ {
        Some(GatewayRequest::Events)
    } else if name == "opencode_cancel"@ {
        Some(GatewayRequest::Cancel)
    } else {
        None
    }
}

/// The command a payload's `command` names: trimmed, one leading `/`
/// removed, trimmed again.
pub open spec fn normalized_command(raw: Seq<char>) -> Seq<char> {
    let t = text::trim(raw);
    if t.len() > 0 && t[0] == '/' {
        text::trim(t.drop_first())
    } else {
        t
    }
}

/// The first of `k1`, `k2` that `value` has (whatever its type), read as a
/// string.
pub open spec fn model_id_of(value: JsonValue, k1: Seq<char>, k2: Seq<char>) -> Option<Seq<char>> {
    match value.field(k1) {
        Some(v) => v.text(),
        None => match value.field(k2) {
            Some(v) => v.text(),
            None => None,
        },
    }
}

/// The model a value names, by `providerID`/`provider_id` and
/// `modelID`/`model_id`.
pub open spec fn model_of(value: JsonValue) -> Option<(Seq<char>, Seq<char>)> {
    match model_id_of(value, "providerID"@, "provider_id"@) {
        Some(p) => match model_id_of(value, "modelID"@, "model_id"@) {
            Some(m) => Some((p, m)),
            None => None,
        },
        None => None,
    }
}

/// The model of a run request: from its nested `model` object when that
/// names one, otherwise from its top-level fields.
pub open spec fn resolved_model_of(payload: JsonValue) -> Option<(Seq<char>, Seq<char>)> {
    match payload.field("model"@) {
        Some(m) => match model_of(m) {
            Some(r) => Some(r),
            None => model_of(payload),
        },
        None => model_of(payload),
    }
}

/// Which operation a request name designates.
pub fn route_request(request_name: &str) -> (r: Result<GatewayRequest, OpencodeError>)
    ensures
        match request_of(request_name@) {
            Some(g) => r matches Ok(h) && h == g,
            None => r matches Err(OpencodeError::UnknownRequest(n)) && n@ == request_name@,
        },
{
    if text::str_eq(request_name, "opencode_run") {
        Ok(GatewayRequest::Run)
    } else if text::str_eq(request_name, "opencode_command") {
        Ok(GatewayRequest::Command)
    } else if text::str_eq(request_name, "opencode_messages") {
        Ok(GatewayRequest::Messages)
    } else if text::str_eq(request_name, "opencode_events") {
        Ok(GatewayRequest::Events)
    } else if text::str_eq(request_name, "opencode_cancel") {
        Ok(GatewayRequest::Cancel)
    } else {
        Err(OpencodeError::UnknownRequest(text::owned(request_name)))
    }
}

/// The string field `key` of a request payload.
pub fn require_string<'a>(payload: &'a JsonValue, key: &str, request_name: &str) -> (r: Result<
    &'a str,
    OpencodeError,
>)
    ensures
        match r {
            Ok(v) => payload.str_field(key@) == Some(v@),
            Err(e) => payload.str_field(key@) is None && (e matches OpencodeError::MissingField(
                req,
                k,
            ) && req@ == request_name@ && k@ == key@),
        },
{
    match payload.get_str(key) {
        Some(v) => Ok(v),
        None => Err(OpencodeError::MissingField(text::owned(request_name), text::owned(key))),
    }
}

/// The prompt of a run request, trimmed; a blank prompt is refused.
pub fn require_prompt(payload: &JsonValue) -> (r: Result<String, OpencodeError>)
    ensures
        match payload.str_field("prompt"@) {
            Some(p) => if text::trim(p).len() > 0 {
                r matches Ok(s) && s@ == text::trim(p)
            } else {
                r matches Err(OpencodeError::EmptyPrompt)
            },
            None => r matches Err(OpencodeError::MissingField(req, k)) && req@ == "opencode_run"@
                && k@ == "prompt"@,
        },
{
    let prompt = require_string(payload, "prompt", "opencode_run")?;
    let trimmed = text::trim_str(prompt);
    if trimmed.unicode_len() == 0 {
        return Err(OpencodeError::EmptyPrompt);
    }
    Ok(trimmed)
}

/// The command of a command request, normalized; a blank command is refused.
pub fn require_command(payload: &JsonValue) -> (r: Result<String, OpencodeError>)
    ensures
        match payload.str_field("command"@) {
            Some(c) => if normalized_command(c).len() > 0 {
                r matches Ok(s) && s@ == normalized_command(c)
            } else {
                r matches Err(OpencodeError::EmptyCommand)
            },
            None => r matches Err(OpencodeError::MissingField(req, k)) && req@
                == "opencode_command"@ && k@ == "command"@,
        },
{
    let raw = require_string(payload, "command", "opencode_command")?;
    let trimmed = text::trim_str(raw);
    let v = text::chars_of(trimmed.as_str());
    if v.len() == 0 {
        return Err(OpencodeError::EmptyCommand);
    }
    let normalized = if v[0] == '/' {
        text::trim_str(trimmed.as_str().substring_char(1, v.len()))
    } else {
        trimmed
    };
    proof {
        assert(trimmed@.subrange(1, v.len() as int) =~= trimmed@.drop_first());
    }
    if normalized.unicode_len() == 0 {
        return Err(OpencodeError::EmptyCommand);
    }
    Ok(normalized)
}

/// The field `key` unless it is absent or `null`.
pub fn read_optional_json<'a>(payload: &'a JsonValue, key: &str) -> (r: Option<&'a JsonValue>)
    ensures
        match payload.field(key@) {
            Some(v) => if v is Null {
                r is None
            } else {
                r matches Some(w) && *w == v
            },
            None => r is None,
        },
{
    match payload.get(key) {
        Some(v) => if v.is_null() {
            None
        } else {
            Some(v)
        },
        None => None,
    }
}

/// The string field `key`, if there is one.
pub fn read_string(payload: &JsonValue, key: &str) -> (r: Option<String>)
    ensures
        match payload.str_field(key@) {
            Some(s) => r matches Some(t) && t@ == s,
            None => r is None,
        },
{
    match payload.get_str(key) {
        Some(s) => Some(text::owned(s)),
        None => None,
    }
}

/// The string field `key` trimmed, unless it is absent or blank.
pub fn read_trimmed_string(payload: &JsonValue, key: &str) -> (r: Option<String>)
    ensures
        match payload.str_field(key@) {
            Some(s) => if text::trim(s).len() > 0 {
                r matches Some(t) && t@ == text::trim(s)
            } else {
                r is None
            },
            None => r is None,
        },
{
    match payload.get_str(key) {
        Some(s) => {
            let t = text::trim_str(s);
            if t.unicode_len() > 0 {
                Some(t)
            } else {
                None
            }
        },
        None => None,
    }
}

/// The model id under the first of two keys that is present.
pub fn read_model_id(value: &JsonValue, k1: &str, k2: &str) -> (r: Option<String>)
    ensures
        match model_id_of(*value, k1@, k2@) {
            Some(s) => r matches Some(t) && t@ == s,
            None => r is None,
        },
{
    let found = match value.get(k1) {
        Some(v) => Some(v),
        None => value.get(k2),
    };
    match found {
        Some(v) => match v.as_str() {
            Some(s) => Some(text::owned(s)),
            None => None,
        },
        None => None,
    }
}

/// The model a value names, when it names both a provider and a model.
pub fn model_from_value(value: &JsonValue) -> (r: Option<ModelRef>)
    ensures
        match model_of(*value) {
            Some((p, m)) => r matches Some(x) && x.provider_id@ == p && x.model_id@ == m,
            None => r is None,
        },
{
    let provider_id = match read_model_id(value, "providerID", "provider_id") {
        Some(p) => p,
        None => return None,
    };
    let model_id = match read_model_id(value, "modelID", "model_id") {
        Some(m) => m,
        None => return None,
    };
    Some(ModelRef { provider_id, model_id })
}

/// The model a run request asks for.
pub fn resolve_model(payload: &JsonValue) -> (r: Option<ModelRef>)
    ensures
        match resolved_model_of(*payload) {
            Some((p, m)) => r matches Some(x) && x.provider_id@ == p && x.model_id@ == m,
            None => r is None,
        },
{
    match payload.get("model") {
        Some(model) => match model_from_value(model) {
            Some(r) => return Some(r),
            None => {},
        },
        None => {},
    }
    model_from_value(payload)
}

/// The id of the last assistant message.
pub fn latest_assistant_message_id(messages: &Vec<MessageSummary>) -> (r: Option<String>)
    ensures
        match r {
            Some(id) => exists|i: int|
                0 <= i < messages@.len() && messages@[i].role@ == "assistant"@ && id@
                    == messages@[i].id@ && forall|j: int|
                    i < j < messages@.len() ==> (#[trigger] messages@[j]).role@ != "assistant"@,
            None => forall|i: int|
                0 <= i < messages@.len() ==> (#[trigger] messages@[i]).role@ != "assistant"@,
        },
{
    let mut i: usize = messages.len();
    while i > 0
        invariant
            i <= messages.len(),
            forall|j: int| i <= j < messages@.len() ==> (#[trigger] messages@[j]).role@ != "assistant"@,
        decreases i,
    {
        i = i - 1;
        if text::str_eq(messages[i].role.as_str(), "assistant") {
            return Some(messages[i].id.clone());
        }
    }
    None
}

/// The reply to a run request: the session, the last assistant message (or
/// `null`) and the text output.
pub fn run_reply(session_id: &str, message_id: Option<&str>, output: &str) -> (r: JsonValue)
    ensures
        r.str_field("session_id"@) == Some(session_id@),
        match message_id {
            Some(m) => r.str_field("message_id"@) == Some(m@),
            None => r.field("message_id"@) == Some(JsonValue::Null),
        },
        r.str_field("output"@) == Some(output@),
{
    let mut fields: Vec<(String, JsonValue)> = Vec::new();
    fields.push((text::owned("session_id"), JsonValue::string(session_id)));
    let m = match message_id {
        Some(m) => JsonValue::string(m),
        None => JsonValue::Null,
    };
    fields.push((text::owned("message_id"), m));
    fields.push((text::owned("output"), JsonValue::string(output)));
    proof {
        reveal_strlit("session_id");
        reveal_strlit("message_id");
        reveal_strlit("output");
        let f = fields@;
        assert(f[0].0@[0] != f[1].0@[0]);
        assert(f[0].0@.len() != f[2].0@.len());
        assert(f[1].0@.len() != f[2].0@.len());
        crate::json::lemma_lookup_at(f, "session_id"@, 0);
        crate::json::lemma_lookup_at(f, "message_id"@, 1);
        crate::json::lemma_lookup_at(f, "output"@, 2);
    }
    JsonValue::Object(fields)
}

/// The reply to a cancel request.
pub fn cancel_reply(session_id: &str) -> (r: JsonValue)
    ensures
        r.str_field("session_id"@) == Some(session_id@),
        r.field("result"@) == Some(JsonValue::Bool(true)),
{
    proof {
        reveal_strlit("session_id");
        reveal_strlit("result");
        assert("session_id"@.len() != "result"@.len());
    }
    crate::domain::runner::protocol::two_fields(
        "session_id",
        JsonValue::string(session_id),
        "result",
        JsonValue::Bool(true),
    )
}

/// The model of a run request: a nested `model` object that names a provider
/// and a model wins over whatever the top-level fields say; without a
/// `model` field, the top-level `providerID`/`modelID` are used.
pub proof fn law_nested_model_wins(payload: JsonValue, provider: Seq<char>, model: Seq<char>)
    ensures
        (payload.field("model"@) matches Some(m) && m.str_field("providerID"@) == Some(provider)
            && m.str_field("modelID"@) == Some(model)) ==> resolved_model_of(payload) == Some(
            (provider, model),
        ),
        (payload.field("model"@) is None && payload.str_field("providerID"@) == Some(provider)
            && payload.str_field("modelID"@) == Some(model)) ==> resolved_model_of(payload) == Some(
            (provider, model),
        ),
{
}

} // verus!
