//! Capability requests from workflows: their parameters and the reply the
//! runner receives.
use vstd::prelude::*;

use crate::domain::ipc::Message;
use crate::json::JsonValue;
use crate::text;

verus! {

/// A capability a workflow asks for, and its parameters.
#[derive(Debug, Clone, Copy)]
pub struct CapabilityRequest<'a> {
    pub capability: &'a str,
    pub params: &'a JsonValue,
}

/// A required string parameter is missing.
#[derive(Debug)]
pub struct CapabilityError {
    pub capability: String,
    pub key: String,
}

impl CapabilityError {
    /// The error's text.
    pub fn message(&self) -> (r: String)
        ensures
            r@ == "capability '"@ + self.capability@ + "' missing required param: "@ + self.key@,
    {
        let mut r = text::concat("capability '", self.capability.as_str());
        r.append("' missing required param: ");
        r.append(self.key.as_str());
        r
    }
}

/// The domain of a capability: the part of its name before the first `_`.
pub open spec fn domain_of(capability: Seq<char>) -> Seq<char> {
    capability.subrange(0, text::prefix_len(capability, '_') as int)
}

/// The string parameter `key` of a capability.
pub fn require_str(params: &JsonValue, key: &str, capability: &str) -> (r: Result<String, CapabilityError>)
    ensures
        match r {
            Ok(v) => params.str_field(key@) == Some(v@),
            Err(e) => params.str_field(key@) is None && e.capability@ == capability@ && e.key@
                == key@,
        },
{
    match params.get_str(key) {
        Some(v) => Ok(text::owned(v)),
        None => Err(CapabilityError { capability: text::owned(capability), key: text::owned(key) }),
    }
}

/// The domain that serves a capability (`session` for `session_run`).
pub fn capability_domain(capability: &str) -> (r: String)
    ensures
        r@ == domain_of(capability@),
{
    match text::split_once_char(capability, '_') {
        Some((head, _)) => head,
        None => {
            proof {
                text::lemma_prefix_len_bound(capability@, '_');
                assert(capability@.subrange(0, capability@.len() as int) =~= capability@);
            }
            text::owned(capability)
        },
    }
}

/// The reply to capability request `request_id`: capabilities of the
/// `session` domain are answered with what the session service returned
/// (`session_reply`); any other domain is refused as unknown.
pub fn dispatch(
    request_id: &str,
    request: &CapabilityRequest<'_>,
    session_reply: Option<Result<JsonValue, String>>,
) -> (m: Message)
    requires
        domain_of(request.capability@) == "session"@ ==> session_reply is Some,
    ensures
        m.id@ == request_id@,
        m.name@ == "capability_response"@,
        if domain_of(request.capability@) == "session"@ {
            match session_reply {
                Some(Ok(p)) => m.kind@ == "response"@ && m.payload == p,
                Some(Err(e)) => m.kind@ == "error"@ && m.payload.str_field("error"@) == Some(e@),
                None => false,
            }
        } else {
            m.kind@ == "error"@ && m.payload.str_field("error"@) == Some(
                "unknown capability domain: "@ + domain_of(request.capability@),
            )
        },
{
    let domain = capability_domain(request.capability);
    if text::str_eq(domain.as_str(), "session") {
        match session_reply {
            Some(Ok(p)) => Message::response(request_id, "capability_response", p),
            Some(Err(e)) => Message::error_response(request_id, "capability_response", e.as_str()),
            None => {
                proof {
                    assert(false);
                }
                Message::error_response(request_id, "capability_response", "")
            },
        }
    } else {
        let msg = text::concat("unknown capability domain: ", domain.as_str());
        Message::error_response(request_id, "capability_response", msg.as_str())
    }
}

} // verus!
