//! The OpenCode HTTP API client: its base address, endpoints and request
//! bodies.
use vstd::prelude::*;

use crate::domain::runner::protocol;
use crate::json::JsonValue;
use crate::text;

verus! {

/// Talks to the OpenCode server at `base_url`.
#[derive(Debug)]
pub struct Client {
    pub base_url: String,
}

/// A created session.
#[derive(Debug)]
pub struct Session {
    pub id: String,
}

/// The assistant message a chat produced.
#[derive(Debug)]
pub struct AssistantMessage {
    pub id: String,
}

/// One entry of a session's message list.
#[derive(Debug)]
pub struct MessageEntry {
    pub info: MessageInfo,
}

/// The id and role of a listed message.
#[derive(Debug)]
pub struct MessageInfo {
    pub id: String,
    pub role: String,
}

/// `s` without trailing `/` characters.
pub open spec fn without_trailing_slashes(s: Seq<char>) -> Seq<char>
    decreases s.len(),
{
    if s.len() > 0 && s.last() == '/' {
        without_trailing_slashes(s.drop_last())
    } else {
        s
    }
}

/// Normalizing a base URL removes every trailing `/` and is idempotent.
pub proof fn law_base_url_normalized(s: Seq<char>)
    ensures
        without_trailing_slashes(s).len() == 0 || without_trailing_slashes(s).last() != '/',
        without_trailing_slashes(without_trailing_slashes(s)) == without_trailing_slashes(s),
        text::starts_with(s, without_trailing_slashes(s)),
    decreases s.len(),
{
    if s.len() > 0 && s.last() == '/' {
        law_base_url_normalized(s.drop_last());
        let t = without_trailing_slashes(s.drop_last());
        assert(s.subrange(0, t.len() as int) =~= s.drop_last().subrange(0, t.len() as int));
    } else {
        assert(s.subrange(0, s.len() as int) =~= s);
    }
}

impl Client {
    /// A client for `base_url`, with trailing slashes removed.
    pub fn new(base_url: &str) -> (c: Client)
        ensures
            c.base_url@ == without_trailing_slashes(base_url@),
    {
        let v = text::chars_of(base_url);
        let mut k: usize = v.len();
        assert(v@.subrange(0, v.len() as int) =~= v@);
        while k > 0 && v[k - 1] == '/'
            invariant
                k <= v.len(),
                v@ == base_url@,
                without_trailing_slashes(base_url@) == without_trailing_slashes(v@.subrange(0, k as int)),
            decreases k,
        {
            proof {
                assert(v@.subrange(0, k as int).drop_last() =~= v@.subrange(0, k - 1));
            }
            k = k - 1;
        }
        proof {
            assert(v@.subrange(0, v.len() as int) =~= v@);
            let t = v@.subrange(0, k as int);
            if k > 0 {
                assert(t.last() == v@[k - 1]);
            }
        }
        Client { base_url: String::from_str(base_url.substring_char(0, k)) }
    }

    /// `<base>/session`, where sessions are created.
    pub fn session_url(&self) -> (r: String)
        ensures
            r@ == self.base_url@ + "/session"@,
    {
        text::concat(self.base_url.as_str(), "/session")
    }

    /// `<base>/session/<id>/message`, where a session's messages are posted
    /// and listed.
    pub fn message_url(&self, session_id: &str) -> (r: String)
        ensures
            r@ == self.base_url@ + "/session/"@ + session_id@ + "/message"@,
    {
        let mut r = text::concat(self.base_url.as_str(), "/session/");
        r.append(session_id);
        r.append("/message");
        r
    }

    /// `<base>/session/<id>/abort`.
    pub fn abort_url(&self, session_id: &str) -> (r: String)
        ensures
            r@ == self.base_url@ + "/session/"@ + session_id@ + "/abort"@,
    {
        let mut r = text::concat(self.base_url.as_str(), "/session/");
        r.append(session_id);
        r.append("/abort");
        r
    }

    /// The body of a chat request: `{"parts": [{"type": "text", "text": prompt}]}`.
    pub fn chat_body(prompt: &str) -> (r: JsonValue)
        ensures
            r.field("parts"@) matches Some(JsonValue::Array(parts)) && parts@.len() == 1 && parts@[0].str_field("type"@)
                == Some("text"@) && parts@[0].str_field("text"@) == Some(prompt@),
    {
        proof {
            reveal_strlit("type");
            reveal_strlit("text");
            assert("type"@[1] != "text"@[1]);
        }
        let part = protocol::two_fields(
            "type",
            JsonValue::string("text"),
            "text",
            JsonValue::string(prompt),
        );
        let mut parts: Vec<JsonValue> = Vec::new();
        parts.push(part);
        protocol::single_field("parts", JsonValue::Array(parts))
    }
}

} // verus!
