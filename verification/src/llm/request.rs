//! What an OpenAI-compatible chat request carries: the conversation as the
//! endpoint receives it, the endpoint, the authorization and the tool
//! choice.

use vstd::prelude::*;

use crate::llm::tool_call::{role_wire_name, Message, MessageContent, ToolCall};
use crate::text::owned;

verus! {

/// A tool call as the endpoint receives it; its type is "function".
#[derive(Debug, Clone)]
pub struct WireToolCall {
    pub id: String,
    pub name: String,
    /// The arguments, as JSON text.
    pub arguments: String,
}

/// A chat message as the endpoint receives it: a text message has a
/// content and, for a tool result, the id of the call it answers; a tool
/// call message has the calls instead of a content.
#[derive(Debug, Clone)]
pub struct WireMessage {
    pub role: String,
    pub content: Option<String>,
    pub tool_call_id: Option<String>,
    pub tool_calls: Option<Vec<WireToolCall>>,
}

/// The views of an optional string.
pub open spec fn opt_text(o: Option<String>) -> Option<Seq<char>> {
    match o {
        Some(s) => Some(s@),
        None => None,
    }
}

/// A wire tool call's id, name and argument text.
pub open spec fn wire_call_names(c: WireToolCall) -> (Seq<char>, Seq<char>, Seq<char>) {
    (c.id@, c.name@, c.arguments@)
}

/// The compact JSON text `serde_json::Value`'s `Display` writes for a value.
pub uninterp spec fn json_compact_text(v: serde_json::Value) -> Seq<char>;

/// A tool call as it is sent: its id, name and arguments as compact JSON
/// text.
pub open spec fn sent_call(c: ToolCall) -> (Seq<char>, Seq<char>, Seq<char>) {
    (c.id@, c.name@, json_compact_text(c.arguments))
}

/// Whether a wire message is what a message becomes: a text message keeps
/// its role, text and tool call id; tool calls become an assistant message
/// with each call's id, name and arguments as compact JSON text, in order.
pub open spec fn wire_of(m: Message, w: WireMessage) -> bool {
    match m.content {
        MessageContent::Text(t) => {
            &&& w.role@ == role_wire_name(m.role)
            &&& w.content == Some(t)
            &&& opt_text(w.tool_call_id) == opt_text(m.tool_call_id)
            &&& w.tool_calls is None
        },
        MessageContent::ToolCalls(calls) => {
            &&& w.role@ == "assistant"@
            &&& w.content is None
            &&& w.tool_call_id is None
            &&& w.tool_calls matches Some(ws) && ws@.map_values(|c: WireToolCall| wire_call_names(c))
                == calls@.map_values(|c: ToolCall| sent_call(c))
        },
    }
}

/// A JSON value as compact text (`serde_json::Value`'s `Display`, through
/// `to_string`): the text is named after the value.
#[verifier::external_body]
fn json_text(v: &serde_json::Value) -> (r: String)
    ensures
        r@ == json_compact_text(*v),
{
    v.to_string()
}

/// Converts a message to the form an OpenAI-compatible endpoint receives.
pub fn message_to_openai(msg: &Message) -> (w: WireMessage)
    ensures
        wire_of(*msg, w),
{
    match &msg.content {
        MessageContent::Text(text) => WireMessage {
            role: owned(msg.role.wire_name()),
            content: Some(text.clone()),
            tool_call_id: match &msg.tool_call_id {
                Some(id) => Some(id.clone()),
                None => None,
            },
            tool_calls: None,
        },
        MessageContent::ToolCalls(calls) => {
            let mut out: Vec<WireToolCall> = Vec::new();
            let mut i: usize = 0;
            while i < calls.len()
                invariant
                    i <= calls@.len(),
                    out@.map_values(|c: WireToolCall| wire_call_names(c)) == calls@.take(i as int).map_values(
                        |c: ToolCall| sent_call(c),
                    ),
                decreases calls.len() - i,
            {
                let tc = &calls[i];
                let ghost before = out@;
                out.push(WireToolCall { id: tc.id.clone(), name: tc.name.clone(), arguments: json_text(&tc.arguments) });
                assert(out@.map_values(|c: WireToolCall| wire_call_names(c)) =~= before.map_values(
                    |c: WireToolCall| wire_call_names(c),
                ).push(sent_call(*tc)));
                assert(calls@.take(i + 1).map_values(|c: ToolCall| sent_call(c)) =~= calls@.take(
                    i as int,
                ).map_values(|c: ToolCall| sent_call(c)).push(sent_call(*tc)));
                i = i + 1;
            }
            assert(calls@.take(i as int) =~= calls@);
            WireMessage { role: owned("assistant"), content: None, tool_call_id: None, tool_calls: Some(out) }
        },
    }
}

/// The system message that opens a conversation.
pub open spec fn is_system_message(w: WireMessage, system: Seq<char>) -> bool {
    &&& w.role@ == "system"@
    &&& opt_text(w.content) == Some(system)
    &&& w.tool_call_id is None
    &&& w.tool_calls is None
}

/// Where the conversation starts among a request's messages: after the
/// system message, when there is one.
pub open spec fn conversation_start(system: Option<&str>) -> int {
    if system is Some {
        1
    } else {
        0
    }
}

/// The messages of a chat request: the system message, when there is one,
/// then each message of the conversation in order.
pub fn chat_messages(system: Option<&str>, messages: &[Message]) -> (r: Vec<WireMessage>)
    ensures
        r@.len() == messages@.len() + conversation_start(system),
        system matches Some(s) ==> is_system_message(r@[0], s@),
        forall|i: int|
            0 <= i < messages@.len() ==> wire_of(messages@[i], #[trigger] r@[i + conversation_start(system)]),
{
    let mut all: Vec<WireMessage> = Vec::new();
    match system {
        Some(s) => {
            all.push(WireMessage { role: owned("system"), content: Some(owned(s)), tool_call_id: None, tool_calls: None });
        },
        None => {},
    }
    let ghost off: int = conversation_start(system);
    let mut i: usize = 0;
    while i < messages.len()
        invariant
            i <= messages@.len(),
            off == conversation_start(system),
            all@.len() == i + off,
            system matches Some(s) ==> is_system_message(all@[0], s@),
            forall|k: int| 0 <= k < i ==> wire_of(messages@[k], #[trigger] all@[k + off]),
        decreases messages.len() - i,
    {
        let w = message_to_openai(&messages[i]);
        all.push(w);
        i = i + 1;
    }
    all
}

/// The chat completions endpoint of a base URL.
pub fn chat_completions_url(base_url: &str) -> (r: String)
    ensures
        r@ == base_url@ + "/chat/completions"@,
{
    let mut u = owned(base_url);
    u.append("/chat/completions");
    u
}

/// The authorization header value for an API key: a bearer token, or none
/// when the key is empty (local endpoints need none).
pub fn bearer_authorization(api_key: &str) -> (r: Option<String>)
    ensures
        match r {
            Some(h) => api_key@.len() > 0 && h@ == "Bearer "@ + api_key@,
            None => api_key@.len() == 0,
        },
{
    if api_key.unicode_len() == 0 {
        None
    } else {
        let mut h = owned("Bearer ");
        h.append(api_key);
        Some(h)
    }
}

/// The tool choice of a request: "auto" when tools are offered, none
/// otherwise.
pub fn tool_choice(n_tools: usize) -> (r: Option<String>)
    ensures
        match r {
            Some(c) => n_tools > 0 && c@ == "auto"@,
            None => n_tools == 0,
        },
{
    if n_tools == 0 {
        None
    } else {
        Some(owned("auto"))
    }
}

} // verus!
