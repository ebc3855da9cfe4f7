//! Messages of a conversation and the tool calls a model requests.

use vstd::prelude::*;

use crate::text::owned;

verus! {

/// A JSON value (`serde_json::Value`), carried through unread.
#[verifier::external_type_specification]
#[verifier::external_body]
pub struct ExJsonValue(serde_json::Value);

/// `serde_json::Value::clone`: a derived deep copy, so the copy is the same
/// value.
pub assume_specification[ <serde_json::Value as Clone>::clone ](v: &serde_json::Value) -> (r:
    serde_json::Value)
    ensures
        r == *v,
;

/// A message in the conversation.
#[derive(Debug, Clone)]
pub struct Message {
    /// Role of the message sender.
    pub role: MessageRole,
    /// Content of the message.
    pub content: MessageContent,
    /// Tool call ID (for tool result messages).
    pub tool_call_id: Option<String>,
    /// Name (for tool messages).
    pub name: Option<String>,
}

impl Message {
    /// Create a user message.
    pub fn user(content: &str) -> (m: Self)
        ensures
            m.role == MessageRole::User,
            m.content matches MessageContent::Text(t) && t@ == content@,
            m.tool_call_id is None,
            m.name is None,
    {
        Message {
            role: MessageRole::User,
            content: MessageContent::Text(owned(content)),
            tool_call_id: None,
            name: None,
        }
    }

    /// Create an assistant message.
    pub fn assistant(content: &str) -> (m: Self)
        ensures
            m.role == MessageRole::Assistant,
            m.content matches MessageContent::Text(t) && t@ == content@,
            m.tool_call_id is None,
            m.name is None,
    {
        Message {
            role: MessageRole::Assistant,
            content: MessageContent::Text(owned(content)),
            tool_call_id: None,
            name: None,
        }
    }

    /// Create an assistant message with tool calls.
    pub fn assistant_tool_calls(tool_calls: Vec<ToolCall>) -> (m: Self)
        ensures
            m.role == MessageRole::Assistant,
            m.content == MessageContent::ToolCalls(tool_calls),
            m.tool_call_id is None,
            m.name is None,
    {
        Message {
            role: MessageRole::Assistant,
            content: MessageContent::ToolCalls(tool_calls),
            tool_call_id: None,
            name: None,
        }
    }

    /// Create a tool result message.
    pub fn tool_result(tool_call_id: &str, output: &str) -> (m: Self)
        ensures
            m.role == MessageRole::Tool,
            m.content matches MessageContent::Text(t) && t@ == output@,
            m.tool_call_id matches Some(id) && id@ == tool_call_id@,
            m.name is None,
    {
        Message {
            role: MessageRole::Tool,
            content: MessageContent::Text(owned(output)),
            tool_call_id: Some(owned(tool_call_id)),
            name: None,
        }
    }
}

/// Role of a message sender.
#[derive(Debug, Clone, Copy, PartialEq, Eq, Structural)]
pub enum MessageRole {
    /// System message (instructions).
    System,
    /// User message.
    User,
    /// Assistant (LLM) message.
    Assistant,
    /// Tool result message.
    Tool,
}

/// The name of a role on the wire (lowercase).
pub open spec fn role_wire_name(r: MessageRole) -> Seq<char> {
    match r {
        MessageRole::System => "system"@,
        MessageRole::User => "user"@,
        MessageRole::Assistant => "assistant"@,
        MessageRole::Tool => "tool"@,
    }
}

impl MessageRole {
    /// The name of this role on the wire.
    pub fn wire_name(&self) -> (r: &'static str)
        ensures
            r@ == role_wire_name(*self),
    {
        match self {
            MessageRole::System => "system",
            MessageRole::User => "user",
            MessageRole::Assistant => "assistant",
            MessageRole::Tool => "tool",
        }
    }
}

/// Content of a message.
#[derive(Debug, Clone)]
pub enum MessageContent {
    /// Plain text content.
    Text(String),
    /// Tool calls from assistant.
    ToolCalls(Vec<ToolCall>),
}

impl MessageContent {
    /// Get text content if this is a text message.
    pub fn as_text(&self) -> (r: Option<&str>)
        ensures
            match *self {
                MessageContent::Text(s) => r matches Some(t) && t@ == s@,
                MessageContent::ToolCalls(_) => r is None,
            },
    {
        match self {
            MessageContent::Text(s) => Some(s.as_str()),
            MessageContent::ToolCalls(_) => None,
        }
    }

    /// Get tool calls if this is a tool calls message.
    pub fn as_tool_calls(&self) -> (r: Option<&[ToolCall]>)
        ensures
            match *self {
                MessageContent::Text(_) => r is None,
                MessageContent::ToolCalls(calls) => r matches Some(c) && c@ == calls@,
            },
    {
        match self {
            MessageContent::Text(_) => None,
            MessageContent::ToolCalls(calls) => Some(calls.as_slice()),
        }
    }
}

/// A tool call request from the LLM.
#[derive(Debug, Clone)]
pub struct ToolCall {
    /// Unique ID for this call (used to match with results).
    pub id: String,
    /// Name of the tool to call.
    pub name: String,
    /// Arguments as JSON.
    pub arguments: serde_json::Value,
}

impl ToolCall {
    /// Create a new tool call.
    pub fn new(id: &str, name: &str, arguments: serde_json::Value) -> (c: Self)
        ensures
            c.id@ == id@,
            c.name@ == name@,
            c.arguments == arguments,
    {
        ToolCall { id: owned(id), name: owned(name), arguments }
    }
}

/// Response from an LLM that may include tool calls.
#[derive(Debug, Clone)]
pub struct LLMToolResponse {
    /// Text content (may be empty if only tool calls).
    pub content: String,
    /// Tool calls requested by LLM.
    pub tool_calls: Vec<ToolCall>,
    /// Whether this is a final response (no more tool calls needed).
    pub is_final: bool,
    /// Finish reason from the API.
    pub finish_reason: Option<String>,
}

impl LLMToolResponse {
    /// Create a text-only response.
    pub fn text(content: &str) -> (r: Self)
        ensures
            r.content@ == content@,
            r.tool_calls@.len() == 0,
            r.is_final,
            r.finish_reason matches Some(f) && f@ == "stop"@,
    {
        LLMToolResponse {
            content: owned(content),
            tool_calls: Vec::new(),
            is_final: true,
            finish_reason: Some(owned("stop")),
        }
    }

    /// Create a response with tool calls.
    pub fn with_tool_calls(tool_calls: Vec<ToolCall>) -> (r: Self)
        ensures
            r.content@.len() == 0,
            r.tool_calls == tool_calls,
            !r.is_final,
            r.finish_reason matches Some(f) && f@ == "tool_calls"@,
    {
        LLMToolResponse {
            content: String::new(),
            tool_calls,
            is_final: false,
            finish_reason: Some(owned("tool_calls")),
        }
    }

    /// Check if the response has tool calls.
    pub fn has_tool_calls(&self) -> (r: bool)
        ensures
            r == (self.tool_calls@.len() > 0),
    {
        self.tool_calls.len() != 0
    }
}

} // verus!
