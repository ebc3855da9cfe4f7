//! The Bedrock Converse client's decisions, on plain values: how messages
//! become conversation turns, how a failure is reported, and how a reply or
//! a stream of events becomes a response.

use vstd::prelude::*;

use crate::llm::error::LLMError;
use crate::llm::stream::{call_view, calls_view, json_value, opt_view, parse_json_value};
use crate::llm::tool_call::{LLMToolResponse, Message, MessageContent, MessageRole, ToolCall};
use crate::text::{chars_of, contains, contains_seq, owned, str_eq};

verus! {

broadcast use vstd::string::group_string_axioms;

/// Who speaks a Converse turn.
#[derive(Debug, Clone, Copy, PartialEq, Eq, Structural)]
pub enum BedrockRole {
    User,
    Assistant,
}

/// A content block of a Converse turn.
#[derive(Debug, Clone)]
pub enum BedrockBlock {
    /// Text.
    Text(String),
    /// A tool the assistant uses, with its input.
    ToolUse { id: String, name: String, input: serde_json::Value },
    /// The successful result of a tool use, as text.
    ToolResult { tool_use_id: String, text: String },
    /// A block of another kind.
    Other,
}

/// A Converse turn: its role and content blocks.
#[derive(Debug, Clone)]
pub struct BedrockTurn {
    pub role: BedrockRole,
    pub content: Vec<BedrockBlock>,
}

// ---------------------------------------------------------------------------
// Failures
// ---------------------------------------------------------------------------

/// Whether a failure message tells of refused access or missing
/// credentials.
pub open spec fn access_refused(msg: Seq<char>) -> bool {
    contains_seq(msg, "AccessDenied"@) || contains_seq(msg, "credentials"@)
}

/// Whether a failure message tells of throttling.
pub open spec fn throttled(msg: Seq<char>) -> bool {
    contains_seq(msg, "ThrottlingException"@)
}

/// The error a failed Converse call is reported as: a missing key when
/// access was refused, the rate limit when throttled, else a failed request
/// whose message is `prefix` followed by the failure's message.
pub fn bedrock_error(msg: &str, prefix: &str) -> (e: LLMError)
    ensures
        access_refused(msg@) ==> e == LLMError::MissingApiKey,
        !access_refused(msg@) && throttled(msg@) ==> e == LLMError::RateLimited,
        !access_refused(msg@) && !throttled(msg@) ==> (e matches LLMError::RequestFailed(m) && m@
            == prefix@ + msg@),
{
    let cs = chars_of(msg);
    let denied = chars_of("AccessDenied");
    let creds = chars_of("credentials");
    let throttling = chars_of("ThrottlingException");
    if contains(cs.as_slice(), denied.as_slice()) || contains(cs.as_slice(), creds.as_slice()) {
        LLMError::MissingApiKey
    } else if contains(cs.as_slice(), throttling.as_slice()) {
        LLMError::RateLimited
    } else {
        let mut m = owned(prefix);
        m.append(msg);
        LLMError::RequestFailed(m)
    }
}

// ---------------------------------------------------------------------------
// Turns
// ---------------------------------------------------------------------------

/// Whether a message becomes a turn: system messages go with the request's
/// system prompt instead, and a turn needs at least one block.
pub open spec fn has_turn(m: Message) -> bool {
    match m.content {
        MessageContent::Text(_) => m.role != MessageRole::System,
        MessageContent::ToolCalls(calls) => calls@.len() > 0,
    }
}

/// Whether a block is the text block `t`.
pub open spec fn is_text_block(b: BedrockBlock, t: Seq<char>) -> bool {
    b matches BedrockBlock::Text(x) && x@ == t
}

/// Whether a block is the tool use a tool call asks for.
pub open spec fn is_tool_use_of(b: BedrockBlock, c: ToolCall) -> bool {
    b matches BedrockBlock::ToolUse { id, name, input } && id@ == c.id@ && name@ == c.name@ && input
        == c.arguments
}

/// Whether `t` is the turn a message becomes: a text message is one text
/// block, spoken by the user for user and tool messages and by the
/// assistant for its own; a tool message answering a call is instead one
/// tool-result block; tool calls are the assistant's tool-use blocks, one
/// per call, in order.
pub open spec fn is_turn_of(m: Message, t: BedrockTurn) -> bool {
    match m.content {
        MessageContent::Text(text) => t.content@.len() == 1 && match m.role {
            MessageRole::Tool => t.role == BedrockRole::User && match m.tool_call_id {
                Some(id) => t.content@[0] matches BedrockBlock::ToolResult { tool_use_id, text: x }
                    && tool_use_id@ == id@ && x@ == text@,
                None => is_text_block(t.content@[0], text@),
            },
            MessageRole::User => t.role == BedrockRole::User && is_text_block(t.content@[0], text@),
            MessageRole::Assistant => t.role == BedrockRole::Assistant && is_text_block(
                t.content@[0],
                text@,
            ),
            MessageRole::System => false,
        },
        MessageContent::ToolCalls(calls) => t.role == BedrockRole::Assistant && t.content@.len()
            == calls@.len() && forall|i: int|
            0 <= i < calls@.len() ==> is_tool_use_of(#[trigger] t.content@[i], calls@[i]),
    }
}

/// The tool-use blocks of some tool calls, one per call, in order.
fn tool_use_blocks(calls: &Vec<ToolCall>) -> (r: Vec<BedrockBlock>)
    ensures
        r@.len() == calls@.len(),
        forall|i: int| 0 <= i < calls@.len() ==> is_tool_use_of(#[trigger] r@[i], calls@[i]),
{
    let mut r: Vec<BedrockBlock> = Vec::new();
    let mut i: usize = 0;
    while i < calls.len()
        invariant
            i <= calls@.len(),
            r@.len() == i,
            forall|k: int| 0 <= k < i ==> is_tool_use_of(#[trigger] r@[k], calls@[k]),
        decreases calls.len() - i,
    {
        let c = &calls[i];
        r.push(
            BedrockBlock::ToolUse {
                id: c.id.clone(),
                name: c.name.clone(),
                input: c.arguments.clone(),
            },
        );
        i = i + 1;
    }
    r
}

/// Converts a message to a Converse turn, when it makes one.
pub fn message_to_bedrock(msg: &Message) -> (r: Option<BedrockTurn>)
    ensures
        r is Some <==> has_turn(*msg),
        r matches Some(t) ==> is_turn_of(*msg, t),
{
    match &msg.content {
        MessageContent::Text(text) => {
            let role = match msg.role {
                MessageRole::User => BedrockRole::User,
                MessageRole::Assistant => BedrockRole::Assistant,
                MessageRole::Tool => BedrockRole::User,
                MessageRole::System => {
                    return None;
                },
            };
            if msg.role == MessageRole::Tool {
                match &msg.tool_call_id {
                    Some(id) => {
                        let block = BedrockBlock::ToolResult {
                            tool_use_id: id.clone(),
                            text: text.clone(),
                        };
                        return Some(BedrockTurn { role, content: vec![block] });
                    },
                    None => {},
                }
            }
            Some(BedrockTurn { role, content: vec![BedrockBlock::Text(text.clone())] })
        },
        MessageContent::ToolCalls(calls) => {
            if calls.len() == 0 {
                return None;
            }
            Some(BedrockTurn { role: BedrockRole::Assistant, content: tool_use_blocks(calls) })
        },
    }
}

/// Whether `ts` are the turns of the messages `ms`, in order: one for each
/// message that makes one.
pub open spec fn are_turns_of(ms: Seq<Message>, ts: Seq<BedrockTurn>) -> bool {
    let kept = ms.filter(|m: Message| has_turn(m));
    ts.len() == kept.len() && forall|i: int| 0 <= i < ts.len() ==> is_turn_of(kept[i], #[trigger] ts[i])
}

/// The Converse turns of a conversation, in order.
pub fn message_turns(messages: &[Message]) -> (r: Vec<BedrockTurn>)
    ensures
        are_turns_of(messages@, r@),
{
    let ghost keep = |m: Message| has_turn(m);
    let mut r: Vec<BedrockTurn> = Vec::new();
    let mut i: usize = 0;
    assert(messages@.take(0).filter(keep) =~= Seq::<Message>::empty()) by {
        reveal(Seq::filter);
    }
    while i < messages.len()
        invariant
            i <= messages@.len(),
            keep == (|m: Message| has_turn(m)),
            are_turns_of(messages@.take(i as int), r@),
        decreases messages.len() - i,
    {
        let ghost before = r@;
        let ghost prefix = messages@.take(i as int);
        proof {
            assert(messages@.take(i + 1) =~= prefix.push(messages@[i as int]));
            prefix.lemma_filter_push(messages@[i as int], keep);
        }
        match message_to_bedrock(&messages[i]) {
            Some(t) => {
                r.push(t);
                assert forall|k: int| 0 <= k < r@.len() implies is_turn_of(
                    messages@.take(i + 1).filter(keep)[k],
                    #[trigger] r@[k],
                ) by {
                    if k < before.len() {
                        assert(r@[k] == before[k]);
                    }
                }
            },
            None => {},
        }
        i = i + 1;
    }
    assert(messages@.take(i as int) =~= messages@);
    r
}

/// The message of a conversation with no turn to send.
pub const NO_TURNS_MESSAGE: &'static str = "No valid messages to send to Bedrock";

/// The turns of a conversation for a Converse request, which needs at least
/// one: an empty set of turns is a failed request.
pub fn converse_turns(messages: &[Message]) -> (r: Result<Vec<BedrockTurn>, LLMError>)
    ensures
        match r {
            Ok(ts) => are_turns_of(messages@, ts@) && ts@.len() > 0,
            Err(e) => e matches LLMError::RequestFailed(m) && m@ == NO_TURNS_MESSAGE@
                && messages@.filter(|m: Message| has_turn(m)).len() == 0,
        },
{
    let ts = message_turns(messages);
    if ts.len() == 0 {
        Err(LLMError::RequestFailed(owned(NO_TURNS_MESSAGE)))
    } else {
        Ok(ts)
    }
}

// ---------------------------------------------------------------------------
// Replies
// ---------------------------------------------------------------------------

/// The text of a reply: its text blocks, concatenated.
pub open spec fn reply_text(blocks: Seq<BedrockBlock>) -> Seq<char>
    decreases blocks.len(),
{
    if blocks.len() == 0 {
        Seq::empty()
    } else {
        reply_text(blocks.drop_last()) + match blocks.last() {
            BedrockBlock::Text(t) => t@,
            _ => Seq::empty(),
        }
    }
}

/// The tool calls of a reply: one per tool-use block, in order.
pub open spec fn reply_calls(blocks: Seq<BedrockBlock>) -> Seq<(Seq<char>, Seq<char>, serde_json::Value)>
    decreases blocks.len(),
{
    if blocks.len() == 0 {
        Seq::empty()
    } else {
        let prev = reply_calls(blocks.drop_last());
        match blocks.last() {
            BedrockBlock::ToolUse { id, name, input } => prev.push((id@, name@, input)),
            _ => prev,
        }
    }
}

/// The text and the tool calls of a reply's content blocks; other blocks
/// are passed over.
pub fn bedrock_reply(blocks: &Vec<BedrockBlock>) -> (r: (String, Vec<ToolCall>))
    ensures
        r.0@ == reply_text(blocks@),
        r.1@.map_values(|c: ToolCall| call_view(c)) == reply_calls(blocks@),
{
    let mut content = String::new();
    let mut calls: Vec<ToolCall> = Vec::new();
    let mut i: usize = 0;
    while i < blocks.len()
        invariant
            i <= blocks@.len(),
            content@ == reply_text(blocks@.take(i as int)),
            calls@.map_values(|c: ToolCall| call_view(c)) == reply_calls(blocks@.take(i as int)),
        decreases blocks.len() - i,
    {
        assert(blocks@.take(i + 1).drop_last() =~= blocks@.take(i as int));
        assert(blocks@.take(i + 1).last() == blocks@[i as int]);
        match &blocks[i] {
            BedrockBlock::Text(t) => {
                content.append(t.as_str());
            },
            BedrockBlock::ToolUse { id, name, input } => {
                let ghost before = calls@;
                calls.push(ToolCall { id: id.clone(), name: name.clone(), arguments: input.clone() });
                assert(calls@.map_values(|c: ToolCall| call_view(c)) =~= before.map_values(
                    |c: ToolCall| call_view(c),
                ).push(call_view(calls@[before.len() as int])));
            },
            _ => {
                assert(content@ + Seq::<char>::empty() =~= content@);
            },
        }
        i = i + 1;
    }
    assert(blocks@.take(i as int) =~= blocks@);
    (content, calls)
}

/// Whether a Converse response is final: it uses no tool and did not stop
/// for a tool use.
pub open spec fn converse_is_final(n_calls: nat, stop_reason: Option<Seq<char>>) -> bool {
    n_calls == 0 && stop_reason != Some("ToolUse"@)
}

/// The response of a Converse reply: its text, its tool calls, the stop
/// reason (by name) as finish reason, and whether it is final.
pub fn bedrock_tool_response(blocks: &Vec<BedrockBlock>, stop_reason: &str) -> (r: LLMToolResponse)
    ensures
        r.content@ == reply_text(blocks@),
        r.tool_calls@.map_values(|c: ToolCall| call_view(c)) == reply_calls(blocks@),
        opt_view(r.finish_reason) == Some(stop_reason@),
        r.is_final == converse_is_final(r.tool_calls@.len(), Some(stop_reason@)),
{
    let (content, tool_calls) = bedrock_reply(blocks);
    let is_final = tool_calls.len() == 0 && !str_eq(stop_reason, "ToolUse");
    LLMToolResponse { content, tool_calls, is_final, finish_reason: Some(owned(stop_reason)) }
}

// ---------------------------------------------------------------------------
// Streams
// ---------------------------------------------------------------------------

/// An event of a Converse stream, as plain values; events of other kinds
/// change nothing and are not passed on.
#[derive(Debug, Clone)]
pub enum BedrockEvent {
    /// More text of a text block.
    TextDelta(String),
    /// More input of the tool use being received.
    ToolInputDelta(String),
    /// A tool-use block starts, with its id and tool name.
    ToolUseStart { id: String, name: String },
    /// A content block ends.
    BlockStop,
    /// The message ends, for the stop reason named.
    MessageStop(String),
}

/// An empty JSON object (`serde_json::Value::Object` of a new
/// `serde_json::Map`), the input of a tool whose input does not parse: the
/// value the text "{}" reads as.
#[verifier::external_body]
fn empty_json_object() -> (r: serde_json::Value)
    ensures
        json_value(seq!['{', '}']) == Some(r),
{
    serde_json::Value::Object(serde_json::Map::new())
}

/// The state of a Converse stream: the text so far, the tool calls
/// completed, the tool use being received (id, name, input so far; an
/// empty id when none is), and the stop reason.
pub struct BedrockStream {
    content: String,
    calls: Vec<ToolCall>,
    tool_id: String,
    tool_name: String,
    tool_input: String,
    stop_reason: Option<String>,
}

/// The arguments of a tool use whose input text is `input`: the JSON value
/// the text reads as, or an empty object when it does not parse.
pub open spec fn tool_input_value(input: Seq<char>) -> serde_json::Value {
    match json_value(input) {
        Some(v) => v,
        None => json_value(seq!['{', '}'])->0,
    }
}

/// A Converse stream as plain values.
pub struct BedrockStreamView {
    pub content: Seq<char>,
    pub calls: Seq<(Seq<char>, Seq<char>, serde_json::Value)>,
    pub tool_id: Seq<char>,
    pub tool_name: Seq<char>,
    pub tool_input: Seq<char>,
    pub stop_reason: Option<Seq<char>>,
}

impl View for BedrockStream {
    type V = BedrockStreamView;

    closed spec fn view(&self) -> BedrockStreamView {
        BedrockStreamView {
            content: self.content@,
            calls: calls_view(self.calls@),
            tool_id: self.tool_id@,
            tool_name: self.tool_name@,
            tool_input: self.tool_input@,
            stop_reason: opt_view(self.stop_reason),
        }
    }
}

/// The stream state after one event: text is added to the text; tool input
/// to the input of the tool use being received; a tool use starting
/// replaces the one being received; a block ending completes the tool use
/// being received, if any; the message ending records its stop reason.
pub open spec fn bedrock_step(s: BedrockStreamView, e: BedrockEvent) -> BedrockStreamView {
    match e {
        BedrockEvent::TextDelta(t) => BedrockStreamView { content: s.content + t@, ..s },
        BedrockEvent::ToolInputDelta(x) => BedrockStreamView { tool_input: s.tool_input + x@, ..s },
        BedrockEvent::ToolUseStart { id, name } => BedrockStreamView {
            tool_id: id@,
            tool_name: name@,
            tool_input: Seq::empty(),
            ..s
        },
        BedrockEvent::BlockStop => if s.tool_id.len() > 0 {
            BedrockStreamView {
                calls: s.calls.push((s.tool_id, s.tool_name, tool_input_value(s.tool_input))),
                tool_id: Seq::empty(),
                tool_name: Seq::empty(),
                tool_input: Seq::empty(),
                ..s
            }
        } else {
            s
        },
        BedrockEvent::MessageStop(r) => BedrockStreamView { stop_reason: Some(r@), ..s },
    }
}

/// The stream state after some events, in order.
pub open spec fn bedrock_after(s: BedrockStreamView, es: Seq<BedrockEvent>) -> BedrockStreamView
    decreases es.len(),
{
    if es.len() == 0 {
        s
    } else {
        bedrock_step(bedrock_after(s, es.drop_last()), es.last())
    }
}

/// The text some events carry, concatenated.
pub open spec fn bedrock_text(es: Seq<BedrockEvent>) -> Seq<char>
    decreases es.len(),
{
    if es.len() == 0 {
        Seq::empty()
    } else {
        bedrock_text(es.drop_last()) + match es.last() {
            BedrockEvent::TextDelta(t) => t@,
            _ => Seq::empty(),
        }
    }
}

/// The text of a Converse stream is the text it had, followed by the text
/// of its events in order; no other event changes it.
pub proof fn lemma_bedrock_text_concatenates(s: BedrockStreamView, es: Seq<BedrockEvent>)
    ensures
        bedrock_after(s, es).content == s.content + bedrock_text(es),
    decreases es.len(),
{
    if es.len() == 0 {
        assert(s.content + Seq::<char>::empty() =~= s.content);
    } else {
        lemma_bedrock_text_concatenates(s, es.drop_last());
        let t = match es.last() {
            BedrockEvent::TextDelta(t) => t@,
            _ => Seq::<char>::empty(),
        };
        assert(s.content + bedrock_text(es) =~= (s.content + bedrock_text(es.drop_last())) + t);
    }
}

impl BedrockStream {
    /// A stream that has received nothing.
    pub fn new() -> (s: Self)
        ensures
            s@.content.len() == 0,
            s@.calls.len() == 0,
            s@.tool_id.len() == 0,
            s@.tool_name.len() == 0,
            s@.tool_input.len() == 0,
            s@.stop_reason is None,
    {
        let s = BedrockStream {
            content: String::new(),
            calls: Vec::new(),
            tool_id: String::new(),
            tool_name: String::new(),
            tool_input: String::new(),
            stop_reason: None,
        };
        assert(calls_view(s.calls@) =~= Seq::empty());
        s
    }

    /// Applies one event, and gives the text to pass on to the reader, if
    /// the event carries some. A completed tool use takes its input as JSON,
    /// or an empty object when the input does not parse.
    pub fn apply(&mut self, event: BedrockEvent) -> (forward: Option<String>)
        ensures
            final(self)@ == bedrock_step(old(self)@, event),
            opt_view(forward) == (match event {
                BedrockEvent::TextDelta(t) => Some(t@),
                _ => None,
            }),
    {
        match event {
            BedrockEvent::TextDelta(t) => {
                self.content.append(t.as_str());
                Some(t)
            },
            BedrockEvent::ToolInputDelta(x) => {
                self.tool_input.append(x.as_str());
                None
            },
            BedrockEvent::ToolUseStart { id, name } => {
                self.tool_id = id;
                self.tool_name = name;
                self.tool_input = String::new();
                None
            },
            BedrockEvent::BlockStop => {
                if self.tool_id.as_str().unicode_len() > 0 {
                    let args = match parse_json_value(self.tool_input.as_str()) {
                        Some(v) => v,
                        None => empty_json_object(),
                    };
                    let id = self.tool_id.clone();
                    let name = self.tool_name.clone();
                    self.tool_id = String::new();
                    self.tool_name = String::new();
                    let ghost before = self.calls@;
                    self.calls.push(ToolCall { id, name, arguments: args });
                    assert(calls_view(self.calls@) =~= calls_view(before).push(
                        (old(self).tool_id@, old(self).tool_name@, tool_input_value(old(self).tool_input@)),
                    ));
                    self.tool_input = String::new();
                }
                None
            },
            BedrockEvent::MessageStop(r) => {
                self.stop_reason = Some(r);
                None
            },
        }
    }

    /// The response the stream amounts to: its text, the completed tool
    /// calls, the stop reason as finish reason, and whether it is final; a
    /// tool use still being received is dropped.
    pub fn finish(self) -> (r: LLMToolResponse)
        ensures
            r.content@ == self@.content,
            calls_view(r.tool_calls@) == self@.calls,
            opt_view(r.finish_reason) == self@.stop_reason,
            r.is_final == converse_is_final(r.tool_calls@.len(), self@.stop_reason),
    {
        let is_final = self.calls.len() == 0 && match &self.stop_reason {
            Some(r) => !str_eq(r.as_str(), "ToolUse"),
            None => true,
        };
        LLMToolResponse {
            content: self.content,
            tool_calls: self.calls,
            is_final,
            finish_reason: self.stop_reason,
        }
    }
}

// ---------------------------------------------------------------------------
// Tools
// ---------------------------------------------------------------------------

/// The value of a key of a JSON object (`serde_json::Value::get`), or none
/// when the value is not an object or lacks the key.
pub uninterp spec fn json_field(v: serde_json::Value, key: Seq<char>) -> Option<serde_json::Value>;

/// The text of a JSON string (`serde_json::Value::as_str`), or none when the
/// value is not a string.
pub uninterp spec fn json_string(v: serde_json::Value) -> Option<Seq<char>>;

/// `serde_json::Value::get` with a string key: the result is named after
/// the value and the key.
#[verifier::external_body]
fn json_get<'a>(v: &'a serde_json::Value, key: &str) -> (r: Option<&'a serde_json::Value>)
    ensures
        match r {
            Some(x) => json_field(*v, key@) == Some(*x),
            None => json_field(*v, key@) is None,
        },
{
    v.get(key)
}

/// `serde_json::Value::as_str`: the result is named after the value.
#[verifier::external_body]
fn json_as_str(v: &serde_json::Value) -> (r: Option<&str>)
    ensures
        match r {
            Some(t) => json_string(*v) == Some(t@),
            None => json_string(*v) is None,
        },
{
    v.as_str()
}

/// The schema of a tool that declares none: an object with no properties,
/// the value the text {"type":"object","properties":{}} reads as.
#[verifier::external_body]
fn default_tool_schema() -> (r: serde_json::Value)
    ensures
        json_value(default_schema_text()) == Some(r),
{
    let mut props = serde_json::Map::new();
    props.insert("type".to_string(), serde_json::Value::String("object".to_string()));
    props.insert("properties".to_string(), serde_json::Value::Object(serde_json::Map::new()));
    serde_json::Value::Object(props)
}

/// The text of the schema of a tool that declares none.
pub open spec fn default_schema_text() -> Seq<char> {
    "{\"type\":\"object\",\"properties\":{}}"@
}

/// A tool as the Converse API declares it: name, description and input
/// schema.
#[derive(Debug, Clone)]
pub struct BedrockToolSpec {
    pub name: String,
    pub description: String,
    pub schema: serde_json::Value,
}

/// The Converse declaration of a tool given in the OpenAI form
/// {"function": {"name", "description", "parameters"}}: none without a
/// function, a string name or a description; a description that is not a
/// string reads as empty, and missing parameters as an object with no
/// properties.
pub open spec fn tool_spec_of(t: serde_json::Value) -> Option<(Seq<char>, Seq<char>, serde_json::Value)> {
    match json_field(t, "function"@) {
        None => None,
        Some(f) => match json_field(f, "name"@) {
            None => None,
            Some(nv) => match json_string(nv) {
                None => None,
                Some(name) => match json_field(f, "description"@) {
                    None => None,
                    Some(dv) => Some(
                        (
                            name,
                            match json_string(dv) {
                                Some(d) => d,
                                None => Seq::empty(),
                            },
                            match json_field(f, "parameters"@) {
                                Some(p) => p,
                                None => json_value(default_schema_text())->0,
                            },
                        ),
                    ),
                },
            },
        },
    }
}

/// A declaration as plain values.
pub open spec fn spec_view(s: BedrockToolSpec) -> (Seq<char>, Seq<char>, serde_json::Value) {
    (s.name@, s.description@, s.schema)
}

/// The declarations of some tools, in order, of those that make one.
pub open spec fn tool_specs_of(ts: Seq<serde_json::Value>) -> Seq<(Seq<char>, Seq<char>, serde_json::Value)>
    decreases ts.len(),
{
    if ts.len() == 0 {
        Seq::empty()
    } else {
        let prev = tool_specs_of(ts.drop_last());
        match tool_spec_of(ts.last()) {
            Some(x) => prev.push(x),
            None => prev,
        }
    }
}

/// The Converse declaration of one tool, when it makes one.
fn tool_spec(t: &serde_json::Value) -> (r: Option<BedrockToolSpec>)
    ensures
        match r {
            Some(x) => tool_spec_of(*t) == Some(spec_view(x)),
            None => tool_spec_of(*t) is None,
        },
{
    let f = match json_get(t, "function") {
        Some(f) => f,
        None => return None,
    };
    let nv = match json_get(f, "name") {
        Some(nv) => nv,
        None => return None,
    };
    let name = match json_as_str(nv) {
        Some(n) => n,
        None => return None,
    };
    let dv = match json_get(f, "description") {
        Some(dv) => dv,
        None => return None,
    };
    let description = match json_as_str(dv) {
        Some(d) => owned(d),
        None => String::new(),
    };
    let schema = match json_get(f, "parameters") {
        Some(p) => p.clone(),
        None => default_tool_schema(),
    };
    Some(BedrockToolSpec { name: owned(name), description, schema })
}

/// Converts tools given in the OpenAI form to Converse declarations,
/// passing over those that do not make one.
pub fn convert_tools_to_bedrock(tools: &Vec<serde_json::Value>) -> (r: Vec<BedrockToolSpec>)
    ensures
        r@.map_values(|x: BedrockToolSpec| spec_view(x)) == tool_specs_of(tools@),
{
    let mut r: Vec<BedrockToolSpec> = Vec::new();
    let mut i: usize = 0;
    while i < tools.len()
        invariant
            i <= tools@.len(),
            r@.map_values(|x: BedrockToolSpec| spec_view(x)) == tool_specs_of(tools@.take(i as int)),
        decreases tools.len() - i,
    {
        assert(tools@.take(i + 1).drop_last() =~= tools@.take(i as int));
        assert(tools@.take(i + 1).last() == tools@[i as int]);
        match tool_spec(&tools[i]) {
            Some(x) => {
                let ghost before = r@;
                r.push(x);
                assert(r@.map_values(|x: BedrockToolSpec| spec_view(x)) =~= before.map_values(
                    |x: BedrockToolSpec| spec_view(x),
                ).push(spec_view(r@[before.len() as int])));
            },
            None => {},
        }
        i = i + 1;
    }
    assert(tools@.take(i as int) =~= tools@);
    r
}

} // verus!
