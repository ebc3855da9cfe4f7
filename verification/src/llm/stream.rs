//! Decoding model responses: HTTP status classes, server-sent-event
//! framing, and the assembly of text and tool calls from streamed deltas.
//!
//! The network reads and the JSON decoding of each event are the caller's;
//! what is done with the decoded pieces is here.

use vstd::prelude::*;
use vstd::string::StringSliceAdditionalSpecFns;

use crate::llm::error::LLMError;
use crate::llm::tool_call::{LLMToolResponse, ToolCall};
use crate::response::{quoted, quoted_len, quoting_message};
use crate::text::{
    chars_of, copy_range, find, find_spec, has_prefix, lines, lines_of, owned, starts_with,
    string_from_chars, trim, trim_chars, views,
};

verus! {

broadcast use vstd::string::group_string_axioms;

// ---------------------------------------------------------------------------
// Status
// ---------------------------------------------------------------------------

/// How a response status is handled.
#[derive(Debug, Clone, Copy, PartialEq, Eq, Structural)]
pub enum StatusClass {
    /// 2xx: the body is the answer.
    Success,
    /// 429: the request was rate limited.
    RateLimited,
    /// Anything else: the body is an error message.
    Failure,
}

/// Classifies a response status.
pub fn classify_status(status: u16) -> (c: StatusClass)
    ensures
        status == 429 ==> c == StatusClass::RateLimited,
        status != 429 && 200 <= status <= 299 ==> c == StatusClass::Success,
        status != 429 && !(200 <= status <= 299) ==> c == StatusClass::Failure,
{
    if status == 429 {
        StatusClass::RateLimited
    } else if 200 <= status && status <= 299 {
        StatusClass::Success
    } else {
        StatusClass::Failure
    }
}

// ---------------------------------------------------------------------------
// Server-sent events
// ---------------------------------------------------------------------------

/// Text received from a stream and not yet cut into lines or events.
pub struct SseBuffer {
    text: Vec<char>,
}

impl View for SseBuffer {
    type V = Seq<char>;

    closed spec fn view(&self) -> Seq<char> {
        self.text@
    }
}

/// The event separator: a blank line.
pub open spec fn event_separator() -> Seq<char> {
    seq!['\n', '\n']
}

impl SseBuffer {
    /// An empty buffer.
    pub fn new() -> (b: Self)
        ensures
            b@.len() == 0,
    {
        SseBuffer { text: Vec::new() }
    }

    /// Appends received text.
    pub fn push(&mut self, s: &str)
        ensures
            final(self)@ == old(self)@ + s@,
    {
        let cs = chars_of(s);
        crate::text::extend_chars(&mut self.text, cs.as_slice());
    }

    /// Takes the text before `p` (of length `n`, `n` more characters past
    /// `p` are dropped too).
    fn cut(&mut self, p: usize, n: usize) -> (head: Vec<char>)
        requires
            p + n <= old(self)@.len(),
        ensures
            head@ == old(self)@.subrange(0, p as int),
            final(self)@ == old(self)@.subrange(p + n, old(self)@.len() as int),
    {
        let len = self.text.len();
        let head = copy_range(self.text.as_slice(), 0, p);
        let rest = copy_range(self.text.as_slice(), p + n, len);
        self.text = rest;
        head
    }

    /// Takes the first complete line (up to its '\n', which is dropped),
    /// trimmed, when there is one.
    pub fn next_line(&mut self) -> (r: Option<String>)
        ensures
            match find_spec(old(self)@, seq!['\n']) {
                Some(p) => r matches Some(l) && l@ == trim(old(self)@.subrange(0, p))
                    && final(self)@ == old(self)@.subrange(p + 1, old(self)@.len() as int),
                None => r is None && final(self)@ == old(self)@,
            },
    {
        let nl = vec!['\n'];
        assert(nl@ =~= seq!['\n']);
        match find(self.text.as_slice(), nl.as_slice()) {
            Some(p) => {
                proof {
                    crate::text::lemma_found_occurs(self.text@, nl@, 0);
                }
                let head = self.cut(p, 1);
                let t = trim_chars(head.as_slice());
                Some(string_from_chars(t.as_slice()))
            },
            None => None,
        }
    }

    /// Takes the first complete event (up to its blank line, which is
    /// dropped), when there is one.
    pub fn next_event(&mut self) -> (r: Option<String>)
        ensures
            match find_spec(old(self)@, event_separator()) {
                Some(p) => r matches Some(e) && e@ == old(self)@.subrange(0, p) && final(self)@
                    == old(self)@.subrange(p + 2, old(self)@.len() as int),
                None => r is None && final(self)@ == old(self)@,
            },
    {
        let sep = vec!['\n', '\n'];
        assert(sep@ =~= event_separator());
        match find(self.text.as_slice(), sep.as_slice()) {
            Some(p) => {
                proof {
                    crate::text::lemma_found_occurs(self.text@, sep@, 0);
                }
                let head = self.cut(p, 2);
                Some(string_from_chars(head.as_slice()))
            },
            None => None,
        }
    }
}

/// The payload of a "data: " line.
pub open spec fn data_payload(line: Seq<char>) -> Option<Seq<char>> {
    if has_prefix(line, "data: "@) {
        Some(line.subrange(6, line.len() as int))
    } else {
        None
    }
}

/// The payload of a line after `prefix`, if it starts with it.
fn after_prefix(line: &[char], prefix: &str) -> (r: Option<Vec<char>>)
    ensures
        has_prefix(line@, prefix@) ==> (r matches Some(v) && v@ == line@.subrange(
            prefix@.len() as int,
            line@.len() as int,
        )),
        !has_prefix(line@, prefix@) ==> r is None,
{
    let p = chars_of(prefix);
    if starts_with(line, p.as_slice()) {
        Some(copy_range(line, p.len(), line.len()))
    } else {
        None
    }
}

/// The JSON payload of an OpenAI stream line: the text after "data: ",
/// unless it is the end marker "[DONE]".
pub open spec fn openai_stream_payload(line: Seq<char>) -> Option<Seq<char>> {
    match data_payload(line) {
        Some(d) => if d == "[DONE]"@ {
            None
        } else {
            Some(d)
        },
        None => None,
    }
}

/// The JSON payload of an OpenAI stream line, if it carries one.
pub fn openai_stream_data(line: &str) -> (r: Option<String>)
    ensures
        match openai_stream_payload(line@) {
            Some(d) => r matches Some(s) && s@ == d,
            None => r is None,
        },
{
    let cs = chars_of(line);
    proof {
        reveal_strlit("data: ");
        reveal_strlit("[DONE]");
    }
    match after_prefix(cs.as_slice(), "data: ") {
        Some(d) => {
            if crate::text::eq_lit(d.as_slice(), "[DONE]") {
                None
            } else {
                Some(string_from_chars(d.as_slice()))
            }
        },
        None => None,
    }
}

/// The (type, data) fields of an Anthropic event: the trimmed text after the
/// last "event: " line and after the last "data: " line.
pub open spec fn claude_fields_of(ls: Seq<Seq<char>>) -> (Option<Seq<char>>, Option<Seq<char>>)
    decreases ls.len(),
{
    if ls.len() == 0 {
        (None, None)
    } else {
        let prev = claude_fields_of(ls.drop_last());
        let l = ls.last();
        if has_prefix(l, "event: "@) {
            (Some(trim(l.subrange(7, l.len() as int))), prev.1)
        } else if has_prefix(l, "data: "@) {
            (prev.0, Some(trim(l.subrange(6, l.len() as int))))
        } else {
            prev
        }
    }
}

/// The JSON payload of an Anthropic event that carries a content delta: its
/// data, when its type is "content_block_delta".
pub open spec fn claude_delta_payload(event: Seq<char>) -> Option<Seq<char>> {
    let f = claude_fields_of(lines(event));
    if f.0 == Some("content_block_delta"@) {
        f.1
    } else {
        None
    }
}

/// A line that starts with "data: " does not start with "event: ".
proof fn lemma_data_line_not_event(l: Seq<char>)
    requires
        has_prefix(l, "data: "@),
    ensures
        !has_prefix(l, "event: "@),
{
    reveal_strlit("data: ");
    reveal_strlit("event: ");
    assert(l.subrange(0, 6)[0] == l[0]);
    if has_prefix(l, "event: "@) {
        assert(l.subrange(0, 7)[0] == l[0]);
    }
}

/// The type of an Anthropic event is the trimmed text after its last
/// "event: " line, whatever "data: " or other lines stand around it; it has
/// no type when no line starts with "event: ".
pub proof fn lemma_claude_type_is_last_event_line(ls: Seq<Seq<char>>, k: int)
    requires
        -1 <= k < ls.len(),
        k >= 0 ==> has_prefix(ls[k], "event: "@),
        forall|j: int| k < j < ls.len() ==> !has_prefix(#[trigger] ls[j], "event: "@),
    ensures
        claude_fields_of(ls).0 == (if k >= 0 {
            Some(trim(ls[k].subrange(7, ls[k].len() as int)))
        } else {
            None::<Seq<char>>
        }),
    decreases ls.len(),
{
    if ls.len() > 0 && k < ls.len() - 1 {
        assert(!has_prefix(ls[ls.len() - 1], "event: "@));
        let prev = ls.drop_last();
        assert forall|j: int| k < j < prev.len() implies !has_prefix(#[trigger] prev[j], "event: "@) by {
            assert(prev[j] == ls[j]);
        }
        if k >= 0 {
            assert(prev[k] == ls[k]);
        }
        lemma_claude_type_is_last_event_line(prev, k);
    }
}

/// The data of an Anthropic event is the trimmed text after its last
/// "data: " line, whatever "event: " or other lines stand around it; it has
/// no data when no line starts with "data: ".
pub proof fn lemma_claude_data_is_last_data_line(ls: Seq<Seq<char>>, m: int)
    requires
        -1 <= m < ls.len(),
        m >= 0 ==> has_prefix(ls[m], "data: "@),
        forall|j: int| m < j < ls.len() ==> !has_prefix(#[trigger] ls[j], "data: "@),
    ensures
        claude_fields_of(ls).1 == (if m >= 0 {
            Some(trim(ls[m].subrange(6, ls[m].len() as int)))
        } else {
            None::<Seq<char>>
        }),
    decreases ls.len(),
{
    if ls.len() > 0 {
        if m == ls.len() - 1 {
            lemma_data_line_not_event(ls[m]);
        } else {
            assert(!has_prefix(ls[ls.len() - 1], "data: "@));
            let prev = ls.drop_last();
            assert forall|j: int| m < j < prev.len() implies !has_prefix(#[trigger] prev[j], "data: "@) by {
                assert(prev[j] == ls[j]);
            }
            if m >= 0 {
                assert(prev[m] == ls[m]);
            }
            lemma_claude_data_is_last_data_line(prev, m);
        }
    }
}

/// An event made of a "content_block_delta" type line followed by a data
/// line carries that line's data, trimmed, as its content delta.
pub proof fn lemma_claude_delta_of_type_then_data(event: Seq<char>, ty: Seq<char>, d: Seq<char>)
    requires
        lines(event) == seq!["event: "@ + ty, "data: "@ + d],
        trim(ty) == "content_block_delta"@,
    ensures
        claude_delta_payload(event) == Some(trim(d)),
{
    reveal_strlit("event: ");
    reveal_strlit("data: ");
    let ls = lines(event);
    assert(ls[0].subrange(0, 7) =~= "event: "@);
    assert(ls[0].subrange(7, ls[0].len() as int) =~= ty);
    assert(ls[1].subrange(0, 6) =~= "data: "@);
    assert(ls[1].subrange(6, ls[1].len() as int) =~= d);
    lemma_data_line_not_event(ls[1]);
    assert(!has_prefix(ls[0], "data: "@)) by {
        assert(ls[0].subrange(0, 7)[0] == ls[0][0]);
        if has_prefix(ls[0], "data: "@) {
            assert(ls[0].subrange(0, 6)[0] == ls[0][0]);
        }
    }
    lemma_claude_type_is_last_event_line(ls, 0);
    lemma_claude_data_is_last_data_line(ls, 1);
}

/// The JSON payload of an Anthropic content-delta event, if it is one.
pub fn claude_delta_data(event: &str) -> (r: Option<String>)
    ensures
        match claude_delta_payload(event@) {
            Some(d) => r matches Some(s) && s@ == d,
            None => r is None,
        },
{
    proof {
        reveal_strlit("event: ");
        reveal_strlit("data: ");
        reveal_strlit("content_block_delta");
    }
    let cs = chars_of(event);
    let ls = lines_of(cs.as_slice());
    let mut kind: Option<Vec<char>> = None;
    let mut data: Option<Vec<char>> = None;
    let mut i: usize = 0;
    while i < ls.len()
        invariant
            i <= ls@.len(),
            views(ls@) == lines(event@),
            (match kind {
                Some(k) => Some(k@),
                None => None,
            }, match data {
                Some(d) => Some(d@),
                None => None,
            }) == claude_fields_of(views(ls@).take(i as int)),
        decreases ls.len() - i,
    {
        proof {
            reveal_strlit("event: ");
            reveal_strlit("data: ");
        }
        let l = &ls[i];
        assert(views(ls@).take(i + 1).drop_last() =~= views(ls@).take(i as int));
        assert(views(ls@).take(i + 1).last() == l@);
        match after_prefix(l.as_slice(), "event: ") {
            Some(rest) => {
                kind = Some(trim_chars(rest.as_slice()));
            },
            None => match after_prefix(l.as_slice(), "data: ") {
                Some(rest) => {
                    data = Some(trim_chars(rest.as_slice()));
                },
                None => {},
            },
        }
        i = i + 1;
    }
    assert(views(ls@).take(i as int) =~= views(ls@));
    match kind {
        Some(k) => {
            if crate::text::eq_lit(k.as_slice(), "content_block_delta") {
                match data {
                    Some(d) => Some(string_from_chars(d.as_slice())),
                    None => None,
                }
            } else {
                None
            }
        },
        None => None,
    }
}

/// A text worth forwarding: present and not empty.
pub fn nonempty_text(t: Option<String>) -> (r: Option<String>)
    ensures
        match t {
            Some(s) => if s@.len() > 0 {
                r == Some(s)
            } else {
                r is None
            },
            None => r is None,
        },
{
    match t {
        Some(s) => if s.as_str().unicode_len() > 0 {
            Some(s)
        } else {
            None
        },
        None => None,
    }
}

// ---------------------------------------------------------------------------
// Tool calls
// ---------------------------------------------------------------------------

/// The JSON value `serde_json::from_str::<serde_json::Value>` reads from a
/// text, or none when it refuses the text.
pub uninterp spec fn json_value(s: Seq<char>) -> Option<serde_json::Value>;

/// Whether a text is JSON that `serde_json` accepts.
pub open spec fn json_parses(s: Seq<char>) -> bool {
    json_value(s) is Some
}

/// `serde_json::from_str::<serde_json::Value>`: the value is named after the
/// text (the same text always reads as the same value).
#[verifier::external_body]
pub(crate) fn parse_json_value(s: &str) -> (r: Option<serde_json::Value>)
    ensures
        r == json_value(s@),
{
    serde_json::from_str(s).ok()
}

/// A tool call as it is being received: its id, name and argument text.
#[derive(Debug, Clone)]
pub struct PartialToolCall {
    pub id: String,
    pub name: String,
    pub arguments: String,
}

/// A partial tool call as plain values (id, name, arguments).
pub open spec fn partial_view(c: PartialToolCall) -> (Seq<char>, Seq<char>, Seq<char>) {
    (c.id@, c.name@, c.arguments@)
}

/// Partial tool calls as plain values.
pub open spec fn partials_view(cs: Seq<PartialToolCall>) -> Seq<(Seq<char>, Seq<char>, Seq<char>)> {
    cs.map_values(|c: PartialToolCall| partial_view(c))
}

/// A tool call as plain values: its id, name and arguments.
pub open spec fn call_view(c: ToolCall) -> (Seq<char>, Seq<char>, serde_json::Value) {
    (c.id@, c.name@, c.arguments)
}

/// Tool calls as plain values.
pub open spec fn calls_view(cs: Seq<ToolCall>) -> Seq<(Seq<char>, Seq<char>, serde_json::Value)> {
    cs.map_values(|c: ToolCall| call_view(c))
}

/// The calls kept from received ones: those whose argument text is JSON
/// (and, when `require_id`, that have an id), in order, each with the JSON
/// value its argument text reads as.
pub open spec fn kept_calls(cs: Seq<(Seq<char>, Seq<char>, Seq<char>)>, require_id: bool) -> Seq<
    (Seq<char>, Seq<char>, serde_json::Value),
>
    decreases cs.len(),
{
    if cs.len() == 0 {
        Seq::empty()
    } else {
        let prev = kept_calls(cs.drop_last(), require_id);
        let c = cs.last();
        if (!require_id || c.0.len() > 0) && json_parses(c.2) {
            prev.push((c.0, c.1, json_value(c.2)->0))
        } else {
            prev
        }
    }
}

/// Whether a response is final: it requests no tool and its finish reason
/// is neither "tool_calls" nor "function_call".
pub open spec fn response_is_final(n_calls: nat, finish_reason: Option<Seq<char>>) -> bool {
    n_calls == 0 && finish_reason != Some("tool_calls"@) && finish_reason != Some(
        "function_call"@,
    )
}

/// The views of an optional string.
pub open spec fn opt_view(o: Option<String>) -> Option<Seq<char>> {
    match o {
        Some(s) => Some(s@),
        None => None,
    }
}

/// Turns received tool calls into tool calls: those whose arguments parse
/// as JSON (and, when `require_id`, that have an id), in order.
pub fn collect_tool_calls(calls: Vec<PartialToolCall>, require_id: bool) -> (r: Vec<ToolCall>)
    ensures
        calls_view(r@) == kept_calls(partials_view(calls@), require_id),
{
    let ghost all = calls@;
    let n = calls.len();
    let mut rest = calls;
    let mut out: Vec<ToolCall> = Vec::new();
    let mut i: usize = 0;
    while rest.len() > 0
        invariant
            i + rest@.len() == all.len(),
            all.len() == n,
            rest@ == all.skip(i as int),
            calls_view(out@) == kept_calls(partials_view(all.take(i as int)), require_id),
        decreases rest.len(),
    {
        let c = rest.remove(0);
        assert(c == all[i as int]);
        assert(partials_view(all.take(i + 1)).drop_last() =~= partials_view(all.take(i as int)));
        assert(partials_view(all.take(i + 1)).last() == partial_view(c));
        if !require_id || c.id.as_str().unicode_len() > 0 {
            match parse_json_value(c.arguments.as_str()) {
                Some(v) => {
                    let ghost before = out@;
                    out.push(ToolCall { id: c.id, name: c.name, arguments: v });
                    assert(calls_view(out@) =~= calls_view(before).push(
                        (all[i as int].id@, all[i as int].name@, v),
                    ));
                },
                None => {},
            }
        }
        assert(rest@ =~= all.skip(i + 1));
        i = i + 1;
    }
    assert(all.take(i as int) =~= all);
    out
}

/// Whether a finish reason marks a response as final, given how many
/// tools it requests.
fn is_final_response(n_calls: usize, finish_reason: &Option<String>) -> (r: bool)
    ensures
        r == response_is_final(n_calls as nat, opt_view(*finish_reason)),
{
    if n_calls != 0 {
        return false;
    }
    match finish_reason {
        Some(f) => !crate::text::str_eq(f.as_str(), "tool_calls") && !crate::text::str_eq(
            f.as_str(),
            "function_call",
        ),
        None => true,
    }
}

/// The response of a complete (non-streamed) reply: its text (empty when
/// absent), the tool calls whose arguments parse, and whether it is final.
pub fn tool_response_from_reply(
    content: Option<String>,
    calls: Option<Vec<PartialToolCall>>,
    finish_reason: Option<String>,
) -> (r: LLMToolResponse)
    ensures
        r.content@ == (match content {
            Some(c) => c@,
            None => Seq::empty(),
        }),
        calls_view(r.tool_calls@) == (match calls {
            Some(cs) => kept_calls(partials_view(cs@), false),
            None => Seq::empty(),
        }),
        opt_view(r.finish_reason) == opt_view(finish_reason),
        r.is_final == response_is_final(r.tool_calls@.len(), opt_view(finish_reason)),
{
    let content = match content {
        Some(c) => c,
        None => String::new(),
    };
    let tool_calls = match calls {
        Some(cs) => collect_tool_calls(cs, false),
        None => {
            let v: Vec<ToolCall> = Vec::new();
            assert(calls_view(v@) =~= Seq::empty());
            v
        },
    };
    let is_final = is_final_response(tool_calls.len(), &finish_reason);
    LLMToolResponse { content, tool_calls, is_final, finish_reason }
}

/// A choice of a complete reply as plain values: its text, the tool calls
/// it requests (as received) and its finish reason.
#[derive(Debug, Clone)]
pub struct ReplyChoice {
    pub content: Option<String>,
    pub tool_calls: Option<Vec<PartialToolCall>>,
    pub finish_reason: Option<String>,
}

/// The message of a reply with no choice.
pub const NO_CHOICES_IN_RESPONSE: &'static str = "No choices in response";

/// The response of a complete reply from its choices: that of its first
/// choice (see `tool_response_from_reply`), or a parse error when it has
/// none.
pub fn tool_response_from_choices(choices: Vec<ReplyChoice>) -> (r: Result<LLMToolResponse, LLMError>)
    ensures
        choices@.len() == 0 ==> (r matches Err(LLMError::ParseError(m)) && m@ == NO_CHOICES_IN_RESPONSE@),
        choices@.len() > 0 ==> (r matches Ok(resp) && {
            let c = choices@[0];
            &&& resp.content@ == (match c.content {
                Some(t) => t@,
                None => Seq::empty(),
            })
            &&& calls_view(resp.tool_calls@) == (match c.tool_calls {
                Some(cs) => kept_calls(partials_view(cs@), false),
                None => Seq::empty(),
            })
            &&& opt_view(resp.finish_reason) == opt_view(c.finish_reason)
            &&& resp.is_final == response_is_final(resp.tool_calls@.len(), opt_view(c.finish_reason))
        }),
{
    let mut choices = choices;
    if choices.len() == 0 {
        return Err(LLMError::ParseError(owned(NO_CHOICES_IN_RESPONSE)));
    }
    let c = choices.remove(0);
    Ok(tool_response_from_reply(c.content, c.tool_calls, c.finish_reason))
}

/// One tool-call fragment of a streamed delta.
#[derive(Debug, Clone)]
pub struct ToolCallDelta {
    /// Which tool call the fragment belongs to.
    pub index: usize,
    /// The call's id, when this fragment carries it.
    pub id: Option<String>,
    /// The tool's name, when this fragment carries it.
    pub name: Option<String>,
    /// More argument text, when this fragment carries some.
    pub arguments: Option<String>,
}

/// The first choice of one streamed event.
#[derive(Debug, Clone)]
pub struct StreamDelta {
    /// Text to append to the answer.
    pub content: Option<String>,
    /// Tool-call fragments.
    pub tool_calls: Option<Vec<ToolCallDelta>>,
    /// Why generation stopped, when it did.
    pub finish_reason: Option<String>,
}

/// An empty partial tool call.
pub open spec fn empty_partial() -> (Seq<char>, Seq<char>, Seq<char>) {
    (Seq::empty(), Seq::empty(), Seq::empty())
}

/// `cs` extended with empty calls to at least `n` entries.
pub open spec fn padded(cs: Seq<(Seq<char>, Seq<char>, Seq<char>)>, n: nat) -> Seq<
    (Seq<char>, Seq<char>, Seq<char>),
> {
    if cs.len() >= n {
        cs
    } else {
        cs + Seq::new((n - cs.len()) as nat, |i: int| empty_partial())
    }
}

/// The calls after one fragment: the call at its index (created, with the
/// calls before it, if missing) takes the fragment's id and name when given
/// and appends its argument text.
pub open spec fn apply_fragment(cs: Seq<(Seq<char>, Seq<char>, Seq<char>)>, d: ToolCallDelta) -> Seq<
    (Seq<char>, Seq<char>, Seq<char>),
> {
    let p = padded(cs, (d.index + 1) as nat);
    let c = p[d.index as int];
    p.update(
        d.index as int,
        (
            match d.id {
                Some(x) => x@,
                None => c.0,
            },
            match d.name {
                Some(x) => x@,
                None => c.1,
            },
            c.2 + match d.arguments {
                Some(x) => x@,
                None => Seq::empty(),
            },
        ),
    )
}

/// The calls after a sequence of fragments, applied in order.
pub open spec fn apply_fragments(cs: Seq<(Seq<char>, Seq<char>, Seq<char>)>, ds: Seq<ToolCallDelta>) -> Seq<
    (Seq<char>, Seq<char>, Seq<char>),
>
    decreases ds.len(),
{
    if ds.len() == 0 {
        cs
    } else {
        apply_fragment(apply_fragments(cs, ds.drop_last()), ds.last())
    }
}

/// The argument texts of the fragments addressed to call `k`, in order.
pub open spec fn fragment_arguments(ds: Seq<ToolCallDelta>, k: int) -> Seq<char>
    decreases ds.len(),
{
    if ds.len() == 0 {
        Seq::empty()
    } else {
        fragment_arguments(ds.drop_last(), k) + if ds.last().index == k {
            match ds.last().arguments {
                Some(a) => a@,
                None => Seq::empty(),
            }
        } else {
            Seq::empty()
        }
    }
}

/// The arguments call `k` had before: its own, or none for a call that did
/// not exist yet.
pub open spec fn arguments_before(cs: Seq<(Seq<char>, Seq<char>, Seq<char>)>, k: int) -> Seq<char> {
    if 0 <= k < cs.len() {
        cs[k].2
    } else {
        Seq::empty()
    }
}

/// Streaming tool-call fragments appends each fragment's argument text to
/// the call it addresses, in the order the fragments arrive: a call's
/// arguments are its earlier ones followed by those of its fragments, and a
/// call no fragment addresses beyond the known calls does not exist.
pub proof fn lemma_fragments_concatenate_arguments(
    cs: Seq<(Seq<char>, Seq<char>, Seq<char>)>,
    ds: Seq<ToolCallDelta>,
    k: int,
)
    requires
        0 <= k,
    ensures
        apply_fragments(cs, ds).len() >= cs.len(),
        k < apply_fragments(cs, ds).len() ==> apply_fragments(cs, ds)[k].2 == arguments_before(cs, k)
            + fragment_arguments(ds, k),
        k >= apply_fragments(cs, ds).len() ==> fragment_arguments(ds, k) == Seq::<char>::empty(),
    decreases ds.len(),
{
    if ds.len() == 0 {
        assert(arguments_before(cs, k) + Seq::<char>::empty() =~= arguments_before(cs, k));
    } else {
        let prev = apply_fragments(cs, ds.drop_last());
        let d = ds.last();
        lemma_fragments_concatenate_arguments(cs, ds.drop_last(), k);
        let p = padded(prev, (d.index + 1) as nat);
        let own = match d.arguments {
            Some(a) => a@,
            None => Seq::<char>::empty(),
        };
        assert(p.len() >= prev.len());
        assert(forall|j: int| 0 <= j < prev.len() ==> p[j] == prev[j]);
        assert(forall|j: int| prev.len() <= j < p.len() ==> p[j] == empty_partial());
        if k < p.len() {
            if k == d.index {
                assert(fragment_arguments(ds, k) == fragment_arguments(ds.drop_last(), k) + own);
                if k < prev.len() {
                    assert(arguments_before(cs, k) + fragment_arguments(ds, k) =~= (arguments_before(cs, k)
                        + fragment_arguments(ds.drop_last(), k)) + own);
                } else {
                    assert(arguments_before(cs, k) =~= Seq::<char>::empty());
                    assert(arguments_before(cs, k) + fragment_arguments(ds, k) =~= Seq::<char>::empty() + own);
                }
            } else {
                assert(fragment_arguments(ds, k) =~= fragment_arguments(ds.drop_last(), k));
                if k >= prev.len() {
                    assert(arguments_before(cs, k) =~= Seq::<char>::empty());
                    assert(arguments_before(cs, k) + fragment_arguments(ds, k) =~= Seq::<char>::empty());
                }
            }
        } else {
            assert(fragment_arguments(ds, k) =~= fragment_arguments(ds.drop_last(), k));
        }
    }
}

/// A stream's state after a sequence of deltas.
pub open spec fn stream_after(s: ToolCallStreamView, ds: Seq<StreamDelta>) -> ToolCallStreamView
    decreases ds.len(),
{
    if ds.len() == 0 {
        s
    } else {
        stream_step(stream_after(s, ds.drop_last()), ds.last())
    }
}

/// The text some deltas carry, in order.
pub open spec fn streamed_text(ds: Seq<StreamDelta>) -> Seq<char>
    decreases ds.len(),
{
    if ds.len() == 0 {
        Seq::empty()
    } else {
        streamed_text(ds.drop_last()) + match ds.last().content {
            Some(c) => c@,
            None => Seq::empty(),
        }
    }
}

/// The text of a stream is what it had followed by the text of every
/// delta, in order; what is forwarded to the reader is that same text.
pub proof fn lemma_stream_text_concatenates(s: ToolCallStreamView, ds: Seq<StreamDelta>)
    ensures
        stream_after(s, ds).content == s.content + streamed_text(ds),
    decreases ds.len(),
{
    if ds.len() == 0 {
        assert(s.content + Seq::<char>::empty() =~= s.content);
    } else {
        lemma_stream_text_concatenates(s, ds.drop_last());
        let c = match ds.last().content {
            Some(c) => c@,
            None => Seq::<char>::empty(),
        };
        assert(s.content + streamed_text(ds) =~= (s.content + streamed_text(ds.drop_last())) + c);
    }
}

/// Whether every fragment of a delta has an index below the largest one.
pub open spec fn delta_indices_fit(d: StreamDelta) -> bool {
    d.tool_calls matches Some(ts) ==> forall|k: int| 0 <= k < ts@.len() ==> ts@[k].index < usize::MAX
}

/// The state of a streamed tool-using response: the text so far, the tool
/// calls being received, and the last finish reason.
pub struct ToolCallStream {
    content: String,
    calls: Vec<PartialToolCall>,
    finish_reason: Option<String>,
}

/// A tool-call stream as plain values.
pub struct ToolCallStreamView {
    pub content: Seq<char>,
    pub calls: Seq<(Seq<char>, Seq<char>, Seq<char>)>,
    pub finish_reason: Option<Seq<char>>,
}

impl View for ToolCallStream {
    type V = ToolCallStreamView;

    closed spec fn view(&self) -> ToolCallStreamView {
        ToolCallStreamView {
            content: self.content@,
            calls: partials_view(self.calls@),
            finish_reason: opt_view(self.finish_reason),
        }
    }
}

/// The stream state after one delta.
pub open spec fn stream_step(s: ToolCallStreamView, d: StreamDelta) -> ToolCallStreamView {
    ToolCallStreamView {
        content: s.content + match d.content {
            Some(c) => c@,
            None => Seq::empty(),
        },
        calls: match d.tool_calls {
            Some(ts) => apply_fragments(s.calls, ts@),
            None => s.calls,
        },
        finish_reason: match d.finish_reason {
            Some(f) => Some(f@),
            None => s.finish_reason,
        },
    }
}

impl ToolCallStream {
    /// A stream that has received nothing.
    pub fn new() -> (s: Self)
        ensures
            s@.content.len() == 0,
            s@.calls.len() == 0,
            s@.finish_reason is None,
    {
        let s = ToolCallStream { content: String::new(), calls: Vec::new(), finish_reason: None };
        assert(partials_view(s.calls@) =~= Seq::empty());
        s
    }

    /// Applies one fragment to the calls.
    fn apply_fragment(&mut self, d: ToolCallDelta)
        requires
            d.index < usize::MAX,
        ensures
            final(self)@ == (ToolCallStreamView {
                calls: apply_fragment(old(self)@.calls, d),
                ..old(self)@
            }),
    {
        let ghost before = partials_view(self.calls@);
        let idx = d.index;
        while self.calls.len() <= idx
            invariant
                idx < usize::MAX,
                partials_view(self.calls@) == padded(before, self.calls@.len()),
                self.calls@.len() >= before.len(),
                self.calls@.len() <= before.len() || self.calls@.len() <= idx + 1,
                self.content == old(self).content,
                self.finish_reason == old(self).finish_reason,
            decreases idx + 1 - self.calls@.len(),
        {
            let ghost prev = self.calls@;
            self.calls.push(
                PartialToolCall { id: String::new(), name: String::new(), arguments: String::new() },
            );
            let ghost now = padded(before, self.calls@.len());
            assert forall|k: int| 0 <= k < self.calls@.len() implies partials_view(self.calls@)[k]
                == now[k] by {
                if k < prev.len() {
                    assert(partials_view(prev)[k] == padded(before, prev.len())[k]);
                    if k >= before.len() {
                        assert(padded(before, prev.len())[k] == empty_partial());
                    }
                }
            }
            assert(partials_view(self.calls@) =~= now);
        }
        assert(partials_view(self.calls@) =~= padded(before, (idx + 1) as nat));
        let mut c = self.calls.remove(idx);
        let ghost cv = partial_view(c);
        match d.id {
            Some(x) => {
                c.id = x;
            },
            None => {},
        }
        match d.name {
            Some(x) => {
                c.name = x;
            },
            None => {},
        }
        match d.arguments {
            Some(x) => {
                c.arguments.append(x.as_str());
            },
            None => {
                assert(c.arguments@ + Seq::<char>::empty() =~= c.arguments@);
            },
        }
        self.calls.insert(idx, c);
        assert(partials_view(self.calls@) =~= apply_fragment(before, d));
    }

    /// Applies one streamed delta, and gives the text to forward to the
    /// reader, if the delta carries some.
    pub fn apply(&mut self, delta: StreamDelta) -> (forward: Option<String>)
        requires
            delta_indices_fit(delta),
        ensures
            final(self)@ == stream_step(old(self)@, delta),
            opt_view(forward) == opt_view(delta.content),
    {
        let forward = match delta.content {
            Some(c) => {
                self.content.append(c.as_str());
                Some(c)
            },
            None => {
                assert(self.content@ + Seq::<char>::empty() =~= self.content@);
                None
            },
        };
        match delta.tool_calls {
            Some(ts) => {
                let ghost all = ts@;
                let ghost start = self@.calls;
                let n = ts.len();
                let mut rest = ts;
                let mut i: usize = 0;
                while rest.len() > 0
                    invariant
                        i + rest@.len() == all.len(),
                        all.len() == n,
                        rest@ == all.skip(i as int),
                        forall|k: int| 0 <= k < all.len() ==> all[k].index < usize::MAX,
                        self@.calls == apply_fragments(start, all.take(i as int)),
                        self@.content == old(self)@.content + match delta.content {
                            Some(c) => c@,
                            None => Seq::empty(),
                        },
                        self@.finish_reason == old(self)@.finish_reason,
                    decreases rest.len(),
                {
                    let d = rest.remove(0);
                    assert(d == all[i as int]);
                    assert(all.take(i + 1).drop_last() =~= all.take(i as int));
                    self.apply_fragment(d);
                    assert(rest@ =~= all.skip(i + 1));
                    i = i + 1;
                }
                assert(all.take(i as int) =~= all);
            },
            None => {},
        }
        match delta.finish_reason {
            Some(f) => {
                self.finish_reason = Some(f);
            },
            None => {},
        }
        forward
    }

    /// The response the stream amounts to: its text, the received calls
    /// that have an id and whose arguments parse, and whether it is final.
    pub fn finish(self) -> (r: LLMToolResponse)
        ensures
            r.content@ == self@.content,
            calls_view(r.tool_calls@) == kept_calls(self@.calls, true),
            opt_view(r.finish_reason) == self@.finish_reason,
            r.is_final == response_is_final(r.tool_calls@.len(), self@.finish_reason),
    {
        let tool_calls = collect_tool_calls(self.calls, true);
        let is_final = is_final_response(tool_calls.len(), &self.finish_reason);
        LLMToolResponse {
            content: self.content,
            tool_calls,
            is_final,
            finish_reason: self.finish_reason,
        }
    }
}

// ---------------------------------------------------------------------------
// Replies
// ---------------------------------------------------------------------------

/// The text of a chat message: its content, or else its reasoning content.
pub open spec fn message_text(content: Seq<char>, reasoning: Option<Seq<char>>) -> Seq<char> {
    if content.len() > 0 {
        content
    } else {
        match reasoning {
            Some(r) => r,
            None => Seq::empty(),
        }
    }
}

/// The message of a reply with no usable text.
pub const EMPTY_CONTENT_MESSAGE: &'static str = "LLM returned empty content. Raw response: ";

/// The message of a reply with no choices.
pub const NO_CHOICES_MESSAGE: &'static str = "LLM response had no choices. Raw response: ";

/// The answer of a chat reply, given its first choice's content and
/// reasoning content (none when it had no choice) and the raw reply: the
/// text, or a parse error quoting the raw reply when there is none.
pub fn chat_reply_text(first: Option<(String, Option<String>)>, raw: &str) -> (r: Result<
    String,
    LLMError,
>)
    requires
        raw.spec_bytes().len() <= usize::MAX,
        (match first {
            Some(m) => message_text(m.0@, opt_view(m.1)).len() == 0,
            None => true,
        }) ==> vstd::utf8::is_char_boundary(raw.spec_bytes(), quoted_len(raw)),
    ensures
        match first {
            Some(m) => {
                let t = message_text(m.0@, opt_view(m.1));
                if t.len() > 0 {
                    r matches Ok(s) && s@ == t
                } else {
                    r matches Err(LLMError::ParseError(e)) && e@ == EMPTY_CONTENT_MESSAGE@ + quoted(
                        raw,
                    )
                }
            },
            None => r matches Err(LLMError::ParseError(e)) && e@ == NO_CHOICES_MESSAGE@ + quoted(
                raw,
            ),
        },
{
    match first {
        Some((content, reasoning)) => {
            let text = if content.as_str().unicode_len() > 0 {
                content
            } else {
                match reasoning {
                    Some(r) => r,
                    None => String::new(),
                }
            };
            if text.as_str().unicode_len() > 0 {
                Ok(text)
            } else {
                Err(LLMError::ParseError(quoting_message(EMPTY_CONTENT_MESSAGE, raw)))
            }
        },
        None => Err(LLMError::ParseError(quoting_message(NO_CHOICES_MESSAGE, raw))),
    }
}

/// The text of the "text" blocks of an Anthropic reply, concatenated.
pub open spec fn claude_text(blocks: Seq<(Seq<char>, Seq<char>)>) -> Seq<char>
    decreases blocks.len(),
{
    if blocks.len() == 0 {
        Seq::empty()
    } else {
        claude_text(blocks.drop_last()) + if blocks.last().0 == "text"@ {
            blocks.last().1
        } else {
            Seq::empty()
        }
    }
}

/// The text of an Anthropic reply from its content blocks (type, text).
pub fn claude_reply_text(blocks: &Vec<(String, String)>) -> (r: String)
    ensures
        r@ == claude_text(blocks@.map_values(|b: (String, String)| (b.0@, b.1@))),
{
    let ghost bs = blocks@.map_values(|b: (String, String)| (b.0@, b.1@));
    let mut r = String::new();
    let mut i: usize = 0;
    while i < blocks.len()
        invariant
            i <= blocks@.len(),
            bs == blocks@.map_values(|b: (String, String)| (b.0@, b.1@)),
            r@ == claude_text(bs.take(i as int)),
        decreases blocks.len() - i,
    {
        assert(bs.take(i + 1).drop_last() =~= bs.take(i as int));
        assert(bs.take(i + 1).last() == (blocks@[i as int].0@, blocks@[i as int].1@));
        if crate::text::str_eq(blocks[i].0.as_str(), "text") {
            r.append(blocks[i].1.as_str());
        } else {
            assert(r@ + Seq::<char>::empty() =~= r@);
        }
        i = i + 1;
    }
    assert(bs.take(i as int) =~= bs);
    r
}

} // verus!
