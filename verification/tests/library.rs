use arq_core::knowledge::indexer::chunking::compute_hash;
use arq_core::knowledge::models::FileNode;
use arq_core::knowledge::ontology::edges::behavioral::CallType;
use arq_core::knowledge::ontology::nodes::code::Visibility;
use arq_core::knowledge::parser::registry::ParserRegistry;
use arq_core::knowledge::parser::rust::{
    attribute_text_of, calculate_complexity, call_edge, const_param_text, derive_name_of,
    doc_comment_of_values, entity_id, impl_id, is_listed_attribute, qualified_method_name,
    receiver_parameter, restricted_visibility_of, type_param_text_of, typed_parameter,
};
use arq_core::knowledge::records::escape_record_id;
use arq_core::llm::request::{bearer_authorization, chat_completions_url, chat_messages, message_to_openai, tool_choice};
use arq_core::llm::stream::{
    tool_response_from_reply, PartialToolCall, SseBuffer, StreamDelta, ToolCallDelta, ToolCallStream,
};
use arq_core::llm::tool_call::{Message, MessageContent, MessageRole, ToolCall};
use arq_core::phase::Phase;
use arq_core::research::document::{Dependency, Finding, ResearchDoc, Source, SourceType};
use arq_core::response::extract_json;
use arq_core::storage::files::{current_id_of, memory_of, sort_newest_first};
use arq_core::task::{TaskSummary, Timestamp};

fn s(x: &str) -> String {
    x.to_string()
}

#[test]
fn phase_moves_forward_one_step_at_a_time() {
    assert_eq!(Phase::Research.next(), Some(Phase::Planning));
    assert_eq!(Phase::Planning.next(), Some(Phase::Agent));
    assert_eq!(Phase::Agent.next(), Some(Phase::Complete));
    assert_eq!(Phase::Complete.next(), None);
}

#[test]
fn registry_lookup_ignores_case_and_paths() {
    let r = ParserRegistry::new();
    assert_eq!(r.parser_for_extension("PY"), r.parser_for_extension("py"));
    assert!(r.parser_for_path("a/b/Main.JAVA").is_some());
    assert!(r.parser_for_path("Makefile").is_none());
}

#[test]
fn extract_json_takes_fenced_block_or_braces() {
    assert_eq!(extract_json("```json\n{\"a\": 1}\n```"), "{\"a\": 1}");
    assert_eq!(extract_json("  Here: {\"b\": 2} done "), "{\"b\": 2}");
    assert_eq!(extract_json("  plain  "), "plain");
}

#[test]
fn research_markdown_layout() {
    let mut doc = ResearchDoc::new("rate-limit");
    doc.summary = s("Short.");
    doc.codebase_analysis.push(Finding { title: s("Routing"), description: s("Uses axum."), related_files: vec![] });
    doc.dependencies.push(Dependency { name: s("tower"), description: s("middleware"), is_external: true });
    doc.suggested_approach = s("Add a layer.");
    doc.sources.push(Source { source_type: SourceType::File, location: s("src/main.rs") });
    assert_eq!(
        doc.to_markdown(),
        "# Research: rate-limit\n\n## Summary\n\nShort.\n\n## Codebase Analysis\n\n### Routing\n\nUses axum.\n\n## Dependencies\n\n- **tower** (external): middleware\n\n## Suggested Approach\n\nAdd a layer.\n\n## Sources\n\n- File: src/main.rs\n"
    );
}

#[test]
fn record_ids_escape_special_characters() {
    assert_eq!(escape_record_id("function:src/a.rs:f"), "function:`src/a.rs:f`");
    assert_eq!(escape_record_id("function:plain"), "function:plain");
    assert_eq!(escape_record_id("noTable"), "noTable");
}

#[test]
fn file_node_takes_name_and_extension() {
    let f = FileNode::new("src/lib.rs", "abc", 10);
    assert_eq!(f.name, "lib.rs");
    assert_eq!(f.extension, "rs");
}

#[test]
fn hash_is_sha256_hex() {
    assert_eq!(
        compute_hash("abc"),
        "ba7816bf8f01cfea414140de5dae2223b00361a396177a9cb410ff61f20015ad"
    );
}

fn summary(id: &str, secs: i64, nanos: u32) -> TaskSummary {
    let t = Timestamp { secs, nanos };
    TaskSummary { id: s(id), name: s(id), phase: Phase::Research, created_at: t, updated_at: t }
}

#[test]
fn summaries_sort_newest_first() {
    let sorted = sort_newest_first(vec![summary("a", 5, 0), summary("b", 9, 0), summary("c", 5, 7), summary("d", 1, 0)]);
    let ids: Vec<&str> = sorted.iter().map(|x| x.id.as_str()).collect();
    assert_eq!(ids, vec!["b", "c", "a", "d"]);
}

#[test]
fn summaries_updated_together_keep_their_order() {
    let sorted = sort_newest_first(vec![summary("x", 3, 0), summary("y", 8, 0), summary("z", 3, 0), summary("w", 8, 0)]);
    let ids: Vec<&str> = sorted.iter().map(|x| x.id.as_str()).collect();
    assert_eq!(ids, vec!["y", "w", "x", "z"]);
}

#[test]
fn stored_markers_and_memory() {
    assert_eq!(current_id_of("  abc-1\n"), Some(s("abc-1")));
    assert_eq!(current_id_of(" \n"), None);
    assert_eq!(memory_of("notes\n"), Some(s("notes\n")));
    assert_eq!(memory_of("\t \n"), None);
}

#[test]
fn openai_wire_messages() {
    let tool_result = Message {
        role: MessageRole::Tool,
        content: MessageContent::Text(s("42")),
        tool_call_id: Some(s("call_1")),
        name: None,
    };
    let w = message_to_openai(&tool_result);
    assert_eq!(w.role, "tool");
    assert_eq!(w.content.as_deref(), Some("42"));
    assert_eq!(w.tool_call_id.as_deref(), Some("call_1"));
    assert!(w.tool_calls.is_none());

    let calls = Message {
        role: MessageRole::Assistant,
        content: MessageContent::ToolCalls(vec![ToolCall::new("c1", "read_file", serde_json::from_str::<serde_json::Value>("{\"path\": \"a\"}").unwrap())]),
        tool_call_id: None,
        name: None,
    };
    let w = message_to_openai(&calls);
    assert_eq!(w.role, "assistant");
    assert!(w.content.is_none());
    let wc = w.tool_calls.unwrap();
    assert_eq!(wc.len(), 1);
    assert_eq!(wc[0].id, "c1");
    assert_eq!(wc[0].name, "read_file");
    assert_eq!(wc[0].arguments, "{\"path\":\"a\"}");

    let all = chat_messages(Some("be brief"), &[Message::user("hi")]);
    assert_eq!(all.len(), 2);
    assert_eq!(all[0].role, "system");
    assert_eq!(all[0].content.as_deref(), Some("be brief"));
    assert_eq!(all[1].role, "user");
    assert_eq!(chat_messages(None, &[Message::user("hi")]).len(), 1);
}

#[test]
fn openai_request_parts() {
    assert_eq!(chat_completions_url("http://h/v1"), "http://h/v1/chat/completions");
    assert_eq!(bearer_authorization("k"), Some(s("Bearer k")));
    assert_eq!(bearer_authorization(""), None);
    assert_eq!(tool_choice(0), None);
    assert_eq!(tool_choice(2), Some(s("auto")));
}

#[test]
fn streamed_tool_calls_concatenate_arguments() {
    let mut st = ToolCallStream::new();
    let frag = |index: usize, id: Option<&str>, name: Option<&str>, args: Option<&str>| ToolCallDelta {
        index,
        id: id.map(s),
        name: name.map(s),
        arguments: args.map(s),
    };
    let forwarded = st.apply(StreamDelta {
        content: Some(s("Let me look. ")),
        tool_calls: Some(vec![frag(0, Some("c0"), Some("read"), Some("{\"pa"))]),
        finish_reason: None,
    });
    assert_eq!(forwarded.as_deref(), Some("Let me look. "));
    st.apply(StreamDelta { content: None, tool_calls: Some(vec![frag(0, None, None, Some("th\":1}"))]), finish_reason: None });
    st.apply(StreamDelta { content: None, tool_calls: None, finish_reason: Some(s("tool_calls")) });
    let r = st.finish();
    assert_eq!(r.content, "Let me look. ");
    assert_eq!(r.tool_calls.len(), 1);
    assert_eq!(r.tool_calls[0].id, "c0");
    assert_eq!(r.tool_calls[0].name, "read");
    assert_eq!(r.tool_calls[0].arguments, serde_json::from_str::<serde_json::Value>("{\"path\": 1}").unwrap());
    assert!(!r.is_final);
}

#[test]
fn reply_drops_calls_with_bad_arguments() {
    let r = tool_response_from_reply(
        Some(s("done")),
        Some(vec![
            PartialToolCall { id: s("a"), name: s("x"), arguments: s("{}") },
            PartialToolCall { id: s("b"), name: s("y"), arguments: s("not json") },
        ]),
        Some(s("stop")),
    );
    assert_eq!(r.content, "done");
    assert_eq!(r.tool_calls.len(), 1);
    assert_eq!(r.tool_calls[0].id, "a");
    assert!(!r.is_final);
    let plain = tool_response_from_reply(None, None, Some(s("stop")));
    assert_eq!(plain.content, "");
    assert!(plain.is_final);
}

#[test]
fn sse_buffer_cuts_lines_and_events() {
    let mut b = SseBuffer::new();
    b.push("data: a\r\nda");
    assert_eq!(b.next_line(), Some(s("data: a")));
    assert_eq!(b.next_line(), None);
    b.push("ta: b\n\nevent: x\n");
    assert_eq!(b.next_event(), Some(s("data: b")));
    assert_eq!(b.next_event(), None);
}

#[test]
fn rust_helpers_name_things() {
    assert_eq!(entity_id("struct", "a.rs", "Config"), "struct:a.rs:Config");
    assert_eq!(impl_id("a.rs", Some("Display"), "Point"), "impl:a.rs:Display_for_Point");
    assert_eq!(impl_id("a.rs", None, "Point"), "impl:a.rs:Point");
    assert_eq!(qualified_method_name(Some("Point"), "norm"), "Point::norm");
    assert_eq!(qualified_method_name(None, "norm"), "norm");
    assert_eq!(doc_comment_of_values(&vec![s(" A config."), s(" Second line. ")]), Some(s("A config.\nSecond line.")));
    assert_eq!(doc_comment_of_values(&vec![]), None);
    assert_eq!(derive_name_of(&vec![s("serde"), s("Serialize")]), "Serialize");
    assert_eq!(attribute_text_of(&vec![s("tokio"), s("test")]), "#[tokio::test]");
    assert!(!is_listed_attribute(&vec![s("derive")]));
    assert!(is_listed_attribute(&vec![s("cfg")]));
    assert_eq!(restricted_visibility_of(&vec![s("crate")]), Visibility::PublicCrate);
    assert_eq!(restricted_visibility_of(&vec![s("super")]), Visibility::PublicSuper);
    assert_eq!(restricted_visibility_of(&vec![s("crate"), s("a")]), Visibility::PublicIn);
    assert_eq!(type_param_text_of("T", &vec![s("Clone"), s("Send")]), "T: Clone + Send");
    assert_eq!(type_param_text_of("T", &vec![]), "T");
    assert_eq!(const_param_text("N", "usize"), "const N: usize");
    let p = receiver_parameter(true, true);
    assert_eq!((p.name.as_str(), p.type_str.as_str(), p.is_mutable, p.is_reference), ("self", "&mut self", true, true));
    let p = typed_parameter(Some(("count", true)), "usize", false);
    assert_eq!((p.name.as_str(), p.is_mutable), ("count", true));
    assert_eq!(typed_parameter(None, "u8", true).name, "_");
}

#[test]
fn rust_call_edges() {
    let e = call_edge("function:a.rs:main", "Point", false, true, false).unwrap();
    assert_eq!(e.to, "function:?:Point");
    assert_eq!(e.call_type, CallType::Constructor);
    assert!(e.is_conditional && !e.is_in_loop);
    assert_eq!(call_edge("f", "helper", false, false, true).unwrap().call_type, CallType::Direct);
    assert_eq!(call_edge("f", "push", true, false, false).unwrap().call_type, CallType::Method);
    assert!(call_edge("f", "vec!", false, false, false).is_none());
}

#[test]
fn rust_complexity_counts_branching_in_range() {
    let lines = vec![s("fn f(x: u8) -> u8 {"), s("    if x > 1 && x < 5 { 1 } else { 2 }"), s("}")];
    let m = calculate_complexity(&lines, 1, 3).unwrap();
    assert_eq!(m.loc, 3);
    // if, else, && each once.
    assert_eq!(m.cyclomatic, 4);
    assert!(calculate_complexity(&lines, 3, 2).is_none());
    let one = calculate_complexity(&lines, 0, 1).unwrap();
    assert_eq!(one.loc, 1);
    assert_eq!(calculate_complexity(&lines, 2, 99).unwrap().loc, 2);
}
