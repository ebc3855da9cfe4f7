use arq_core::llm::bedrock::{
    bedrock_error, bedrock_reply, bedrock_tool_response, convert_tools_to_bedrock, converse_turns, message_to_bedrock,
    message_turns, BedrockBlock, BedrockEvent, BedrockRole, BedrockStream,
};
use arq_core::llm::error::LLMError;
use arq_core::llm::tool_call::{Message, MessageContent, MessageRole, ToolCall};

fn json(text: &str) -> serde_json::Value {
    serde_json::from_str(text).unwrap()
}

fn system(text: &str) -> Message {
    Message { role: MessageRole::System, content: MessageContent::Text(text.to_string()), tool_call_id: None, name: None }
}

#[test]
fn failures_are_classified() {
    assert_eq!(bedrock_error("AccessDeniedException: no", ""), LLMError::MissingApiKey);
    assert_eq!(bedrock_error("missing credentials", ""), LLMError::MissingApiKey);
    assert_eq!(bedrock_error("ThrottlingException: slow down", ""), LLMError::RateLimited);
    assert_eq!(
        bedrock_error("timeout", "Bedrock API error: "),
        LLMError::RequestFailed("Bedrock API error: timeout".to_string())
    );
    assert_eq!(bedrock_error("timeout", ""), LLMError::RequestFailed("timeout".to_string()));
}

#[test]
fn messages_become_turns() {
    assert!(message_to_bedrock(&system("be brief")).is_none());

    let user = message_to_bedrock(&Message::user("hi")).unwrap();
    assert_eq!(user.role, BedrockRole::User);
    assert!(matches!(&user.content[..], [BedrockBlock::Text(t)] if t == "hi"));

    let assistant = message_to_bedrock(&Message::assistant("hello")).unwrap();
    assert_eq!(assistant.role, BedrockRole::Assistant);

    let result = message_to_bedrock(&Message::tool_result("call-1", "42")).unwrap();
    assert_eq!(result.role, BedrockRole::User);
    assert!(matches!(&result.content[..],
        [BedrockBlock::ToolResult { tool_use_id, text }] if tool_use_id == "call-1" && text == "42"));

    let calls = vec![
        ToolCall::new("c1", "read_file", json(r#"{"path":"a.rs"}"#)),
        ToolCall::new("c2", "list", json("{}")),
    ];
    let uses = message_to_bedrock(&Message::assistant_tool_calls(calls)).unwrap();
    assert_eq!(uses.role, BedrockRole::Assistant);
    assert_eq!(uses.content.len(), 2);
    match &uses.content[0] {
        BedrockBlock::ToolUse { id, name, input } => {
            assert_eq!(id, "c1");
            assert_eq!(name, "read_file");
            assert_eq!(input, &json(r#"{"path":"a.rs"}"#));
        }
        _ => panic!("expected a tool use"),
    }

    assert!(message_to_bedrock(&Message::assistant_tool_calls(Vec::new())).is_none());
}

#[test]
fn conversations_need_a_turn() {
    let turns = message_turns(&[system("s"), Message::user("a"), Message::assistant("b")]);
    assert_eq!(turns.len(), 2);
    assert_eq!(turns[1].role, BedrockRole::Assistant);
    match converse_turns(&[system("only instructions")]) {
        Err(LLMError::RequestFailed(m)) => assert_eq!(m, "No valid messages to send to Bedrock"),
        _ => panic!("expected a failed request"),
    }
    assert_eq!(converse_turns(&[Message::user("q")]).unwrap().len(), 1);
}

#[test]
fn replies_join_text_and_collect_tool_uses() {
    let blocks = vec![
        BedrockBlock::Text("Let me ".to_string()),
        BedrockBlock::ToolUse { id: "t1".to_string(), name: "grep".to_string(), input: json(r#"{"q":"x"}"#) },
        BedrockBlock::Other,
        BedrockBlock::Text("look.".to_string()),
    ];
    let (text, calls) = bedrock_reply(&blocks);
    assert_eq!(text, "Let me look.");
    assert_eq!(calls.len(), 1);
    assert_eq!(calls[0].name, "grep");

    let r = bedrock_tool_response(&blocks, "ToolUse");
    assert!(!r.is_final);
    assert_eq!(r.finish_reason.as_deref(), Some("ToolUse"));

    let plain = bedrock_tool_response(&vec![BedrockBlock::Text("done".to_string())], "EndTurn");
    assert!(plain.is_final);
    assert_eq!(plain.content, "done");
    let stopped_for_tool = bedrock_tool_response(&vec![BedrockBlock::Text("x".to_string())], "ToolUse");
    assert!(!stopped_for_tool.is_final);
}

#[test]
fn stream_events_build_the_response() {
    let mut stream = BedrockStream::new();
    assert_eq!(stream.apply(BedrockEvent::TextDelta("Hel".to_string())), Some("Hel".to_string()));
    assert_eq!(stream.apply(BedrockEvent::TextDelta("lo".to_string())), Some("lo".to_string()));
    assert_eq!(stream.apply(BedrockEvent::BlockStop), None);
    stream.apply(BedrockEvent::ToolUseStart { id: "u1".to_string(), name: "read".to_string() });
    stream.apply(BedrockEvent::ToolInputDelta("{\"pa".to_string()));
    stream.apply(BedrockEvent::ToolInputDelta("th\":\"x\"}".to_string()));
    stream.apply(BedrockEvent::BlockStop);
    stream.apply(BedrockEvent::ToolUseStart { id: "u2".to_string(), name: "bad".to_string() });
    stream.apply(BedrockEvent::ToolInputDelta("{not json".to_string()));
    stream.apply(BedrockEvent::BlockStop);
    stream.apply(BedrockEvent::ToolUseStart { id: "u3".to_string(), name: "cut".to_string() });
    stream.apply(BedrockEvent::MessageStop("ToolUse".to_string()));
    let r = stream.finish();
    assert_eq!(r.content, "Hello");
    assert_eq!(r.tool_calls.len(), 2);
    assert_eq!(r.tool_calls[0].id, "u1");
    assert_eq!(r.tool_calls[0].arguments, json(r#"{"path":"x"}"#));
    assert_eq!(r.tool_calls[1].name, "bad");
    assert_eq!(r.tool_calls[1].arguments, json("{}"));
    assert_eq!(r.finish_reason.as_deref(), Some("ToolUse"));
    assert!(!r.is_final);

    let mut text_only = BedrockStream::new();
    text_only.apply(BedrockEvent::TextDelta("ok".to_string()));
    text_only.apply(BedrockEvent::MessageStop("EndTurn".to_string()));
    let r = text_only.finish();
    assert!(r.is_final);
    assert_eq!(r.finish_reason.as_deref(), Some("EndTurn"));
}

#[test]
fn tools_become_converse_declarations() {
    let tools = vec![
        json(r#"{"type":"function","function":{"name":"read","description":"Read a file","parameters":{"type":"object","properties":{"path":{"type":"string"}}}}}"#),
        json(r#"{"type":"function","function":{"name":"list","description":5}}"#),
        json(r#"{"type":"function","function":{"name":"nodesc"}}"#),
        json(r#"{"type":"function","function":{"description":"no name"}}"#),
        json(r#"{"name":"flat"}"#),
    ];
    let specs = convert_tools_to_bedrock(&tools);
    assert_eq!(specs.len(), 2);
    assert_eq!(specs[0].name, "read");
    assert_eq!(specs[0].description, "Read a file");
    assert_eq!(specs[0].schema, json(r#"{"type":"object","properties":{"path":{"type":"string"}}}"#));
    assert_eq!(specs[1].name, "list");
    assert_eq!(specs[1].description, "");
    assert_eq!(specs[1].schema, json(r#"{"type":"object","properties":{}}"#));
}
