use arq_core::llm::error::LLMError;
use arq_core::llm::stream::{tool_response_from_choices, PartialToolCall, ReplyChoice};

#[test]
fn reply_without_choices_is_a_parse_error() {
    match tool_response_from_choices(Vec::new()) {
        Err(LLMError::ParseError(m)) => assert_eq!(m, "No choices in response"),
        _ => panic!("expected a parse error"),
    }
}

#[test]
fn first_choice_makes_the_response() {
    let first = ReplyChoice {
        content: Some("thinking".to_string()),
        tool_calls: Some(vec![PartialToolCall {
            id: "c1".to_string(),
            name: "grep".to_string(),
            arguments: "{\"q\":1}".to_string(),
        }]),
        finish_reason: Some("tool_calls".to_string()),
    };
    let second = ReplyChoice { content: Some("other".to_string()), tool_calls: None, finish_reason: None };
    let r = tool_response_from_choices(vec![first, second]).unwrap();
    assert_eq!(r.content, "thinking");
    assert_eq!(r.tool_calls.len(), 1);
    assert_eq!(r.tool_calls[0].arguments, serde_json::from_str::<serde_json::Value>("{\"q\":1}").unwrap());
    assert!(!r.is_final);
}
