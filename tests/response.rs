use ccor::models::{
    ContentBlock, OpenAIChoice, OpenAIFunction, OpenAIMessage, OpenAIResponse, OpenAIToolCall,
};
use ccor::anthropic_to_openai::format_anthropic_to_openai;
use ccor::config::Settings;
use ccor::models::{AnthropicMessage, AnthropicRequest, MessageContent};
use ccor::openai_to_anthropic::{format_openai_to_anthropic, stop_reason, TranslateError};

fn response(content: Option<&str>, calls: Option<Vec<OpenAIToolCall>>, finish: &str) -> OpenAIResponse {
    OpenAIResponse {
        id: "r1".to_string(),
        choices: vec![OpenAIChoice {
            index: 0,
            message: OpenAIMessage {
                role: "assistant".to_string(),
                content: content.map(|s| s.to_string()),
                tool_calls: calls,
                tool_call_id: None,
            },
            finish_reason: finish.to_string(),
        }],
        model: "m".to_string(),
    }
}

fn call(id: &str, name: &str, args: &str) -> OpenAIToolCall {
    OpenAIToolCall {
        id: id.to_string(),
        tool_type: "function".to_string(),
        function: OpenAIFunction { name: name.to_string(), arguments: args.to_string() },
    }
}

#[test]
fn text_reply_ends_turn() {
    let r = format_openai_to_anthropic(response(Some("Hello there"), None, "stop")).unwrap();
    assert_eq!(r.id, "r1");
    assert_eq!(r.response_type, "message");
    assert_eq!(r.role, "assistant");
    assert_eq!(r.model, "m");
    assert_eq!(r.stop_reason, "end_turn");
    assert!(r.stop_sequence.is_none());
    assert_eq!(r.content.len(), 1);
    match &r.content[0] {
        ContentBlock::Text { text } => assert_eq!(text, "Hello there"),
        other => panic!("unexpected block {:?}", other),
    }
}

#[test]
fn other_finish_reasons_end_turn() {
    for f in ["stop", "length", "content_filter", "something_new", ""] {
        let r = format_openai_to_anthropic(response(Some("x"), None, f)).unwrap();
        assert_eq!(r.stop_reason, "end_turn");
    }
    assert_eq!(stop_reason("tool_calls"), "tool_use");
    assert_eq!(stop_reason("tool_call"), "end_turn");
}

#[test]
fn tool_calls_become_tool_use_blocks() {
    let r = format_openai_to_anthropic(response(
        Some("checking"),
        Some(vec![call("a", "f", "{\"x\":1}"), call("b", "g", "not json")]),
        "tool_calls",
    ))
    .unwrap();
    assert_eq!(r.stop_reason, "tool_use");
    assert_eq!(r.content.len(), 3);
    assert!(matches!(&r.content[0], ContentBlock::Text { text } if text == "checking"));
    match &r.content[1] {
        ContentBlock::ToolUse { id, name, input } => {
            assert_eq!(id, "a");
            assert_eq!(name, "f");
            assert_eq!(input.text, "{\"x\":1}");
        }
        other => panic!("unexpected block {:?}", other),
    }
    match &r.content[2] {
        ContentBlock::ToolUse { id, name, input } => {
            assert_eq!(id, "b");
            assert_eq!(name, "g");
            assert_eq!(input.text, "{}");
        }
        other => panic!("unexpected block {:?}", other),
    }
}

#[test]
fn no_content_no_text_block() {
    let r = format_openai_to_anthropic(response(None, Some(vec![call("a", "f", "[]")]), "tool_calls")).unwrap();
    assert_eq!(r.content.len(), 1);
    assert!(matches!(&r.content[0], ContentBlock::ToolUse { input, .. } if input.text == "[]"));
}

#[test]
fn empty_choices_is_an_error() {
    let resp = OpenAIResponse { id: "r".to_string(), choices: vec![], model: "m".to_string() };
    assert_eq!(format_openai_to_anthropic(resp).unwrap_err(), TranslateError::EmptyChoices);
}

#[test]
fn only_first_choice_is_read() {
    let mut resp = response(Some("first"), None, "stop");
    let mut second = resp.choices[0].clone();
    second.message.content = Some("second".to_string());
    second.finish_reason = "tool_calls".to_string();
    resp.choices.push(second);
    let r = format_openai_to_anthropic(resp).unwrap();
    assert_eq!(r.stop_reason, "end_turn");
    assert!(matches!(&r.content[0], ContentBlock::Text { text } if text == "first"));
}

#[test]
fn text_round_trip() {
    let req = AnthropicRequest {
        model: "acme-sonnet-4".to_string(),
        messages: vec![AnthropicMessage {
            role: "user".to_string(),
            content: MessageContent::Blocks(vec![
                ContentBlock::Text { text: "Hello, ".to_string() },
                ContentBlock::Text { text: "world".to_string() },
            ]),
        }],
        system: None,
        temperature: None,
        tools: None,
        stream: None,
    };
    let out = format_anthropic_to_openai(req, &Settings::new("a", "b", "c"));
    assert_eq!(out.model, "b");
    let text = out.messages[0].content.clone();
    let back = format_openai_to_anthropic(response(text.as_deref(), None, "stop")).unwrap();
    assert_eq!(back.stop_reason, "end_turn");
    assert!(matches!(&back.content[0], ContentBlock::Text { text } if text == "Hello, world"));
}
