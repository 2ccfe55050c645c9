use ccor::anthropic_to_openai::{format_anthropic_to_openai, function_tool, map_model};
use ccor::config::Settings;
use ccor::json::JsonDoc;
use ccor::models::{
    AnthropicMessage, AnthropicRequest, ContentBlock, MessageContent, OpenAIMessage, SystemPrompt,
    ToolSpec,
};

fn tiers() -> Settings {
    Settings::new("m1", "m2", "m3")
}

fn request(messages: Vec<AnthropicMessage>) -> AnthropicRequest {
    AnthropicRequest {
        model: "acme-3-5-haiku".to_string(),
        messages,
        system: None,
        temperature: None,
        tools: None,
        stream: None,
    }
}

fn msg(role: &str, content: MessageContent) -> AnthropicMessage {
    AnthropicMessage { role: role.to_string(), content }
}

fn text(s: &str) -> ContentBlock {
    ContentBlock::Text { text: s.to_string() }
}

fn assert_text_message(m: &OpenAIMessage, role: &str, content: &str) {
    assert_eq!(m.role, role);
    assert_eq!(m.content.as_deref(), Some(content));
    assert!(m.tool_calls.is_none());
    assert!(m.tool_call_id.is_none());
}

#[test]
fn first_tier_wins_whatever_the_position() {
    let s = tiers();
    assert_eq!(map_model("acme-haiku-sonnet", &s), "m1");
    assert_eq!(map_model("acme-sonnet-haiku", &s), "m1");
    assert_eq!(map_model("opus-sonnet", &s), "m2");
    assert_eq!(map_model("acme-opus-4", &s), "m3");
}

#[test]
fn unmatched_model_passes_through() {
    let s = tiers();
    assert_eq!(map_model("vendor/model-x", &s), "vendor/model-x");
    assert_eq!(map_model("gpt-4o", &s), "gpt-4o");
    assert_eq!(map_model("", &s), "");
}

#[test]
fn tool_result_precedes_user_text() {
    let blocks = vec![
        ContentBlock::ToolResult {
            tool_use_id: "t1".to_string(),
            content: JsonDoc::new("\"42\""),
        },
        text("hello"),
    ];
    let r = format_anthropic_to_openai(request(vec![msg("user", MessageContent::Blocks(blocks))]), &tiers());
    assert_eq!(r.messages.len(), 2);
    assert_eq!(r.messages[0].role, "tool");
    assert_eq!(r.messages[0].tool_call_id.as_deref(), Some("t1"));
    assert_eq!(r.messages[0].content.as_deref(), Some("\"42\""));
    assert_text_message(&r.messages[1], "user", "hello");
}

#[test]
fn user_text_blocks_are_joined_without_separator() {
    let blocks = vec![
        text("a"),
        ContentBlock::ToolResult { tool_use_id: "x".to_string(), content: JsonDoc::null() },
        text("b"),
        ContentBlock::ToolResult { tool_use_id: "y".to_string(), content: JsonDoc::new("[1]") },
    ];
    let r = format_anthropic_to_openai(request(vec![msg("user", MessageContent::Blocks(blocks))]), &tiers());
    assert_eq!(r.messages.len(), 3);
    assert_eq!(r.messages[0].tool_call_id.as_deref(), Some("x"));
    assert_eq!(r.messages[0].content.as_deref(), Some("null"));
    assert_eq!(r.messages[1].tool_call_id.as_deref(), Some("y"));
    assert_text_message(&r.messages[2], "user", "ab");
}

#[test]
fn empty_user_text_gives_no_user_message() {
    let blocks = vec![ContentBlock::ToolResult { tool_use_id: "t".to_string(), content: JsonDoc::null() }];
    let r = format_anthropic_to_openai(request(vec![msg("user", MessageContent::Blocks(blocks))]), &tiers());
    assert_eq!(r.messages.len(), 1);
    assert_eq!(r.messages[0].role, "tool");
}

#[test]
fn assistant_tool_uses_keep_order_and_input() {
    let blocks = vec![
        text("let me look"),
        ContentBlock::ToolUse {
            id: "c1".to_string(),
            name: "search".to_string(),
            input: JsonDoc::new("{\"q\":\"rust\"}"),
        },
        ContentBlock::ToolUse {
            id: "c2".to_string(),
            name: "fetch".to_string(),
            input: JsonDoc::new("{\"url\":\"x\",\"n\":2}"),
        },
    ];
    let r = format_anthropic_to_openai(request(vec![msg("assistant", MessageContent::Blocks(blocks))]), &tiers());
    assert_eq!(r.messages.len(), 1);
    let m = &r.messages[0];
    assert_eq!(m.role, "assistant");
    assert_eq!(m.content.as_deref(), Some("let me look"));
    let calls = m.tool_calls.as_ref().unwrap();
    assert_eq!(calls.len(), 2);
    assert_eq!(calls[0].id, "c1");
    assert_eq!(calls[0].tool_type, "function");
    assert_eq!(calls[0].function.name, "search");
    assert_eq!(calls[1].id, "c2");
    assert_eq!(calls[1].function.name, "fetch");
    let a0: serde_json::Value = serde_json::from_str(&calls[0].function.arguments).unwrap();
    let a1: serde_json::Value = serde_json::from_str(&calls[1].function.arguments).unwrap();
    assert_eq!(a0, serde_json::from_str::<serde_json::Value>("{\"q\":\"rust\"}").unwrap());
    assert_eq!(a1, serde_json::from_str::<serde_json::Value>("{\"n\":2,\"url\":\"x\"}").unwrap());
}

#[test]
fn assistant_without_text_or_tools() {
    let r = format_anthropic_to_openai(
        request(vec![msg("assistant", MessageContent::Blocks(vec![]))]),
        &tiers(),
    );
    assert_eq!(r.messages.len(), 1);
    assert_eq!(r.messages[0].role, "assistant");
    assert!(r.messages[0].content.is_none());
    assert!(r.messages[0].tool_calls.is_none());
}

#[test]
fn plain_string_turns_and_other_roles() {
    let r = format_anthropic_to_openai(
        request(vec![
            msg("user", MessageContent::Text("hi".to_string())),
            msg("tool", MessageContent::Text("dropped".to_string())),
            msg("assistant", MessageContent::Text("hello".to_string())),
            msg("user", MessageContent::Other),
        ]),
        &tiers(),
    );
    assert_eq!(r.messages.len(), 2);
    assert_text_message(&r.messages[0], "user", "hi");
    assert_text_message(&r.messages[1], "assistant", "hello");
}

#[test]
fn string_system_prompt_leads() {
    let mut req = request(vec![msg("user", MessageContent::Text("q".to_string()))]);
    req.system = Some(SystemPrompt::Text("be brief".to_string()));
    let r = format_anthropic_to_openai(req, &tiers());
    assert_eq!(r.messages.len(), 2);
    assert_text_message(&r.messages[0], "system", "be brief");
    assert_text_message(&r.messages[1], "user", "q");
}

#[test]
fn block_system_prompt_is_dropped() {
    let mut req = request(vec![]);
    req.system = Some(SystemPrompt::Other(JsonDoc::new("[{\"type\":\"text\",\"text\":\"x\"}]")));
    let r = format_anthropic_to_openai(req, &tiers());
    assert!(r.messages.is_empty());
}

#[test]
fn model_temperature_stream_and_tools() {
    let mut req = request(vec![]);
    req.temperature = Some(JsonDoc::new("0.5"));
    req.stream = Some(true);
    req.tools = Some(vec![ToolSpec {
        name: JsonDoc::new("\"get_weather\""),
        description: JsonDoc::null(),
        input_schema: JsonDoc::new("{\"type\":\"object\"}"),
    }]);
    let r = format_anthropic_to_openai(req, &tiers());
    assert_eq!(r.model, "m1");
    assert_eq!(r.temperature.as_ref().map(|d| d.text.as_str()), Some("0.5"));
    assert_eq!(r.stream, Some(true));
    let tools = r.tools.unwrap();
    assert_eq!(tools.len(), 1);
    assert_eq!(
        tools[0].text,
        "{\"function\":{\"description\":null,\"name\":\"get_weather\",\"parameters\":{\"type\":\"object\"}},\"type\":\"function\"}"
    );
    let v: serde_json::Value = serde_json::from_str(&tools[0].text).unwrap();
    assert_eq!(v["type"], "function");
    assert_eq!(v["function"]["name"], "get_weather");
    assert!(v["function"]["description"].is_null());
}

#[test]
fn function_tool_wraps_fields() {
    let t = ToolSpec {
        name: JsonDoc::new("\"n\""),
        description: JsonDoc::new("\"d\""),
        input_schema: JsonDoc::null(),
    };
    assert_eq!(
        function_tool(&t).text,
        "{\"function\":{\"description\":\"d\",\"name\":\"n\",\"parameters\":null},\"type\":\"function\"}"
    );
}

#[test]
fn absent_tools_stay_absent() {
    let r = format_anthropic_to_openai(request(vec![]), &tiers());
    assert!(r.tools.is_none());
    assert!(r.temperature.is_none());
    assert!(r.stream.is_none());
}
