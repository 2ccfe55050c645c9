//! Request translation: one Format-A request becomes one Format-B request.
use crate::config::{Settings, SettingsView};
use crate::json::JsonDoc;
use crate::models::{
    blocks_view, calls_view, messages_b_view, AnthropicMessage, AnthropicRequest, BlockView,
    ContentBlock, ContentView, FunctionView, MessageAView, MessageBView, MessageContent,
    OpenAIFunction, OpenAIMessage, OpenAIRequest, OpenAIToolCall, RequestAView, RequestBView,
    SystemPrompt, SystemView, ToolCallView, ToolSpec, ToolSpecView,
};
use crate::text::{contains_seq, str_contains, text_eq};
use vstd::prelude::*;

verus! {

/// The backend model for a Format-A model name. The tiers are checked in a
/// fixed order (haiku, sonnet, opus) and the first whose name occurs in the
/// input wins; a name that matches none passes through unchanged.
pub open spec fn map_model_spec(name: Seq<char>, s: SettingsView) -> Seq<char> {
    if contains_seq(name, "haiku"@) {
        s.haiku
    } else if contains_seq(name, "sonnet"@) {
        s.sonnet
    } else if contains_seq(name, "opus"@) {
        s.opus
    } else {
        name
    }
}

/// The concatenation of the texts of all `Text` blocks, in order.
pub open spec fn blocks_text(bs: Seq<BlockView>) -> Seq<char>
    decreases bs.len(),
{
    if bs.len() == 0 {
        Seq::empty()
    } else {
        blocks_text(bs.drop_last()) + match bs.last() {
            BlockView::Text { text } => text,
            _ => Seq::empty(),
        }
    }
}

/// A Format-B message with a role and a text and nothing else.
pub open spec fn text_message(role: Seq<char>, text: Seq<char>) -> MessageBView {
    MessageBView { role, content: Some(text), tool_calls: None, tool_call_id: None }
}

/// One `tool` message for each `ToolResult` block, in order.
pub open spec fn tool_messages(bs: Seq<BlockView>) -> Seq<MessageBView>
    decreases bs.len(),
{
    if bs.len() == 0 {
        Seq::empty()
    } else {
        tool_messages(bs.drop_last()) + match bs.last() {
            BlockView::ToolResult { tool_use_id, content } => seq![
                MessageBView {
                    role: "tool"@,
                    content: Some(content),
                    tool_calls: None,
                    tool_call_id: Some(tool_use_id),
                },
            ],
            _ => Seq::empty(),
        }
    }
}

/// One tool call for each `ToolUse` block, in order; its arguments are the
/// block's input document.
pub open spec fn tool_calls_of(bs: Seq<BlockView>) -> Seq<ToolCallView>
    decreases bs.len(),
{
    if bs.len() == 0 {
        Seq::empty()
    } else {
        tool_calls_of(bs.drop_last()) + match bs.last() {
            BlockView::ToolUse { id, name, input } => seq![
                ToolCallView {
                    id,
                    tool_type: "function"@,
                    function: FunctionView { name, arguments: input },
                },
            ],
            _ => Seq::empty(),
        }
    }
}

/// The text an assistant turn carries.
pub open spec fn assistant_text(c: ContentView) -> Seq<char> {
    match c {
        ContentView::Text(s) => s,
        ContentView::Blocks(bs) => blocks_text(bs),
        ContentView::Other => Seq::empty(),
    }
}

/// The tool calls an assistant turn carries.
pub open spec fn assistant_calls(c: ContentView) -> Seq<ToolCallView> {
    match c {
        ContentView::Blocks(bs) => tool_calls_of(bs),
        _ => Seq::empty(),
    }
}

/// The single Format-B message for an assistant turn.
pub open spec fn assistant_message(c: ContentView) -> MessageBView {
    MessageBView {
        role: "assistant"@,
        content: if assistant_text(c).len() > 0 {
            Some(assistant_text(c))
        } else {
            None
        },
        tool_calls: if assistant_calls(c).len() > 0 {
            Some(assistant_calls(c))
        } else {
            None
        },
        tool_call_id: None,
    }
}

/// The Format-B messages for one user turn: the tool results first, then one
/// message with all of its text, if there is any.
pub open spec fn user_messages(c: ContentView) -> Seq<MessageBView> {
    match c {
        ContentView::Text(s) => seq![text_message("user"@, s)],
        ContentView::Blocks(bs) => tool_messages(bs) + if blocks_text(bs).len() > 0 {
            seq![text_message("user"@, blocks_text(bs))]
        } else {
            Seq::empty()
        },
        ContentView::Other => Seq::empty(),
    }
}

/// The Format-B messages for one Format-A message; other roles give none.
pub open spec fn translate_message_spec(m: MessageAView) -> Seq<MessageBView> {
    if m.role == "user"@ {
        user_messages(m.content)
    } else if m.role == "assistant"@ {
        seq![assistant_message(m.content)]
    } else {
        Seq::empty()
    }
}

/// The Format-B messages for a sequence of Format-A messages, in order.
pub open spec fn translate_messages_spec(ms: Seq<MessageAView>) -> Seq<MessageBView>
    decreases ms.len(),
{
    if ms.len() == 0 {
        Seq::empty()
    } else {
        translate_messages_spec(ms.drop_last()) + translate_message_spec(ms.last())
    }
}

/// The leading system message: present only for a plain-string system prompt.
pub open spec fn system_messages(sys: Option<SystemView>) -> Seq<MessageBView> {
    match sys {
        Some(SystemView::Text(s)) => seq![text_message("system"@, s)],
        _ => Seq::empty(),
    }
}

/// The JSON text of the Format-B function tool for a Format-A tool spec.
pub open spec fn function_tool_text(t: ToolSpecView) -> Seq<char> {
    "{\"function\":{\"description\":"@ + t.description + ",\"name\":"@ + t.name
        + ",\"parameters\":"@ + t.input_schema + "},\"type\":\"function\"}"@
}

pub open spec fn docs_view(v: Seq<JsonDoc>) -> Seq<Seq<char>> {
    v.map_values(|d: JsonDoc| d@)
}

pub open spec fn tool_texts(ts: Seq<ToolSpec>) -> Seq<Seq<char>> {
    ts.map_values(|x: ToolSpec| function_tool_text(x@))
}

pub open spec fn translate_tools_spec(tools: Option<Seq<ToolSpecView>>) -> Option<Seq<Seq<char>>> {
    match tools {
        Some(ts) => Some(ts.map_values(|t: ToolSpecView| function_tool_text(t))),
        None => None,
    }
}

/// The Format-B request for a Format-A request.
pub open spec fn translate_request_spec(req: RequestAView, s: SettingsView) -> RequestBView {
    RequestBView {
        model: map_model_spec(req.model, s),
        messages: system_messages(req.system) + translate_messages_spec(req.messages),
        temperature: req.temperature,
        stream: req.stream,
        tools: translate_tools_spec(req.tools),
    }
}

/// Resolves a Format-A model name to the backend model to request.
pub fn map_model(anthropic_model: &str, settings: &Settings) -> (r: String)
    ensures
        r@ == map_model_spec(anthropic_model@, settings@),
{
    if str_contains(anthropic_model, "haiku") {
        settings.openrouter_model_haiku.clone()
    } else if str_contains(anthropic_model, "sonnet") {
        settings.openrouter_model_sonnet.clone()
    } else if str_contains(anthropic_model, "opus") {
        settings.openrouter_model_opus.clone()
    } else {
        anthropic_model.to_string()
    }
}

fn copy_doc(d: &JsonDoc) -> (r: JsonDoc)
    ensures
        r@ == d@,
{
    JsonDoc { text: d.text.clone() }
}

proof fn lemma_push_view(v: Seq<OpenAIMessage>, m: OpenAIMessage)
    ensures
        messages_b_view(v.push(m)) == messages_b_view(v).push(m@),
{
    assert(messages_b_view(v.push(m)) =~= messages_b_view(v).push(m@));
}

/// Appends the translation of a user turn with block content.
fn push_user_blocks(blocks: &Vec<ContentBlock>, out: &mut Vec<OpenAIMessage>)
    ensures
        messages_b_view(final(out)@) == messages_b_view(old(out)@) + user_messages(
            ContentView::Blocks(blocks_view(blocks@)),
        ),
{
    let ghost bv = blocks_view(blocks@);
    let ghost start = messages_b_view(out@);
    let mut user_text = String::new();
    let mut i: usize = 0;
    while i < blocks.len()
        invariant
            bv == blocks_view(blocks@),
            i <= blocks@.len(),
            user_text@ == blocks_text(bv.subrange(0, i as int)),
            messages_b_view(out@) == start + tool_messages(bv.subrange(0, i as int)),
        decreases blocks@.len() - i,
    {
        assert(bv.subrange(0, i + 1).drop_last() =~= bv.subrange(0, i as int));
        assert(bv.subrange(0, i + 1).last() == blocks@[i as int]@);
        match &blocks[i] {
            ContentBlock::Text { text } => {
                user_text.append(text.as_str());
            },
            ContentBlock::ToolResult { tool_use_id, content } => {
                let m = OpenAIMessage {
                    role: String::from_str("tool"),
                    content: Some(content.text.clone()),
                    tool_calls: None,
                    tool_call_id: Some(tool_use_id.clone()),
                };
                proof {
                    lemma_push_view(out@, m);
                }
                out.push(m);
            },
            _ => {},
        }
        assert(messages_b_view(out@) =~= start + tool_messages(bv.subrange(0, i + 1)));
        i = i + 1;
    }
    assert(bv.subrange(0, blocks@.len() as int) =~= bv);
    if user_text.unicode_len() > 0 {
        let m = OpenAIMessage {
            role: String::from_str("user"),
            content: Some(user_text),
            tool_calls: None,
            tool_call_id: None,
        };
        proof {
            lemma_push_view(out@, m);
        }
        out.push(m);
    }
    assert(messages_b_view(out@) =~= start + user_messages(ContentView::Blocks(bv)));
}

/// The tool calls and the concatenated text of an assistant turn's blocks.
fn assistant_parts(blocks: &Vec<ContentBlock>) -> (r: (String, Vec<OpenAIToolCall>))
    ensures
        r.0@ == blocks_text(blocks_view(blocks@)),
        calls_view(r.1@) == tool_calls_of(blocks_view(blocks@)),
{
    let ghost bv = blocks_view(blocks@);
    let mut text = String::new();
    let mut calls: Vec<OpenAIToolCall> = Vec::new();
    let mut i: usize = 0;
    while i < blocks.len()
        invariant
            bv == blocks_view(blocks@),
            i <= blocks@.len(),
            text@ == blocks_text(bv.subrange(0, i as int)),
            calls_view(calls@) == tool_calls_of(bv.subrange(0, i as int)),
        decreases blocks@.len() - i,
    {
        assert(bv.subrange(0, i + 1).drop_last() =~= bv.subrange(0, i as int));
        assert(bv.subrange(0, i + 1).last() == blocks@[i as int]@);
        let ghost before = calls@;
        match &blocks[i] {
            ContentBlock::Text { text: t } => {
                text.append(t.as_str());
            },
            ContentBlock::ToolUse { id, name, input } => {
                let c = OpenAIToolCall {
                    id: id.clone(),
                    tool_type: String::from_str("function"),
                    function: OpenAIFunction { name: name.clone(), arguments: input.text.clone() },
                };
                calls.push(c);
                assert(calls@ == before.push(c));
            },
            _ => {},
        }
        assert(calls_view(calls@) =~= tool_calls_of(bv.subrange(0, i + 1)));
        i = i + 1;
    }
    assert(bv.subrange(0, blocks@.len() as int) =~= bv);
    (text, calls)
}

/// Appends the single Format-B message for an assistant turn.
fn push_assistant(content: &MessageContent, out: &mut Vec<OpenAIMessage>)
    ensures
        messages_b_view(final(out)@) == messages_b_view(old(out)@).push(
            assistant_message(content@),
        ),
{
    let (text, calls) = match content {
        MessageContent::Text(s) => (s.clone(), Vec::new()),
        MessageContent::Blocks(blocks) => assistant_parts(blocks),
        MessageContent::Other => (String::new(), Vec::new()),
    };
    let content_out = if text.unicode_len() > 0 {
        Some(text)
    } else {
        None
    };
    let calls_out = if calls.len() > 0 {
        Some(calls)
    } else {
        None
    };
    let m = OpenAIMessage {
        role: String::from_str("assistant"),
        content: content_out,
        tool_calls: calls_out,
        tool_call_id: None,
    };
    assert(m@ == assistant_message(content@));
    proof {
        lemma_push_view(out@, m);
    }
    out.push(m);
}

/// Appends the Format-B messages for one Format-A message.
fn push_message(m: &AnthropicMessage, out: &mut Vec<OpenAIMessage>)
    ensures
        messages_b_view(final(out)@) == messages_b_view(old(out)@) + translate_message_spec(m@),
{
    if text_eq(m.role.as_str(), "user") {
        match &m.content {
            MessageContent::Text(s) => {
                let t = OpenAIMessage {
                    role: String::from_str("user"),
                    content: Some(s.clone()),
                    tool_calls: None,
                    tool_call_id: None,
                };
                proof {
                    lemma_push_view(out@, t);
                }
                out.push(t);
                assert(messages_b_view(out@) =~= messages_b_view(old(out)@)
                    + translate_message_spec(m@));
            },
            MessageContent::Blocks(blocks) => {
                push_user_blocks(blocks, out);
            },
            MessageContent::Other => {
                assert(messages_b_view(out@) =~= messages_b_view(old(out)@)
                    + translate_message_spec(m@));
            },
        }
    } else if text_eq(m.role.as_str(), "assistant") {
        push_assistant(&m.content, out);
        assert(messages_b_view(out@) =~= messages_b_view(old(out)@) + translate_message_spec(m@));
    } else {
        assert(messages_b_view(out@) =~= messages_b_view(old(out)@) + translate_message_spec(m@));
    }
}

/// The JSON text of the Format-B function tool for one Format-A tool spec.
pub fn function_tool(t: &ToolSpec) -> (r: JsonDoc)
    ensures
        r@ == function_tool_text(t@),
{
    let text = String::from_str("{\"function\":{\"description\":").concat(
        t.description.text.as_str(),
    ).concat(",\"name\":").concat(t.name.text.as_str()).concat(",\"parameters\":").concat(
        t.input_schema.text.as_str(),
    ).concat("},\"type\":\"function\"}");
    JsonDoc { text }
}

/// Translates a Format-A request into a Format-B request. It never fails:
/// shapes it does not translate are dropped.
pub fn format_anthropic_to_openai(req: AnthropicRequest, settings: &Settings) -> (r:
    OpenAIRequest)
    ensures
        r@ == translate_request_spec(req@, settings@),
{
    let ghost rv = req@;
    let mut messages: Vec<OpenAIMessage> = Vec::new();
    if let Some(SystemPrompt::Text(s)) = &req.system {
        let m = OpenAIMessage {
            role: String::from_str("system"),
            content: Some(s.clone()),
            tool_calls: None,
            tool_call_id: None,
        };
        proof {
            lemma_push_view(messages@, m);
        }
        messages.push(m);
    }
    assert(messages_b_view(messages@) =~= system_messages(rv.system));
    let ghost sys = messages_b_view(messages@);
    let mut i: usize = 0;
    while i < req.messages.len()
        invariant
            rv == req@,
            i <= req.messages@.len(),
            sys == system_messages(rv.system),
            messages_b_view(messages@) == sys + translate_messages_spec(
                rv.messages.subrange(0, i as int),
            ),
        decreases req.messages@.len() - i,
    {
        assert(rv.messages.subrange(0, i + 1).drop_last() =~= rv.messages.subrange(0, i as int));
        assert(rv.messages.subrange(0, i + 1).last() == req.messages@[i as int]@);
        push_message(&req.messages[i], &mut messages);
        assert(messages_b_view(messages@) =~= sys + translate_messages_spec(
            rv.messages.subrange(0, i + 1),
        ));
        i = i + 1;
    }
    assert(rv.messages.subrange(0, req.messages@.len() as int) =~= rv.messages);
    let tools = match &req.tools {
        Some(ts) => {
            let mut out: Vec<JsonDoc> = Vec::new();
            let mut j: usize = 0;
            while j < ts.len()
                invariant
                    j <= ts@.len(),
                    docs_view(out@) == tool_texts(ts@.subrange(0, j as int)),
                decreases ts@.len() - j,
            {
                let ghost before = out@;
                let d = function_tool(&ts[j]);
                out.push(d);
                assert(out@ == before.push(d));
                assert(ts@.subrange(0, j + 1) == ts@.subrange(0, j as int).push(ts@[j as int]));
                assert(docs_view(out@) =~= docs_view(before).push(d@));
                assert(tool_texts(ts@.subrange(0, j + 1)) =~= tool_texts(ts@.subrange(0, j as int)).push(
                    function_tool_text(ts@[j as int]@),
                ));
                assert(docs_view(out@) =~= tool_texts(ts@.subrange(0, j + 1)));
                j = j + 1;
            }
            assert(docs_view(out@) =~= ts@.map_values(|x: ToolSpec| x@).map_values(
                |t: ToolSpecView| function_tool_text(t),
            ));
            Some(out)
        },
        None => None,
    };
    let temperature = match &req.temperature {
        Some(t) => Some(copy_doc(t)),
        None => None,
    };
    OpenAIRequest {
        model: map_model(req.model.as_str(), settings),
        messages,
        temperature,
        stream: req.stream,
        tools,
    }
}

} // verus!
