//! Wire-format data of both protocols, each with a mathematical view.
//!
//! Format A is the Messages-style protocol (typed content blocks); Format B is
//! the Chat-Completions-style protocol (flat roles, function calling).
use crate::json::JsonDoc;
use vstd::prelude::*;

verus! {

/// The view of an optional text.
pub open spec fn opt_text(o: Option<String>) -> Option<Seq<char>> {
    match o {
        Some(s) => Some(s@),
        None => None,
    }
}

/// The view of an optional JSON document.
pub open spec fn opt_doc(o: Option<JsonDoc>) -> Option<Seq<char>> {
    match o {
        Some(d) => Some(d@),
        None => None,
    }
}

// ---------------------------------------------------------------- Format A
/// A typed unit of Format-A message content. `Other` stands for a block of a
/// type the engine does not translate.
#[derive(Clone, Debug)]
pub enum ContentBlock {
    Text { text: String },
    ToolUse { id: String, name: String, input: JsonDoc },
    ToolResult { tool_use_id: String, content: JsonDoc },
    Other,
}

pub ghost enum BlockView {
    Text { text: Seq<char> },
    ToolUse { id: Seq<char>, name: Seq<char>, input: Seq<char> },
    ToolResult { tool_use_id: Seq<char>, content: Seq<char> },
    Other,
}

impl View for ContentBlock {
    type V = BlockView;

    open spec fn view(&self) -> BlockView {
        match self {
            ContentBlock::Text { text } => BlockView::Text { text: text@ },
            ContentBlock::ToolUse { id, name, input } => BlockView::ToolUse {
                id: id@,
                name: name@,
                input: input@,
            },
            ContentBlock::ToolResult { tool_use_id, content } => BlockView::ToolResult {
                tool_use_id: tool_use_id@,
                content: content@,
            },
            ContentBlock::Other => BlockView::Other,
        }
    }
}

pub open spec fn blocks_view(v: Seq<ContentBlock>) -> Seq<BlockView> {
    v.map_values(|b: ContentBlock| b@)
}

/// The content of a Format-A message: a plain string, an ordered sequence of
/// blocks, or some other JSON shape (`Other`), which carries no text.
#[derive(Clone, Debug)]
pub enum MessageContent {
    Text(String),
    Blocks(Vec<ContentBlock>),
    Other,
}

pub ghost enum ContentView {
    Text(Seq<char>),
    Blocks(Seq<BlockView>),
    Other,
}

impl View for MessageContent {
    type V = ContentView;

    open spec fn view(&self) -> ContentView {
        match self {
            MessageContent::Text(s) => ContentView::Text(s@),
            MessageContent::Blocks(v) => ContentView::Blocks(blocks_view(v@)),
            MessageContent::Other => ContentView::Other,
        }
    }
}

#[derive(Clone, Debug)]
pub struct AnthropicMessage {
    pub role: String,
    pub content: MessageContent,
}

pub ghost struct MessageAView {
    pub role: Seq<char>,
    pub content: ContentView,
}

impl View for AnthropicMessage {
    type V = MessageAView;

    open spec fn view(&self) -> MessageAView {
        MessageAView { role: self.role@, content: self.content@ }
    }
}

/// A Format-A system prompt: a plain string, or any other JSON shape.
#[derive(Clone, Debug)]
pub enum SystemPrompt {
    Text(String),
    Other(JsonDoc),
}

pub ghost enum SystemView {
    Text(Seq<char>),
    Other(Seq<char>),
}

impl View for SystemPrompt {
    type V = SystemView;

    open spec fn view(&self) -> SystemView {
        match self {
            SystemPrompt::Text(s) => SystemView::Text(s@),
            SystemPrompt::Other(d) => SystemView::Other(d@),
        }
    }
}

/// The fields of a Format-A tool specification that are carried over. A field
/// that is absent on the input is the document `null`.
#[derive(Clone, Debug)]
pub struct ToolSpec {
    pub name: JsonDoc,
    pub description: JsonDoc,
    pub input_schema: JsonDoc,
}

pub ghost struct ToolSpecView {
    pub name: Seq<char>,
    pub description: Seq<char>,
    pub input_schema: Seq<char>,
}

impl View for ToolSpec {
    type V = ToolSpecView;

    open spec fn view(&self) -> ToolSpecView {
        ToolSpecView {
            name: self.name@,
            description: self.description@,
            input_schema: self.input_schema@,
        }
    }
}

/// A Format-A request. The temperature is carried as the JSON text of the number.
#[derive(Clone, Debug)]
pub struct AnthropicRequest {
    pub model: String,
    pub messages: Vec<AnthropicMessage>,
    pub system: Option<SystemPrompt>,
    pub temperature: Option<JsonDoc>,
    pub tools: Option<Vec<ToolSpec>>,
    pub stream: Option<bool>,
}

pub ghost struct RequestAView {
    pub model: Seq<char>,
    pub messages: Seq<MessageAView>,
    pub system: Option<SystemView>,
    pub temperature: Option<Seq<char>>,
    pub tools: Option<Seq<ToolSpecView>>,
    pub stream: Option<bool>,
}

impl View for AnthropicRequest {
    type V = RequestAView;

    open spec fn view(&self) -> RequestAView {
        RequestAView {
            model: self.model@,
            messages: self.messages@.map_values(|m: AnthropicMessage| m@),
            system: match self.system {
                Some(s) => Some(s@),
                None => None,
            },
            temperature: opt_doc(self.temperature),
            tools: match self.tools {
                Some(t) => Some(t@.map_values(|x: ToolSpec| x@)),
                None => None,
            },
            stream: self.stream,
        }
    }
}

#[derive(Clone, Debug)]
pub struct AnthropicResponse {
    pub id: String,
    pub response_type: String,
    pub role: String,
    pub content: Vec<ContentBlock>,
    pub stop_reason: String,
    pub stop_sequence: Option<String>,
    pub model: String,
}

pub ghost struct ResponseAView {
    pub id: Seq<char>,
    pub response_type: Seq<char>,
    pub role: Seq<char>,
    pub content: Seq<BlockView>,
    pub stop_reason: Seq<char>,
    pub stop_sequence: Option<Seq<char>>,
    pub model: Seq<char>,
}

impl View for AnthropicResponse {
    type V = ResponseAView;

    open spec fn view(&self) -> ResponseAView {
        ResponseAView {
            id: self.id@,
            response_type: self.response_type@,
            role: self.role@,
            content: blocks_view(self.content@),
            stop_reason: self.stop_reason@,
            stop_sequence: opt_text(self.stop_sequence),
            model: self.model@,
        }
    }
}

// ---------------------------------------------------------------- Format B
#[derive(Clone, Debug)]
pub struct OpenAIFunction {
    pub name: String,
    pub arguments: String,
}

pub ghost struct FunctionView {
    pub name: Seq<char>,
    pub arguments: Seq<char>,
}

impl View for OpenAIFunction {
    type V = FunctionView;

    open spec fn view(&self) -> FunctionView {
        FunctionView { name: self.name@, arguments: self.arguments@ }
    }
}

#[derive(Clone, Debug)]
pub struct OpenAIToolCall {
    pub id: String,
    pub tool_type: String,
    pub function: OpenAIFunction,
}

pub ghost struct ToolCallView {
    pub id: Seq<char>,
    pub tool_type: Seq<char>,
    pub function: FunctionView,
}

impl View for OpenAIToolCall {
    type V = ToolCallView;

    open spec fn view(&self) -> ToolCallView {
        ToolCallView { id: self.id@, tool_type: self.tool_type@, function: self.function@ }
    }
}

pub open spec fn calls_view(v: Seq<OpenAIToolCall>) -> Seq<ToolCallView> {
    v.map_values(|c: OpenAIToolCall| c@)
}

#[derive(Clone, Debug)]
pub struct OpenAIMessage {
    pub role: String,
    pub content: Option<String>,
    pub tool_calls: Option<Vec<OpenAIToolCall>>,
    pub tool_call_id: Option<String>,
}

pub ghost struct MessageBView {
    pub role: Seq<char>,
    pub content: Option<Seq<char>>,
    pub tool_calls: Option<Seq<ToolCallView>>,
    pub tool_call_id: Option<Seq<char>>,
}

impl View for OpenAIMessage {
    type V = MessageBView;

    open spec fn view(&self) -> MessageBView {
        MessageBView {
            role: self.role@,
            content: opt_text(self.content),
            tool_calls: match self.tool_calls {
                Some(v) => Some(calls_view(v@)),
                None => None,
            },
            tool_call_id: opt_text(self.tool_call_id),
        }
    }
}

pub open spec fn messages_b_view(v: Seq<OpenAIMessage>) -> Seq<MessageBView> {
    v.map_values(|m: OpenAIMessage| m@)
}

/// A Format-B request. Each tool is the JSON text of a function-tool object.
#[derive(Clone, Debug)]
pub struct OpenAIRequest {
    pub model: String,
    pub messages: Vec<OpenAIMessage>,
    pub temperature: Option<JsonDoc>,
    pub stream: Option<bool>,
    pub tools: Option<Vec<JsonDoc>>,
}

pub ghost struct RequestBView {
    pub model: Seq<char>,
    pub messages: Seq<MessageBView>,
    pub temperature: Option<Seq<char>>,
    pub stream: Option<bool>,
    pub tools: Option<Seq<Seq<char>>>,
}

impl View for OpenAIRequest {
    type V = RequestBView;

    open spec fn view(&self) -> RequestBView {
        RequestBView {
            model: self.model@,
            messages: messages_b_view(self.messages@),
            temperature: opt_doc(self.temperature),
            stream: self.stream,
            tools: match self.tools {
                Some(t) => Some(t@.map_values(|d: JsonDoc| d@)),
                None => None,
            },
        }
    }
}

#[derive(Clone, Debug)]
pub struct OpenAIChoice {
    pub index: u32,
    pub message: OpenAIMessage,
    pub finish_reason: String,
}

pub ghost struct ChoiceView {
    pub index: u32,
    pub message: MessageBView,
    pub finish_reason: Seq<char>,
}

impl View for OpenAIChoice {
    type V = ChoiceView;

    open spec fn view(&self) -> ChoiceView {
        ChoiceView {
            index: self.index,
            message: self.message@,
            finish_reason: self.finish_reason@,
        }
    }
}

#[derive(Clone, Debug)]
pub struct OpenAIResponse {
    pub id: String,
    pub choices: Vec<OpenAIChoice>,
    pub model: String,
}

pub ghost struct ResponseBView {
    pub id: Seq<char>,
    pub choices: Seq<ChoiceView>,
    pub model: Seq<char>,
}

impl View for OpenAIResponse {
    type V = ResponseBView;

    open spec fn view(&self) -> ResponseBView {
        ResponseBView {
            id: self.id@,
            choices: self.choices@.map_values(|c: OpenAIChoice| c@),
            model: self.model@,
        }
    }
}

#[derive(Clone, Debug)]
pub struct OpenAIStreamChoice {
    pub index: u32,
    pub delta: OpenAIMessage,
    pub finish_reason: Option<String>,
}

#[derive(Clone, Debug)]
pub struct OpenAIStreamResponse {
    pub id: String,
    pub choices: Vec<OpenAIStreamChoice>,
    pub model: String,
}

} // verus!
