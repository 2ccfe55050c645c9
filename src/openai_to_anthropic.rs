//! Response translation (non-streaming): one Format-B response becomes one
//! Format-A response. Only the first choice is ever read.
use crate::json::{json_parses, parses_as_json, JsonDoc};
use crate::models::{
    blocks_view, AnthropicResponse, BlockView, ContentBlock, MessageBView, OpenAIChoice,
    OpenAIResponse, OpenAIToolCall, ResponseAView, ResponseBView, ToolCallView,
};
use vstd::prelude::*;

verus! {

/// Why a Format-B response cannot be translated.
#[derive(Clone, Copy, Debug, PartialEq, Eq, Structural)]
pub enum TranslateError {
    /// The response holds no choice to translate.
    EmptyChoices,
}

/// The Format-A stop reason: `tool_use` exactly for the tool-invocation finish
/// reason, `end_turn` for every other one.
pub open spec fn stop_reason_spec(finish_reason: Seq<char>) -> Seq<char> {
    if finish_reason == "tool_calls"@ {
        "tool_use"@
    } else {
        "end_turn"@
    }
}

/// A tool call's input: its arguments when they parse as JSON, else `{}`.
pub open spec fn tool_input_spec(arguments: Seq<char>) -> Seq<char> {
    if json_parses(arguments) {
        arguments
    } else {
        "{}"@
    }
}

pub open spec fn tool_use_block(c: ToolCallView) -> BlockView {
    BlockView::ToolUse {
        id: c.id,
        name: c.function.name,
        input: tool_input_spec(c.function.arguments),
    }
}

/// The Format-A content for a Format-B message: its text first, if any, then
/// one `ToolUse` block per tool call, in order.
pub open spec fn response_content_spec(m: MessageBView) -> Seq<BlockView> {
    (match m.content {
        Some(t) => seq![BlockView::Text { text: t }],
        None => Seq::empty(),
    }) + match m.tool_calls {
        Some(cs) => cs.map_values(|c: ToolCallView| tool_use_block(c)),
        None => Seq::empty(),
    }
}

/// The translation of a Format-B response; `EmptyChoices` when it has none.
pub open spec fn translate_response_spec(resp: ResponseBView) -> Result<
    ResponseAView,
    TranslateError,
> {
    if resp.choices.len() == 0 {
        Err(TranslateError::EmptyChoices)
    } else {
        Ok(
            ResponseAView {
                id: resp.id,
                response_type: "message"@,
                role: "assistant"@,
                content: response_content_spec(resp.choices[0].message),
                stop_reason: stop_reason_spec(resp.choices[0].finish_reason),
                stop_sequence: None,
                model: resp.model,
            },
        )
    }
}

pub open spec fn response_result_view(r: Result<AnthropicResponse, TranslateError>) -> Result<
    ResponseAView,
    TranslateError,
> {
    match r {
        Ok(a) => Ok(a@),
        Err(e) => Err(e),
    }
}

/// The single-choice policy: the first choice, or `EmptyChoices` when there is none.
pub fn first_choice(choices: &Vec<OpenAIChoice>) -> (r: Result<&OpenAIChoice, TranslateError>)
    ensures
        choices@.len() == 0 <==> r is Err,
        r is Err ==> r == Err::<&OpenAIChoice, TranslateError>(TranslateError::EmptyChoices),
        r is Ok ==> *r->Ok_0 == choices@[0],
{
    if choices.len() == 0 {
        Err(TranslateError::EmptyChoices)
    } else {
        Ok(&choices[0])
    }
}

/// The Format-A stop reason for a Format-B finish reason.
pub fn stop_reason(finish_reason: &str) -> (r: String)
    ensures
        r@ == stop_reason_spec(finish_reason@),
{
    if crate::text::text_eq(finish_reason, "tool_calls") {
        String::from_str("tool_use")
    } else {
        String::from_str("end_turn")
    }
}

/// The `ToolUse` block for one Format-B tool call; arguments that do not
/// parse as JSON become the empty object.
pub fn tool_use_from_call(c: &OpenAIToolCall) -> (r: ContentBlock)
    ensures
        r@ == tool_use_block(c@),
{
    let input = if parses_as_json(c.function.arguments.as_str()) {
        JsonDoc { text: c.function.arguments.clone() }
    } else {
        JsonDoc::empty_object()
    };
    ContentBlock::ToolUse { id: c.id.clone(), name: c.function.name.clone(), input }
}

/// Translates a Format-B response into a Format-A response, reading only its
/// first choice.
pub fn format_openai_to_anthropic(resp: OpenAIResponse) -> (r: Result<
    AnthropicResponse,
    TranslateError,
>)
    ensures
        response_result_view(r) == translate_response_spec(resp@),
{
    let choice = match first_choice(&resp.choices) {
        Ok(c) => c,
        Err(e) => {
            return Err(e);
        },
    };
    let ghost mv = choice.message@;
    let mut content: Vec<ContentBlock> = Vec::new();
    if let Some(text) = &choice.message.content {
        content.push(ContentBlock::Text { text: text.clone() });
    }
    let ghost head = blocks_view(content@);
    assert(head =~= match mv.content {
        Some(t) => seq![BlockView::Text { text: t }],
        None => Seq::<BlockView>::empty(),
    });
    if let Some(calls) = &choice.message.tool_calls {
        let ghost cv = calls@.map_values(|c: OpenAIToolCall| c@);
        let mut i: usize = 0;
        while i < calls.len()
            invariant
                i <= calls@.len(),
                cv == calls@.map_values(|c: OpenAIToolCall| c@),
                blocks_view(content@) == head + cv.subrange(0, i as int).map_values(
                    |c: ToolCallView| tool_use_block(c),
                ),
            decreases calls@.len() - i,
        {
            let ghost before = content@;
            let b = tool_use_from_call(&calls[i]);
            content.push(b);
            assert(blocks_view(content@) =~= blocks_view(before).push(b@));
            assert(cv.subrange(0, i + 1).map_values(|c: ToolCallView| tool_use_block(c))
                =~= cv.subrange(0, i as int).map_values(|c: ToolCallView| tool_use_block(c)).push(
                tool_use_block(cv[i as int]),
            ));
            i = i + 1;
        }
        assert(cv.subrange(0, calls@.len() as int) =~= cv);
    } else {
        assert(blocks_view(content@) =~= head + Seq::<BlockView>::empty());
    }
    let r = AnthropicResponse {
        id: resp.id.clone(),
        response_type: String::from_str("message"),
        role: String::from_str("assistant"),
        content,
        stop_reason: stop_reason(choice.finish_reason.as_str()),
        stop_sequence: None,
        model: resp.model.clone(),
    };
    Ok(r)
}

} // verus!
