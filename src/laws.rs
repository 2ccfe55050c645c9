//! Laws that relate the translators to one another.
use crate::anthropic_to_openai::{
    assistant_calls, assistant_message, blocks_text, map_model_spec, system_messages,
    tool_calls_of, tool_messages, translate_message_spec, translate_messages_spec,
    translate_request_spec,
};
use crate::config::SettingsView;
use crate::json::json_parses;
use crate::models::{BlockView, ContentView, MessageAView, MessageBView, RequestAView, ResponseBView, ToolCallView};
use crate::openai_to_anthropic::{tool_use_block, translate_response_spec, TranslateError};
use crate::text::contains_seq;
use vstd::prelude::*;

verus! {

/// Every block is a `Text` block.
pub open spec fn all_text(bs: Seq<BlockView>) -> bool {
    forall|k: int| 0 <= k < bs.len() ==> #[trigger] bs[k] is Text
}

/// The text a message carries, whether as a plain string or as text blocks.
pub open spec fn turn_text(c: ContentView) -> Seq<char> {
    match c {
        ContentView::Text(s) => s,
        ContentView::Blocks(bs) => blocks_text(bs),
        ContentView::Other => Seq::empty(),
    }
}

/// A user or assistant turn that carries non-empty text and nothing else.
pub open spec fn text_turn(m: MessageAView) -> bool {
    (m.role == "user"@ || m.role == "assistant"@) && turn_text(m.content).len() > 0 && match m.content {
        ContentView::Text(_) => true,
        ContentView::Blocks(bs) => all_text(bs),
        ContentView::Other => false,
    }
}

proof fn lemma_all_text_no_tools(bs: Seq<BlockView>)
    requires
        all_text(bs),
    ensures
        tool_messages(bs) == Seq::<MessageBView>::empty(),
        tool_calls_of(bs) == Seq::<ToolCallView>::empty(),
    decreases bs.len(),
{
    if bs.len() > 0 {
        assert(all_text(bs.drop_last()));
        lemma_all_text_no_tools(bs.drop_last());
        assert(bs.last() is Text);
    }
}

/// A text turn becomes exactly one message with the same role and text.
proof fn lemma_text_turn(m: MessageAView)
    requires
        text_turn(m),
    ensures
        translate_message_spec(m) == seq![
            MessageBView { role: m.role, content: Some(turn_text(m.content)), tool_calls: None, tool_call_id: None },
        ],
{
    if let ContentView::Blocks(bs) = m.content {
        lemma_all_text_no_tools(bs);
    }
    if m.role == "user"@ {
        if let ContentView::Blocks(bs) = m.content {
            assert(tool_messages(bs) + seq![
                MessageBView { role: "user"@, content: Some(blocks_text(bs)), tool_calls: None, tool_call_id: None },
            ] =~= seq![
                MessageBView { role: "user"@, content: Some(blocks_text(bs)), tool_calls: None, tool_call_id: None },
            ]);
        }
    }
}

proof fn lemma_text_turns(ms: Seq<MessageAView>)
    requires
        forall|k: int| 0 <= k < ms.len() ==> text_turn(#[trigger] ms[k]),
    ensures
        translate_messages_spec(ms).len() == ms.len(),
        forall|k: int|
            0 <= k < ms.len() ==> #[trigger] translate_messages_spec(ms)[k] == (MessageBView {
                role: ms[k].role,
                content: Some(turn_text(ms[k].content)),
                tool_calls: None,
                tool_call_id: None,
            }),
    decreases ms.len(),
{
    if ms.len() > 0 {
        let init = ms.drop_last();
        assert forall|k: int| 0 <= k < init.len() implies text_turn(#[trigger] init[k]) by {
            assert(init[k] == ms[k]);
        }
        lemma_text_turns(init);
        assert(text_turn(ms[ms.len() - 1]));
        lemma_text_turn(ms.last());
        assert forall|k: int| 0 <= k < ms.len() implies #[trigger] translate_messages_spec(ms)[k] == (
        MessageBView {
            role: ms[k].role,
            content: Some(turn_text(ms[k].content)),
            tool_calls: None,
            tool_call_id: None,
        }) by {
            if k < ms.len() - 1 {
                assert(init[k] == ms[k]);
            }
        }
    }
}

/// Text round trip: for a request whose turns carry only text, the message
/// the request translator makes for turn `i` carries that turn's text; a
/// backend reply that carries that same text and no tool calls translates back
/// to exactly one text block with that text, and, unless the backend reports
/// a tool invocation, the stop reason is `end_turn`.
pub proof fn law_text_round_trip(req: RequestAView, s: SettingsView, i: int, resp: ResponseBView)
    requires
        forall|k: int| 0 <= k < req.messages.len() ==> text_turn(#[trigger] req.messages[k]),
        0 <= i < req.messages.len(),
        resp.choices.len() > 0,
        resp.choices[0].message.content == translate_request_spec(req, s).messages[
            system_messages(req.system).len() + i
        ].content,
        resp.choices[0].message.tool_calls is None,
        resp.choices[0].finish_reason != "tool_calls"@,
    ensures
        translate_request_spec(req, s).messages[system_messages(req.system).len() + i].content
            == Some(turn_text(req.messages[i].content)),
        translate_response_spec(resp) is Ok,
        translate_response_spec(resp)->Ok_0.content == seq![
            BlockView::Text { text: turn_text(req.messages[i].content) },
        ],
        translate_response_spec(resp)->Ok_0.stop_reason == "end_turn"@,
{
    lemma_text_turns(req.messages);
    let sys = system_messages(req.system);
    let all = translate_request_spec(req, s).messages;
    assert(all[sys.len() + i] == translate_messages_spec(req.messages)[i]);
    let c = translate_response_spec(resp)->Ok_0.content;
    assert(c =~= seq![BlockView::Text { text: turn_text(req.messages[i].content) }]);
}

/// Alias resolution is order-deterministic: a name that contains the first
/// tier's name resolves to the first tier's target, whatever else it contains
/// and wherever in the name each occurs.
pub proof fn law_first_tier_wins(name: Seq<char>, s: SettingsView)
    requires
        contains_seq(name, "haiku"@),
    ensures
        map_model_spec(name, s) == s.haiku,
{
}

/// When the first tier's name is absent, the second tier's name decides over
/// the third.
pub proof fn law_second_tier_before_third(name: Seq<char>, s: SettingsView)
    requires
        !contains_seq(name, "haiku"@),
        contains_seq(name, "sonnet"@),
    ensures
        map_model_spec(name, s) == s.sonnet,
{
}

/// The `ToolUse` blocks among `bs`, in order.
pub open spec fn tool_use_blocks(bs: Seq<BlockView>) -> Seq<BlockView>
    decreases bs.len(),
{
    if bs.len() == 0 {
        Seq::empty()
    } else {
        tool_use_blocks(bs.drop_last()) + if bs.last() is ToolUse {
            seq![bs.last()]
        } else {
            Seq::empty()
        }
    }
}

/// Every `ToolUse` block's input parses as JSON.
pub open spec fn inputs_parse(bs: Seq<BlockView>) -> bool {
    forall|k: int| 0 <= k < bs.len() && (#[trigger] bs[k]) is ToolUse ==> json_parses(bs[k]->ToolUse_input)
}

proof fn lemma_calls_round_trip(bs: Seq<BlockView>)
    requires
        inputs_parse(bs),
    ensures
        tool_calls_of(bs).len() == tool_use_blocks(bs).len(),
        tool_calls_of(bs).map_values(|c: ToolCallView| tool_use_block(c)) == tool_use_blocks(bs),
    decreases bs.len(),
{
    if bs.len() > 0 {
        let init = bs.drop_last();
        assert forall|k: int| 0 <= k < init.len() && (#[trigger] init[k]) is ToolUse implies json_parses(
            init[k]->ToolUse_input,
        ) by {
            assert(init[k] == bs[k]);
        }
        lemma_calls_round_trip(init);
        assert(bs.last() == bs[bs.len() - 1]);
        assert(tool_calls_of(bs).map_values(|c: ToolCallView| tool_use_block(c)) =~= tool_use_blocks(bs));
    }
}

/// Tool calls survive the round trip: an assistant turn's tool calls are one
/// per `ToolUse` block, in the blocks' order, and when every input is JSON the
/// response translator turns them back into exactly those blocks (same id,
/// name and input).
pub proof fn law_tool_calls_round_trip(bs: Seq<BlockView>)
    requires
        inputs_parse(bs),
    ensures
        assistant_calls(ContentView::Blocks(bs)).len() == tool_use_blocks(bs).len(),
        assistant_calls(ContentView::Blocks(bs)).map_values(|c: ToolCallView| tool_use_block(c))
            == tool_use_blocks(bs),
        tool_use_blocks(bs).len() > 0 ==> assistant_message(ContentView::Blocks(bs)).tool_calls
            == Some(assistant_calls(ContentView::Blocks(bs))),
{
    lemma_calls_round_trip(bs);
}

/// Every finish reason but the tool-invocation one, seen or unseen, maps to
/// `end_turn`.
pub proof fn law_other_finish_reasons_end_turn(resp: ResponseBView)
    requires
        resp.choices.len() > 0,
        resp.choices[0].finish_reason != "tool_calls"@,
    ensures
        translate_response_spec(resp) is Ok,
        translate_response_spec(resp)->Ok_0.stop_reason == "end_turn"@,
{
}

/// A response without choices is the `EmptyChoices` error.
pub proof fn law_empty_choices_error(resp: ResponseBView)
    requires
        resp.choices.len() == 0,
    ensures
        translate_response_spec(resp) == Err::<crate::models::ResponseAView, TranslateError>(
            TranslateError::EmptyChoices,
        ),
{
}

} // verus!
