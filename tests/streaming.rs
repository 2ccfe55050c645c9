use ccor::config::Config;
use ccor::config::ModelSelection;
use ccor::config::default_openrouter_base_url;
use ccor::models::{OpenAIMessage, OpenAIStreamChoice, OpenAIStreamResponse};
use ccor::switch_model::switch_model_page;
use ccor::stream::{content_block_delta, message_stop, split_records, StreamRecord, StreamState, StreamTranslator};

fn chunk(content: Option<&str>) -> OpenAIStreamResponse {
    OpenAIStreamResponse {
        id: "s".to_string(),
        choices: vec![OpenAIStreamChoice {
            index: 0,
            delta: OpenAIMessage {
                role: "assistant".to_string(),
                content: content.map(|s| s.to_string()),
                tool_calls: None,
                tool_call_id: None,
            },
            finish_reason: None,
        }],
        model: "m".to_string(),
    }
}

/// Decodes a data payload the way the transport layer does, for the payloads used here.
fn decode(payload: &str) -> Option<OpenAIStreamResponse> {
    let v: serde_json::Value = serde_json::from_str(payload).ok()?;
    let content = v["choices"][0]["delta"]["content"].as_str().map(|s| s.to_string());
    Some(chunk(content.as_deref()))
}

fn run(chunks: &[&str]) -> Vec<String> {
    let mut t = StreamTranslator::new();
    let mut events = Vec::new();
    for c in chunks {
        if t.is_done() {
            break;
        }
        for rec in split_records(c) {
            let parsed = match &rec {
                StreamRecord::Data(d) => decode(d),
                StreamRecord::Sentinel => None,
            };
            if let Some(e) = t.on_record(&rec, parsed.as_ref()) {
                events.push(e);
            }
        }
    }
    t.end_of_input();
    if let Some(e) = t.finish() {
        events.push(e);
    }
    events
}

const DELTA_HI: &str =
    "event: content_block_delta\ndata: {\"delta\":{\"text\":\"Hi\",\"type\":\"text_delta\"},\"index\":0,\"type\":\"content_block_delta\"}\n\n";
const STOP: &str = "event: message_stop\ndata: {\"type\":\"message_stop\"}\n\n";

#[test]
fn one_delta_then_stop() {
    let events = run(&[
        "data: {\"id\":\"s\",\"choices\":[{\"index\":0,\"delta\":{\"content\":\"Hi\"}}],\"model\":\"m\"}\n\n",
        "data: [DONE]\n\n",
    ]);
    assert_eq!(events, vec![DELTA_HI.to_string(), STOP.to_string()]);
}

#[test]
fn sentinel_ends_the_whole_stream() {
    let events = run(&[
        "data: {\"choices\":[{\"delta\":{\"content\":\"Hi\"}}]}\n\ndata: [DONE]\n\ndata: {\"choices\":[{\"delta\":{\"content\":\"late\"}}]}\n\n",
        "data: {\"choices\":[{\"delta\":{\"content\":\"later\"}}]}\n\n",
    ]);
    assert_eq!(events, vec![DELTA_HI.to_string(), STOP.to_string()]);
}

#[test]
fn malformed_and_empty_records_are_dropped() {
    let events = run(&[
        "data: {not json\n\ndata: {\"choices\":[{\"delta\":{\"content\":\"\"}}]}\n\n: keep-alive\n\n",
        "data: {\"choices\":[]}\n\ndata: {\"choices\":[{\"delta\":{\"content\":\"Hi\"}}]}\n\n",
    ]);
    assert_eq!(events, vec![DELTA_HI.to_string(), STOP.to_string()]);
}

#[test]
fn closed_connection_still_stops_once() {
    let events = run(&[]);
    assert_eq!(events, vec![STOP.to_string()]);
    let mut t = StreamTranslator::new();
    assert!(t.finish().is_some());
    assert!(t.finish().is_none());
    assert_eq!(t.state, StreamState::Stopped);
    assert!(t.on_chunk(Some(&chunk(Some("x")))).is_none());
}

#[test]
fn records_of_a_chunk() {
    let recs = split_records("data: a\n\nevent: x\n\ndata: [DONE]\n\ndata: b\n\ndata: [DONE] \n\ndata: ");
    let shown: Vec<String> = recs
        .iter()
        .map(|r| match r {
            StreamRecord::Sentinel => "<done>".to_string(),
            StreamRecord::Data(d) => d.clone(),
        })
        .collect();
    assert_eq!(shown, vec!["a", "<done>", "b", "[DONE] ", ""]);
    assert!(split_records("").is_empty());
    assert!(split_records("\n\n").is_empty());
}

#[test]
fn delta_text_is_escaped() {
    assert_eq!(
        content_block_delta("say \"hi\"\n"),
        "event: content_block_delta\ndata: {\"delta\":{\"text\":\"say \\\"hi\\\"\\n\",\"type\":\"text_delta\"},\"index\":0,\"type\":\"content_block_delta\"}\n\n"
    );
    assert_eq!(message_stop(), STOP);
}

#[test]
fn selection_replaces_tiers_only() {
    let mut c = Config::new(8080, "k".to_string(), "h".to_string(), "s".to_string(), "o".to_string());
    assert_eq!(c.base_url, default_openrouter_base_url());
    assert_eq!(c.base_url, "https://openrouter.ai/api/v1");
    c.apply_selection(ModelSelection { haiku: "h2".to_string(), sonnet: "s2".to_string(), opus: "o2".to_string() });
    assert_eq!(c.port, 8080);
    assert_eq!(c.api_key, "k");
    assert_eq!((c.model_haiku.as_str(), c.model_sonnet.as_str(), c.model_opus.as_str()), ("h2", "s2", "o2"));
    let s = c.settings();
    assert_eq!(s.openrouter_model_sonnet, "s2");
    assert_eq!(c.chat_completions_url(), "https://openrouter.ai/api/v1/chat/completions");
    assert_eq!(c.models_url(), "https://openrouter.ai/api/v1/models");
}

#[test]
fn page_shows_tiers_and_catalogue() {
    let c = Config::new(1, "k".to_string(), "fast-one".to_string(), "mid-one".to_string(), "big-one".to_string());
    let page = switch_model_page(&c, Some("[{\"id\":\"a/b\",\"name\":\"B\"}]")).unwrap();
    assert!(page.contains("value=\"fast-one\""));
    assert!(page.contains("value=\"mid-one\""));
    assert!(page.contains("value=\"big-one\""));
    assert!(page.contains("const models = [{\"id\":\"a/b\",\"name\":\"B\"}];"));
    assert!(!page.contains("{{"));
    let empty = switch_model_page(&c, None).unwrap();
    assert!(empty.contains("const models = [];"));
}
