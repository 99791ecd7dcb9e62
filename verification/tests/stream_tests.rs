use cursor_api::api::service::stream::{
    anthropic_stream_step, full_answer_text, openai_stream_step, AnthropicOut, AnthropicStream, BlockKind, DeltaChunk, OpenAiStream, Phase,
    StreamEvent,
};

fn contents(cs: &[DeltaChunk]) -> Vec<Option<String>> {
    cs.iter().map(|c| c.content.clone()).collect()
}

#[test]
fn openai_stream_with_reasoning() {
    let s = OpenAiStream { is_start: true, meet_thinking: false };
    let (s, out) = openai_stream_step(s, StreamEvent::Thinking { text: "\n\nhmm".to_string(), signature: String::new() }, "<think>", "</think>");
    assert_eq!(contents(&out), vec![Some("<think>".to_string()), Some("hmm".to_string())]);
    assert!(out[0].with_model && out[0].with_role && !out[1].with_model);
    assert_eq!(s, OpenAiStream { is_start: false, meet_thinking: true });
    let (s, out) = openai_stream_step(s, StreamEvent::Content("\n\nAnswer".to_string()), "<think>", "</think>");
    assert_eq!(contents(&out), vec![Some("</think>".to_string()), Some("\n\nAnswer".to_string())]);
    assert!(!out[1].with_model && !out[1].with_role);
    let (_, out) = openai_stream_step(s, StreamEvent::End, "<think>", "</think>");
    assert_eq!(out.len(), 1);
    assert!(out[0].finish && out[0].content.is_none());
}

#[test]
fn openai_stream_plain_answer() {
    let s = OpenAiStream { is_start: true, meet_thinking: false };
    let (s, out) = openai_stream_step(s, StreamEvent::Content("\n\nHi".to_string()), "<think>", "</think>");
    assert_eq!(contents(&out), vec![Some("Hi".to_string())]);
    assert!(out[0].with_model && out[0].with_role);
    let (s2, out) = openai_stream_step(s, StreamEvent::Other, "<think>", "</think>");
    assert!(out.is_empty());
    assert_eq!(s2, s);
}

#[test]
fn anthropic_stream_blocks() {
    let s = AnthropicStream { phase: Phase::NotStarted, last: BlockKind::NoBlock, index: 0, usage_pending: true };
    let (s, out) = anthropic_stream_step(s, StreamEvent::Thinking { text: "t".to_string(), signature: "sig".to_string() });
    assert!(matches!(out[0], AnthropicOut::MessageStart));
    assert!(matches!(out[1], AnthropicOut::ContentBlockStartThinking { index: 0 }));
    assert!(matches!(out[2], AnthropicOut::Ping));
    assert!(matches!(&out[3], AnthropicOut::ThinkingDelta { index: 0, thinking } if thinking == "t"));
    assert!(matches!(&out[4], AnthropicOut::SignatureDelta { index: 0, signature } if signature == "sig"));
    assert_eq!(out.len(), 5);
    let (s, out) = anthropic_stream_step(s, StreamEvent::Content("a".to_string()));
    assert!(matches!(out[0], AnthropicOut::ContentBlockStop { index: 0 }));
    assert!(matches!(out[1], AnthropicOut::ContentBlockStartText { index: 1 }));
    assert!(matches!(&out[2], AnthropicOut::TextDelta { index: 1, text } if text == "a"));
    assert_eq!(out.len(), 3);
    let (s, out) = anthropic_stream_step(s, StreamEvent::Content("b".to_string()));
    assert_eq!(out.len(), 1);
    let (s, out) = anthropic_stream_step(s, StreamEvent::End);
    assert!(matches!(out[0], AnthropicOut::ContentBlockStop { index: 1 }));
    assert!(matches!(out[1], AnthropicOut::MessageDelta));
    assert_eq!(s.phase, Phase::Completed);
    let (_, out) = anthropic_stream_step(s, StreamEvent::End);
    assert_eq!(out.len(), 1);
}

#[test]
fn whole_reply_text() {
    assert_eq!(full_answer_text("\n\nplan".to_string(), "done".to_string(), "<think>", "</think>"), "<think>plan</think>done");
    assert_eq!(full_answer_text(String::new(), "\n\ndone".to_string(), "<think>", "</think>"), "done");
    assert_eq!(full_answer_text(String::new(), String::new(), "<think>", "</think>"), "");
}
