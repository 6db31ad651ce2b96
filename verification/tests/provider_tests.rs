use mentalist::provider::{
    complete_unsupported_message, final_chunk, stream_error_message, text_chunk, AnthropicProvider, GeminiProvider,
    OpenAiProvider,
};

#[test]
fn provider_defaults() {
    let a = AnthropicProvider::new("k".into(), None, "vendor-default".into());
    assert_eq!(a.model, "vendor-default");
    assert_eq!(AnthropicProvider::new("k".into(), Some("m".into()), "d".into()).model, "m");
    let o = OpenAiProvider::new("k".into(), None);
    assert_eq!(o.model, "gpt-4o");
    assert_eq!(o.base_url, "https://api.openai.com/v1");
    let l = OpenAiProvider::ollama("llama3".into());
    assert_eq!(l.api_key, "ollama");
    assert_eq!(l.model, "llama3");
    assert_eq!(l.base_url, "http://localhost:11434/v1");
    assert_eq!(GeminiProvider::new("k".into(), None).model, "gemini-1.5-flash");
}

#[test]
fn provider_endpoints_and_payloads() {
    let a = AnthropicProvider::new("k".into(), Some("m1".into()), "d".into());
    assert_eq!(AnthropicProvider::endpoint(), "https://api.anthropic.com/v1/messages");
    assert_eq!(AnthropicProvider::api_version(), "2023-06-01");
    assert_eq!(
        a.payload("hi"),
        "{\"max_tokens\":4096,\"messages\":[{\"content\":\"hi\",\"role\":\"user\"}],\"model\":\"m1\",\"stream\":true}"
    );
    let o = OpenAiProvider::ollama("q".into());
    assert_eq!(o.endpoint(), "http://localhost:11434/v1/chat/completions");
    assert_eq!(o.payload("x\"y"), "{\"messages\":[{\"content\":\"x\\\"y\",\"role\":\"user\"}],\"model\":\"q\",\"stream\":true}");
    let g = GeminiProvider::new("KEY".into(), Some("gm".into()));
    assert_eq!(
        g.endpoint(),
        "https://generativelanguage.googleapis.com/v1beta/models/gm:streamGenerateContent?key=KEY"
    );
    assert_eq!(GeminiProvider::payload("p"), "{\"contents\":[{\"parts\":[{\"text\":\"p\"}]}]}");
}

#[test]
fn anthropic_events() {
    let chunks = AnthropicProvider::read_event("{\"type\":\"content_block_delta\",\"delta\":{\"text\":\"Hel\"}}").unwrap();
    assert_eq!(chunks.len(), 1);
    assert_eq!(chunks[0].content_delta.as_deref(), Some("Hel"));
    assert!(!chunks[0].is_final);
    let stop = AnthropicProvider::read_event("{\"type\":\"message_stop\"}").unwrap();
    assert_eq!(stop.len(), 1);
    assert!(stop[0].is_final);
    assert!(AnthropicProvider::read_event("{\"type\":\"ping\"}").unwrap().is_empty());
    assert!(AnthropicProvider::read_event("not json").is_err());
}

#[test]
fn openai_events() {
    let done = OpenAiProvider::read_event("[DONE]").unwrap();
    assert!(done.done);
    assert!(done.chunks[0].is_final);
    let ev = OpenAiProvider::read_event("{\"choices\":[{\"delta\":{\"content\":\"lo\"}}]}").unwrap();
    assert!(!ev.done);
    assert_eq!(ev.chunks[0].content_delta.as_deref(), Some("lo"));
    assert!(OpenAiProvider::read_event("{\"choices\":[]}").unwrap().chunks.is_empty());
    assert!(OpenAiProvider::read_event("{").is_err());
}

#[test]
fn gemini_blocks() {
    let c = GeminiProvider::read_block(b"{\"candidates\":[{\"content\":{\"parts\":[{\"text\":\"Hi\"}]}}]}").unwrap();
    assert_eq!(c.content_delta.as_deref(), Some("Hi"));
    assert!(GeminiProvider::read_block(b"[{\"candidates\":").is_none());
    assert!(GeminiProvider::read_block(&[0xff, 0xfe]).is_none());
}

#[test]
fn provider_messages_and_chunks() {
    assert_eq!(
        complete_unsupported_message(),
        "Non-streaming complete not implemented yet for live providers. Please use stream_complete."
    );
    assert_eq!(stream_error_message("OpenAI", "eof"), "OpenAI stream error: eof");
    assert!(final_chunk().is_final);
    assert_eq!(text_chunk("t".into()).content_delta.as_deref(), Some("t"));
}
