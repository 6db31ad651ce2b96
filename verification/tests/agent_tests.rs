use mentalist::agent::{
    categorize_message, categorize_tool_error, fix_json, needs_context_optimization, parse_tool_call_from_text,
    resolve_turn_calls, retry_backoff, retry_status, sessions_dir, step_timeout, tool_chain_exceeded,
    tool_chain_message, tool_error_text, tool_failure_item, tool_output_item, turn_gate, turn_prompt, DeepAgentState, ErrorCategory, ToolCallAccumulator, TurnGate,
};
use mentalist::config::AgentConfig;
use mentalist::context::{Context, ToolCall, ToolCallDelta};
use mentalist::executor::ToolError;

#[test]
fn fix_json_repairs_truncated_arguments() {
    assert_eq!(fix_json("  "), "{}");
    assert_eq!(fix_json("{\"a\": 1,"), "{\"a\": 1}");
    assert_eq!(fix_json("{\"a\": [1, 2"), "{\"a\": [1, 2}]");
    assert_eq!(fix_json("{\"a\": {\"b\": 1"), "{\"a\": {\"b\": 1}}");
    assert_eq!(fix_json(" {\"ok\": true} "), "{\"ok\": true}");
}

#[test]
fn fix_json_balances_braces_and_brackets() {
    let out = fix_json("[[{{{,");
    let opens = out.matches('{').count();
    let closes = out.matches('}').count();
    assert!(opens <= closes);
    assert!(out.matches('[').count() <= out.matches(']').count());
    assert_eq!(out, "[[{{{}}}]]");
}

#[test]
fn tool_call_in_tags() {
    let t = parse_tool_call_from_text("Sure. <tool_call>{\"name\": \"ls\", \"arguments\": {\"path\": \".\"}}</tool_call>").unwrap();
    assert_eq!(t.name, "ls");
    assert_eq!(t.arguments, "{\"path\":\".\"}");
}

#[test]
fn tool_call_in_fences() {
    let t = parse_tool_call_from_text("```json\n{\"name\": \"cat\", \"arguments\": {\"file\": \"a\"}}\n```").unwrap();
    assert_eq!(t.name, "cat");
    assert_eq!(t.arguments, "{\"file\":\"a\"}");
    let plain = parse_tool_call_from_text("```\n{\"name\": \"x\", \"arguments\": {}}\n```").unwrap();
    assert_eq!(plain.name, "x");
    assert_eq!(plain.arguments, "{}");
}

#[test]
fn tool_call_as_whole_text() {
    let t = parse_tool_call_from_text("  {\"arguments\": {\"q\": 1}, \"name\": \"search\"} ").unwrap();
    assert_eq!(t.name, "search");
    assert_eq!(t.arguments, "{\"q\":1}");
}

#[test]
fn text_without_tool_call() {
    assert!(parse_tool_call_from_text("Hello there").is_none());
    assert!(parse_tool_call_from_text("{\"name\": \"x\", \"arguments\": [1]}").is_none());
    assert!(parse_tool_call_from_text("{\"name\": 3, \"arguments\": {}}").is_none());
}

#[test]
fn native_calls_take_precedence() {
    let native = vec![ToolCall { name: "ls".into(), arguments: "{}".into() }];
    let (calls, text) = resolve_turn_calls(native, "{\"name\": \"x\", \"arguments\": {}}".into());
    assert_eq!(calls.len(), 1);
    assert_eq!(calls[0].name, "ls");
    assert_eq!(text, "{\"name\": \"x\", \"arguments\": {}}");
    let (calls, text) = resolve_turn_calls(vec![], "{\"name\": \"x\", \"arguments\": {}}".into());
    assert_eq!(calls[0].name, "x");
    assert_eq!(text, "");
    let (calls, text) = resolve_turn_calls(vec![], "just words".into());
    assert!(calls.is_empty());
    assert_eq!(text, "just words");
}

#[test]
fn accumulator_collects_streamed_calls() {
    let mut acc = ToolCallAccumulator::new();
    acc.on_delta(&ToolCallDelta { name: Some("ls".into()), arguments_delta: Some("{\"path\": ".into()) });
    acc.on_delta(&ToolCallDelta { name: None, arguments_delta: Some("\".\"".into()) });
    assert!(acc.on_chunk_end(false).is_ok());
    assert!(acc.on_chunk_end(true).is_ok());
    assert_eq!(acc.calls.len(), 1);
    assert_eq!(acc.calls[0].name, "ls");
    assert_eq!(acc.calls[0].arguments, "{\"path\":\".\"}");
    assert_eq!(acc.current_name, "");
}

#[test]
fn accumulator_flushes_on_new_name() {
    let mut acc = ToolCallAccumulator::new();
    acc.on_delta(&ToolCallDelta { name: Some("a".into()), arguments_delta: None });
    acc.on_delta(&ToolCallDelta { name: Some("b".into()), arguments_delta: Some("{}".into()) });
    assert!(acc.on_chunk_end(true).is_ok());
    let names: Vec<&str> = acc.calls.iter().map(|c| c.name.as_str()).collect();
    assert_eq!(names, vec!["a", "b"]);
    assert_eq!(acc.calls[0].arguments, "{}");
}

#[test]
fn accumulator_reports_unparsable_arguments() {
    let mut acc = ToolCallAccumulator::new();
    acc.on_delta(&ToolCallDelta { name: Some("x".into()), arguments_delta: Some("{\"a\": }".into()) });
    let e = acc.on_chunk_end(true).unwrap_err();
    assert!(e.starts_with("Tool argument JSON parse error: "));
    assert!(e.ends_with(" for args: {\"a\": }"));
}

#[test]
fn error_categories() {
    assert_eq!(categorize_tool_error(&ToolError::Transient("t".into())), ErrorCategory::TransientTimeout);
    assert_eq!(categorize_tool_error(&ToolError::NotFound("t".into())), ErrorCategory::ToolNotFound);
    assert_eq!(categorize_tool_error(&ToolError::SandboxError("t".into())), ErrorCategory::InternalError);
    assert_eq!(categorize_tool_error(&ToolError::ConfigError("t".into())), ErrorCategory::InternalError);
    assert_eq!(categorize_message("Connection TIMEOUT"), ErrorCategory::TransientTimeout);
    assert_eq!(categorize_message("file Not Found"), ErrorCategory::ToolNotFound);
    assert_eq!(categorize_message("Access denied"), ErrorCategory::PermissionDenied);
    assert_eq!(categorize_message("boom"), ErrorCategory::Unknown);
    assert_eq!(ErrorCategory::ResourceLimit.as_str(), "resource_limit");
    assert_eq!(ErrorCategory::SecurityViolation.as_str(), "security_violation");
}

#[test]
fn exponential_backoff() {
    assert_eq!(retry_backoff(ErrorCategory::TransientTimeout, 0, 3), Some(2));
    assert_eq!(retry_backoff(ErrorCategory::TransientTimeout, 1, 3), Some(4));
    assert_eq!(retry_backoff(ErrorCategory::TransientTimeout, 2, 3), Some(8));
    assert_eq!(retry_backoff(ErrorCategory::TransientTimeout, 3, 3), None);
    assert_eq!(retry_backoff(ErrorCategory::ToolNotFound, 0, 3), None);
    assert_eq!(retry_backoff(ErrorCategory::TransientTimeout, 62, 100), Some(1u64 << 63));
    assert_eq!(
        retry_status(ErrorCategory::TransientTimeout, 4, 2, 3),
        "Transient error detected (transient_timeout). Retrying in 4s (Attempt 2/3)"
    );
}

#[test]
fn turn_limits() {
    let mut c = AgentConfig::default();
    assert!(matches!(turn_gate(10, &c), TurnGate::Proceed));
    match turn_gate(11, &c) {
        TurnGate::Stop(m) => assert_eq!(m, "Turn limit (10) reached. Stopping."),
        _ => panic!("expected stop"),
    }
    c.fail_on_limit = true;
    assert!(matches!(turn_gate(11, &c), TurnGate::Fail(_)));
    assert!(!needs_context_optimization(50, &c));
    assert!(needs_context_optimization(51, &c));
    assert_eq!(step_timeout(300, &c), None);
    assert_eq!(step_timeout(301, &c).unwrap(), "Agent step timeout after 300s");
    assert_eq!(turn_prompt(1, "hi"), "hi");
    assert_eq!(turn_prompt(2, "hi"), "Continue");
    assert!(!tool_chain_exceeded(20, &c));
    assert!(tool_chain_exceeded(21, &c));
    assert_eq!(
        tool_chain_message(&c),
        "Security: Infinite tool chain detected (> 20 calls in one turn). Aborting turn."
    );
}

#[test]
fn session_file_names() {
    let s = DeepAgentState { session_id: "abc".into(), context: Context::new(), sandbox_root: "/s".into() };
    assert_eq!(s.session_file_name(), "session_abc.session");
    assert_eq!(s.temp_file_name(), ".session_abc.tmp");
    assert_eq!(sessions_dir(), ".agent/sessions");
}

#[test]
fn tool_result_items() {
    assert_eq!(tool_error_text("boom"), "Tool error: boom");
    let ok = tool_output_item("ls", "a b".into(), 9);
    assert_eq!(ok.content, "a b");
    assert_eq!(ok.timestamp, 9);
    assert_eq!(ok.metadata, "{\"tool\":\"ls\"}");
    let failed = tool_failure_item("ls", "Tool error: boom".into(), ErrorCategory::TransientTimeout, 10);
    assert_eq!(failed.content, "Tool error: boom");
    assert_eq!(failed.timestamp, 10);
    assert_eq!(failed.metadata, "{\"error\":true,\"error_category\":\"transient_timeout\",\"tool\":\"ls\"}");
}
