use mentalist::cognition::{
    critic_json_span, critic_prompt, default_critique, empty_map_critique, unreadable_critique, DefaultCritic, LlmCritic,
};
use mentalist::context::{Context, Request, Response, ToolCall, ToolDefinition};
use mentalist::error::MentalistError;
use mentalist::executor::ToolError;
use mentalist::llm::LLMRouter;
use mentalist::memory::{MemoryEvent, MemoryQuery};
use mentalist::middleware::todo::{TodoFile, TodoMiddleware};
use mentalist::middleware::{LoggingMiddleware, MiddlewareChain, SafetyMiddleware, ToolDiscoveryMiddleware, DEFAULT_PRIORITY};
use mentalist::telemetry::init_telemetry;
use mentalist::tools::{default_tool_source, ToolSchema};
use mentalist::wasm_tools::{
    count_lines, count_words, default_list_dir, parse_command, text_stats, unknown_command_message, usage_lines,
    write_content, ToolCommand,
};

fn call(name: &str, args: &str) -> ToolCall {
    ToolCall { name: name.into(), arguments: args.into() }
}

fn request(prompt: &str) -> Request {
    Request { prompt: prompt.into(), context: Context::new(), tools: vec![] }
}

#[test]
fn chain_orders_by_priority_then_insertion() {
    let mut chain: MiddlewareChain<&str> = MiddlewareChain::new();
    chain.add(DEFAULT_PRIORITY, "logging");
    chain.add(0, "safety");
    chain.add(DEFAULT_PRIORITY, "todo");
    chain.add(20, "late");
    let names: Vec<&str> = (0..chain.len()).map(|i| *chain.get(i)).collect();
    assert_eq!(names, vec!["safety", "logging", "todo", "late"]);
    assert_eq!(DEFAULT_PRIORITY, 10);
}

#[test]
fn safety_middleware_blocks_forbidden_tools() {
    let m = SafetyMiddleware::new(vec!["rm".into()]);
    assert_eq!(m.name(), "Safety");
    assert_eq!(
        m.before_tool_call(&call("rm", "{}")),
        Err("Security: Tool 'rm' is forbidden by SafetyMiddleware.".to_string())
    );
    assert!(m.before_tool_call(&call("ls", "{}")).is_ok());
}

#[test]
fn logging_middleware_redacts_secrets() {
    assert!(LoggingMiddleware::is_sensitive_key("API_KEY"));
    assert!(LoggingMiddleware::is_sensitive_key("authorization"));
    assert!(!LoggingMiddleware::is_sensitive_key("path"));
    let out = LoggingMiddleware::redact_arguments(&vec![
        ("path".into(), "\".\"".into()),
        ("Password".into(), "\"hunter2\"".into()),
    ]);
    assert_eq!(out[0], ("path".to_string(), "\".\"".to_string()));
    assert_eq!(out[1], ("Password".to_string(), "\"[REDACTED]\"".to_string()));
    assert_eq!(LoggingMiddleware.name(), "Logging");
    assert!(!LoggingMiddleware.is_critical());
}

#[test]
fn todo_middleware_prepends_objectives() {
    let m = TodoMiddleware::new("TODO.md".into());
    assert_eq!(m.name(), "Todo");
    let mut r = request("Do it");
    m.before_ai_call(&mut r, &TodoFile::Read("- [ ] one".into()));
    assert_eq!(r.prompt, "### CURRENT AGENT OBJECTIVES (from TODO.md) ###\n- [ ] one\n\n---\n\nDo it");
    let mut r = request("p");
    m.before_ai_call(&mut r, &TodoFile::Missing);
    assert!(r.prompt.contains("No current objectives defined."));
    assert_eq!(TodoMiddleware::todos(&TodoFile::Unreadable), "Error reading TODO.md");
}

#[test]
fn todo_middleware_detects_plan_updates() {
    let m = TodoMiddleware::new("TODO.md".into());
    assert!(m.after_tool_call(&call("update_todo", "{}")));
    assert!(m.after_tool_call(&call("write_file", "{\"path\":\"docs/TODO.md\"}")));
    assert!(!m.after_tool_call(&call("write_file", "{\"path\":\"notes.md\"}")));
    assert!(!m.after_tool_call(&call("write_file", "{\"path\":3}")));
    let res = Response { content: String::new(), tool_calls: vec![call("update_todo", "{}")], usage: None };
    assert!(!m.after_ai_call(&res));
    let res = Response { content: String::new(), tool_calls: vec![call("update_todo", "{\"path\":\"TODO.md\"}")], usage: None };
    assert!(m.after_ai_call(&res));
}

#[test]
fn tool_discovery_appends_schemas() {
    let m = ToolDiscoveryMiddleware::new(());
    assert_eq!(m.name(), "ToolDiscovery");
    assert!(!m.is_critical());
    let mut r = request("p");
    r.tools.push(ToolDefinition { name: "old".into(), description: "o".into(), parameters: "{}".into() });
    m.before_ai_call(
        &mut r,
        vec![ToolSchema { name: "ls".into(), description: "List".into(), parameters: "{}".into(), source: default_tool_source() }],
    );
    let names: Vec<&str> = r.tools.iter().map(|t| t.name.as_str()).collect();
    assert_eq!(names, vec!["old", "ls"]);
    assert_eq!(r.tools[1].description, "List");
    assert_eq!(default_tool_source(), "builtin");
}

#[test]
fn critic_answer_span() {
    assert_eq!(critic_json_span("Sure: {\"score\": 1} thanks"), "{\"score\": 1}");
    assert_eq!(critic_json_span("{\"a\": {\"b\": 1}} x"), "{\"a\": {\"b\": 1}}");
    assert_eq!(critic_json_span("start { unterminated"), "{ unterminated");
    assert_eq!(critic_json_span("no json"), "no json");
    assert_eq!(unreadable_critique("garbage"), "Failed to parse critic response: garbage");
    assert_eq!(empty_map_critique(), "Empty feedback map received");
    assert_eq!(default_critique(), "Success");
    let _ = DefaultCritic;
    let c = LlmCritic::new(5u8);
    assert_eq!(c.provider, 5);
}

#[test]
fn critic_prompt_layout() {
    let p = critic_prompt("G", "{\"ctx\":1}", "{\"res\":2}");
    assert!(p.starts_with("You are the Critic Module of a Cognitive Agent.\n"));
    assert!(p.contains("### GOAL ###\nG\n\n### CONTEXT ###\n{\"ctx\":1}\n\n### EXECUTION RESULTS ###\n{\"res\":2}\n\n### INSTRUCTIONS ###\n"));
    assert!(p.contains("REQUIRED SCHEMA:\n{\n  \"score\": float,\n  \"critique\": \"string\",\n  \"suggests_retry\": boolean\n}\n"));
    assert!(p.ends_with("JSON OUTPUT:\n"));
}

#[test]
fn router_keeps_providers_in_order() {
    let mut r: LLMRouter<&str> = LLMRouter::new();
    r.add_provider("a");
    r.add_provider("b");
    assert_eq!(r.providers, vec!["a", "b"]);
}

#[test]
fn memory_records() {
    let e = MemoryEvent { content: "c".into(), timestamp: 3, metadata: "{}".into() };
    let q = MemoryQuery { text: "c".into(), limit: 2 };
    assert_eq!(e.timestamp, 3);
    assert_eq!(q.limit, 2);
    init_telemetry();
}

#[test]
fn error_messages() {
    assert_eq!(MentalistError::ConfigError("x".into()).message(), "Configuration error: x");
    assert_eq!(
        MentalistError::ExecutorError(ToolError::NotFound("t".into())).message(),
        "Executor error: Tool not found: t"
    );
    assert_eq!(MentalistError::AgentError("x".into()).message(), "Agent error: x");
    assert_eq!(
        MentalistError::MiddlewareError { middleware: "Spy".into(), source: "boom".into() }.message(),
        "Middleware 'Spy' failure: boom"
    );
    assert_eq!(MentalistError::ProviderError("x".into()).message(), "Model provider error: x");
    assert_eq!(MentalistError::Internal("x".into()).message(), "Internal error: x");
    assert_eq!(MentalistError::Io("x".into()).message(), "IO error: x");
}

#[test]
fn tool_runner_commands() {
    assert_eq!(parse_command("ls"), Some(ToolCommand::List));
    assert_eq!(parse_command("cat"), Some(ToolCommand::Read));
    assert_eq!(parse_command("write"), Some(ToolCommand::Write));
    assert_eq!(parse_command("stats"), Some(ToolCommand::Stats));
    assert_eq!(parse_command("rm"), None);
    assert_eq!(default_list_dir(), "/sandbox");
    assert_eq!(unknown_command_message("rm"), "Unknown command: rm");
    assert_eq!(usage_lines().1, "Available commands: ls, cat, write, stats");
}

#[test]
fn tool_runner_stats() {
    assert_eq!(text_stats("hello world"), "Chars: 11, Words: 2, Lines: 1");
    assert_eq!(text_stats("héllo\n\n  two words \n"), "Chars: 21, Words: 3, Lines: 3");
    assert_eq!(text_stats(""), "Chars: 0, Words: 0, Lines: 0");
    assert_eq!(count_words("  a\u{3000}b\tc  "), 3);
    assert_eq!(count_lines("a\nb"), 2);
    assert_eq!(count_lines("\n"), 1);
}

#[test]
fn tool_runner_write_content() {
    let args: Vec<String> = vec!["f.txt".into(), "hello".into(), "big".into(), "world".into()];
    assert_eq!(write_content(&args), "hello big world");
    assert_eq!(write_content(&vec!["f".into(), "x".into()]), "x");
}

#[test]
fn schema_as_definition() {
    let d = ToolSchema { name: "ls".into(), description: "List".into(), parameters: "{}".into(), source: "mcp:fs".into() }
        .into_definition();
    assert_eq!((d.name.as_str(), d.description.as_str(), d.parameters.as_str()), ("ls", "List", "{}"));
}
