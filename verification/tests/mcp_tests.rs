use mentalist::mcp::{
    init_timeout_message, initialize_params, rpc_outcome, rpc_request_line, start_failure_message, status_text,
    tool_definitions, tool_output, BuiltinMcp, LineStep, McpExecutor, ReplyReader, RpcError, RpcResponse,
    MAX_SKIPPED_LINES, MCP_INIT_TIMEOUT_SECS,
};
use mentalist::tools::mcp_adapter::{
    call_params, call_timeout_message, not_started_message, parse_rpc_reply, parse_tool_list, BuiltinMcp as ServerMcp,
    McpServer, McpTool,
};
use mentalist::tools::mcp_adapter as adapter;

fn reply(id: i64, result: Option<&str>, error: Option<(i64, &str)>) -> RpcResponse {
    RpcResponse {
        id,
        result: result.map(|r| r.to_string()),
        error: error.map(|(code, message)| RpcError { code, message: message.to_string() }),
    }
}

#[test]
fn request_line_layout() {
    assert_eq!(
        rpc_request_line(7, "tools/list", "{}"),
        "{\"jsonrpc\":\"2.0\",\"method\":\"tools/list\",\"params\":{},\"id\":7}\n"
    );
    assert_eq!(
        initialize_params(),
        "{\"capabilities\":{},\"clientInfo\":{\"name\":\"Mentalist\",\"version\":\"0.3.0\"},\"protocolVersion\":\"2024-11-05\"}"
    );
}

#[test]
fn reader_skips_noise_and_other_replies() {
    let mut r = ReplyReader::new(3);
    assert!(matches!(r.on_line("   \n", None), LineStep::Skip));
    assert!(matches!(r.on_line("npm notice\n", None), LineStep::Skip));
    assert_eq!(r.skipped, 1);
    assert!(matches!(r.on_line("{...}\n", Some(reply(2, Some("1"), None))), LineStep::Skip));
    match r.on_line("{...}\n", Some(reply(3, Some("{\"ok\":true}"), None))) {
        LineStep::Accept(resp) => assert_eq!(resp.result.as_deref(), Some("{\"ok\":true}")),
        _ => panic!("expected the reply"),
    }
}

#[test]
fn reader_fails_on_end_of_output() {
    let mut r = ReplyReader::new(1);
    match r.on_line("", None) {
        LineStep::Fail { message, closed } => {
            assert!(closed);
            assert_eq!(message, "MCP server closed connection unexpectedly. Process cleaned up.");
        }
        _ => panic!("expected failure"),
    }
}

#[test]
fn reader_gives_up_after_too_many_noise_lines() {
    let mut r = ReplyReader::new(1);
    for _ in 0..MAX_SKIPPED_LINES {
        assert!(matches!(r.on_line("noise\n", None), LineStep::Skip));
    }
    match r.on_line("noise\n", None) {
        LineStep::Fail { message, closed } => {
            assert!(!closed);
            assert_eq!(
                message,
                "MCP protocol violation: exceeded max skipped lines (100) without valid JSON-RPC response"
            );
        }
        _ => panic!("expected failure"),
    }
}

#[test]
fn reply_outcomes() {
    assert_eq!(rpc_outcome(reply(1, Some("{\"a\":1}"), None)), Ok("{\"a\":1}".to_string()));
    assert_eq!(rpc_outcome(reply(1, None, Some((-32601, "Method not found")))), Err("MCP RPC Error (-32601): Method not found".to_string()));
    assert_eq!(rpc_outcome(reply(1, None, None)), Err("MCP protocol violation: no result or error".to_string()));
    assert_eq!(rpc_outcome(reply(1, Some("1"), Some((1, "x")))), Err("MCP protocol violation: both result and error".to_string()));
}

#[test]
fn tool_output_joins_text_items() {
    let r = "{\"content\":[{\"type\":\"text\",\"text\":\"Hello \"},{\"type\":\"image\"},{\"text\":\"world\"}]}";
    assert_eq!(tool_output("t", r), Ok("Hello world".to_string()));
    assert_eq!(tool_output("t", "{\"content\":[]}"), Err("MCP tool 't' returned empty content array".to_string()));
    assert_eq!(
        tool_output("t", "{\"content\":[{\"type\":\"image\"}]}"),
        Err("MCP tool 't' returned content but no text fields were found".to_string())
    );
    assert_eq!(tool_output("t", "{\"value\":3}"), Ok("{\"value\":3}".to_string()));
}

#[test]
fn tool_listing_with_defaults() {
    let defs = tool_definitions("{\"tools\":[{\"name\":\"read\",\"description\":\"Reads\",\"inputSchema\":{\"type\":\"object\"}},{\"name\":\"bare\"}]}");
    assert_eq!(defs.len(), 2);
    assert_eq!(defs[0].name, "read");
    assert_eq!(defs[0].description, "Reads");
    assert_eq!(defs[0].parameters, "{\"type\":\"object\"}");
    assert_eq!(defs[1].description, "");
    assert_eq!(defs[1].parameters, "{}");
    assert!(tool_definitions("{}").is_empty());
}

#[test]
fn executor_status_lines() {
    assert_eq!(status_text(None, None), "Starting...");
    assert_eq!(status_text(Some(true), None), "Connected");
    assert_eq!(status_text(Some(false), Some(Some("boom".into()))), "Error: boom");
    assert_eq!(status_text(Some(false), Some(None)), "Disconnected");
    assert_eq!(status_text(Some(false), None), "Disconnected");
    assert_eq!(start_failure_message("npx"), "Failed to start MCP server: npx");
    assert_eq!(init_timeout_message(), "MCP initialization timeout");
}

#[test]
fn executor_builders() {
    let e: McpExecutor<u8> = BuiltinMcp::filesystem(vec!["/data".into()], false);
    assert_eq!(e.command, "npx");
    assert_eq!(e.args, vec!["-y", "@modelcontextprotocol/server-filesystem", "/data"]);
    let f: McpExecutor<u8> = BuiltinMcp::firecrawl("k".into(), true);
    assert_eq!(f.command, "npx.cmd");
    assert_eq!(f.args, vec!["-y", "firecrawl-mcp"]);
    assert_eq!(f.env, vec![("FIRECRAWL_API_KEY".to_string(), "k".to_string())]);
    let g = McpExecutor::new("srv".into(), vec![]).with_middleware(5, 1u8).with_middleware(1, 2u8);
    assert_eq!(*g.middlewares.get(0), 2);
}

#[test]
fn server_messages() {
    let line = adapter::rpc_request_line(4, "initialize", "{}");
    assert_eq!(line, "{\"id\":4,\"jsonrpc\":\"2.0\",\"method\":\"initialize\",\"params\":{}}\n");
    assert_eq!(
        adapter::rpc_notification_line("notifications/initialized", "{}"),
        "{\"jsonrpc\":\"2.0\",\"method\":\"notifications/initialized\",\"params\":{}}\n"
    );
    assert_eq!(call_params("ls", "{\"p\":1}"), "{\"arguments\":{\"p\":1},\"name\":\"ls\"}");
    assert_eq!(
        adapter::initialize_params(),
        "{\"capabilities\":{\"sampling\":{}},\"clientInfo\":{\"name\":\"mentalist\",\"version\":\"0.3.5\"},\"protocolVersion\":\"2024-11-05\"}"
    );
}

#[test]
fn server_replies() {
    assert_eq!(parse_rpc_reply("{\"id\":1,\"result\":{\"x\":1}}"), Ok("{\"x\":1}".to_string()));
    assert_eq!(parse_rpc_reply("{\"id\":1}"), Ok("null".to_string()));
    assert_eq!(
        parse_rpc_reply("{\"error\":{\"code\":1,\"message\":\"bad\"}}"),
        Err("MCP error: {\"code\":1,\"message\":\"bad\"}".to_string())
    );
    assert!(parse_rpc_reply("not json").is_err());
    assert_eq!(call_timeout_message(60, "tools/call"), "MCP raw_call timeout (60s) for method: tools/call");
    assert_eq!(not_started_message(), "MCP process not started");
}

#[test]
fn server_tool_list() {
    let tools = parse_tool_list("{\"tools\":[{\"name\":\"a\",\"description\":\"d\"},{\"inputSchema\":{\"x\":1}}]}");
    assert_eq!(tools[0], ("a".to_string(), "d".to_string(), "{\"type\":\"object\"}".to_string()));
    assert_eq!(tools[1], ("".to_string(), "".to_string(), "{\"x\":1}".to_string()));
    assert!(parse_tool_list("{\"tools\":3}").is_empty());
}

#[test]
fn server_builders() {
    let s = McpServer::new("n".into(), "cmd".into(), vec!["a".into()]);
    assert_eq!(s.initialization_timeout, 60);
    assert_eq!(s.cwd, None);
    let s = s.with_timeout(5).with_cwd("/w".into()).with_env(vec![("K".into(), "V".into())]);
    assert_eq!(s.initialization_timeout, 5);
    assert_eq!(s.cwd.as_deref(), Some("/w"));
    assert_eq!(s.env, vec![("K".to_string(), "V".to_string())]);
    let fs = ServerMcp::filesystem(vec!["/d".into()], Some("/p".into()), "/cwd".into(), false);
    assert_eq!(fs.name, "filesystem");
    assert_eq!(fs.args, vec!["--prefix", "/p", "-y", "@modelcontextprotocol/server-filesystem", "/d"]);
    assert_eq!(fs.cwd.as_deref(), Some("/cwd"));
    let ddg = ServerMcp::duckduckgo(None, "/cwd".into(), true);
    assert_eq!(ddg.command, "npx.cmd");
    assert_eq!(ddg.args, vec!["-y", "duckduckgo-mcp-server"]);
    let fc = ServerMcp::firecrawl("key".into(), None, "/cwd".into(), false);
    assert_eq!(fc.env, vec![("FIRECRAWL_API_KEY".to_string(), "key".to_string())]);
    assert_eq!(
        ServerMcp::install_args("/root", "pkg"),
        vec!["install", "--prefix", "/root", "--no-package-lock", "--no-save", "pkg"]
    );
    assert_eq!(ServerMcp::install_failed_message("pkg"), "Failed to install MCP package: pkg");
    let tool = McpTool { source: "mcp:fs".into(), name: "read".into(), description: "r".into(), parameters: "{}".into() };
    assert_eq!(tool.schema().source, "mcp:fs");
    assert_eq!(tool.source(), "mcp:fs");
}

#[test]
fn initialize_waits_ten_seconds() {
    assert_eq!(MCP_INIT_TIMEOUT_SECS, 10);
    assert_eq!(init_timeout_message(), "MCP initialization timeout");
}
