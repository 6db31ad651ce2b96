//! An executor whose tools are served by a Model Context Protocol server:
//! the JSON-RPC requests it writes, the reading of the server's output line
//! by line, and what a tool call's result is turned into.
use vstd::prelude::*;
use crate::context::ToolDefinition;
use crate::json::{json_array_items, json_as_str, json_get, json_get_spec, json_items_spec, json_quote, json_quote_spec, json_str_spec};
use crate::middleware::{first_above, MiddlewareChain};
use crate::text::{chars_of, concat2, concat3, i64_to_decimal, owned, push_str, signed_decimal, string_from_chars, trim, trim_exec};
use crate::tools::mcp_adapter::{npx_spec, npx_command, pair_views, str_member, str_member_or_empty, views};

verus! {

/// How many lines that are not JSON-RPC replies are passed over before the
/// server is judged to break the protocol.
pub const MAX_SKIPPED_LINES: usize = 100;

/// An executor backed by a Model Context Protocol server started with
/// `command` and `args`, with `env` set; middlewares run around each call.
pub struct McpExecutor<M> {
    pub command: String,
    pub args: Vec<String>,
    pub env: Vec<(String, String)>,
    pub middlewares: MiddlewareChain<M>,
}

impl<M> McpExecutor<M> {
    /// An executor with no extra environment and no middlewares.
    pub fn new(command: String, args: Vec<String>) -> (res: Self)
        ensures
            res.command@ == command@,
            res.args@ == args@,
            res.env@.len() == 0,
            res.middlewares@.len() == 0,
    {
        McpExecutor { command, args, env: Vec::new(), middlewares: MiddlewareChain::new() }
    }

    /// Adds a middleware at its place in priority order.
    pub fn add_middleware(&mut self, priority: i32, middleware: M)
        ensures
            final(self).middlewares@ == old(self).middlewares@.insert(
                first_above(old(self).middlewares@, priority, 0),
                (priority, middleware),
            ),
            final(self).command@ == old(self).command@,
            final(self).args@ == old(self).args@,
            final(self).env@ == old(self).env@,
    {
        self.middlewares.add(priority, middleware);
    }

    /// The executor with a middleware added.
    pub fn with_middleware(self, priority: i32, middleware: M) -> (res: Self)
        ensures
            res.middlewares@ == self.middlewares@.insert(first_above(self.middlewares@, priority, 0), (priority, middleware)),
            res.command@ == self.command@,
            res.args@ == self.args@,
            res.env@ == self.env@,
    {
        let mut s = self;
        s.add_middleware(priority, middleware);
        s
    }

    /// The executor with its environment replaced.
    pub fn with_env(self, env: Vec<(String, String)>) -> (res: Self)
        ensures
            res.env@ == env@,
            res.command@ == self.command@,
            res.args@ == self.args@,
            res.middlewares@ == self.middlewares@,
    {
        let mut s = self;
        s.env = env;
        s
    }
}

/// The error member of a JSON-RPC reply.
#[derive(Debug, Clone)]
pub struct RpcError {
    pub code: i64,
    pub message: String,
}

/// A JSON-RPC reply: its identifier and its result and error members
/// (`None` where a member is absent or null); `result` is JSON text.
#[derive(Debug, Clone)]
pub struct RpcResponse {
    pub id: i64,
    pub result: Option<String>,
    pub error: Option<RpcError>,
}

/// The request line: the members in the order `jsonrpc`, `method`, `params`,
/// `id`, then a line break. `params` is JSON text.
pub open spec fn request_line_spec(id: i64, method: Seq<char>, params: Seq<char>) -> Seq<char> {
    "{\"jsonrpc\":\"2.0\",\"method\":"@ + json_quote_spec(method) + ",\"params\":"@ + params + ",\"id\":"@
        + signed_decimal(id as int) + "}\n"@
}

/// The request line written to the server.
pub fn rpc_request_line(id: i64, method: &str, params: &str) -> (res: String)
    ensures
        res@ == request_line_spec(id, method@, params@),
{
    let q = json_quote(method);
    let d = i64_to_decimal(id);
    let mut v: Vec<char> = Vec::new();
    push_str(&mut v, "{\"jsonrpc\":\"2.0\",\"method\":");
    push_str(&mut v, q.as_str());
    push_str(&mut v, ",\"params\":");
    push_str(&mut v, params);
    push_str(&mut v, ",\"id\":");
    push_str(&mut v, d.as_str());
    push_str(&mut v, "}\n");
    string_from_chars(v.as_slice())
}

/// The parameters of the `initialize` request.
pub fn initialize_params() -> (res: String)
    ensures
        res@ == "{\"capabilities\":{},\"clientInfo\":{\"name\":\"Mentalist\",\"version\":\"0.3.0\"},\"protocolVersion\":\"2024-11-05\"}"@,
{
    owned("{\"capabilities\":{},\"clientInfo\":{\"name\":\"Mentalist\",\"version\":\"0.3.0\"},\"protocolVersion\":\"2024-11-05\"}")
}

/// The error when the server stops answering.
pub open spec fn closed_message() -> Seq<char> {
    "MCP server closed connection unexpectedly. Process cleaned up."@
}

/// The error when too many lines were not replies.
pub open spec fn skipped_message() -> Seq<char> {
    "MCP protocol violation: exceeded max skipped lines (100) without valid JSON-RPC response"@
}

/// What to do with a line of the server's output.
#[derive(Debug)]
pub enum LineStep {
    /// Read the next line.
    Skip,
    /// The reply to the request.
    Accept(RpcResponse),
    /// Stop with this error; `closed` says the process is to be cleaned up.
    Fail { message: String, closed: bool },
}

/// Reads the server's output up to the reply to one request: blank lines,
/// replies to other requests and up to `MAX_SKIPPED_LINES` lines that are not
/// replies are passed over.
#[derive(Debug, Clone, Copy)]
pub struct ReplyReader {
    pub expected_id: i64,
    pub skipped: usize,
}

impl ReplyReader {
    /// A reader for the reply to request `expected_id`.
    pub fn new(expected_id: i64) -> (res: Self)
        ensures
            res.expected_id == expected_id,
            res.skipped == 0,
    {
        ReplyReader { expected_id, skipped: 0 }
    }

    /// Takes one line as read (empty at the end of the output) and `parsed`,
    /// the line's trimmed text read as a reply, or `None` when it is not one.
    pub fn on_line(&mut self, line: &str, parsed: Option<RpcResponse>) -> (res: LineStep)
        requires
            old(self).skipped <= MAX_SKIPPED_LINES,
        ensures
            final(self).expected_id == old(self).expected_id,
            line@.len() == 0 ==> (res matches LineStep::Fail { message, closed } && message@ == closed_message() && closed)
                && final(self).skipped == old(self).skipped,
            line@.len() > 0 && trim(line@).len() == 0 ==> res is Skip && final(self).skipped == old(self).skipped,
            line@.len() > 0 && trim(line@).len() > 0 && parsed is Some ==> final(self).skipped == old(self).skipped
                && (if parsed->0.id == old(self).expected_id {
                    res matches LineStep::Accept(r) && r == parsed->0
                } else {
                    res is Skip
                }),
            line@.len() > 0 && trim(line@).len() > 0 && parsed is None ==> final(self).skipped == old(self).skipped + 1
                && (if old(self).skipped + 1 > MAX_SKIPPED_LINES {
                    res matches LineStep::Fail { message, closed } && message@ == skipped_message() && !closed
                } else {
                    res is Skip
                }),
            res is Skip ==> final(self).skipped <= MAX_SKIPPED_LINES,
    {
        let c = chars_of(line);
        if c.len() == 0 {
            return LineStep::Fail { message: owned("MCP server closed connection unexpectedly. Process cleaned up."), closed: true };
        }
        let t = trim_exec(c.as_slice());
        if t.len() == 0 {
            return LineStep::Skip;
        }
        match parsed {
            Some(r) => {
                if r.id == self.expected_id {
                    LineStep::Accept(r)
                } else {
                    LineStep::Skip
                }
            },
            None => {
                self.skipped = self.skipped + 1;
                if self.skipped > MAX_SKIPPED_LINES {
                    LineStep::Fail {
                        message: owned("MCP protocol violation: exceeded max skipped lines (100) without valid JSON-RPC response"),
                        closed: false,
                    }
                } else {
                    LineStep::Skip
                }
            },
        }
    }
}

/// What a reply means: its result when it has only a result, the server's
/// error when it has only an error, and a protocol violation otherwise.
pub open spec fn rpc_outcome_spec(r: RpcResponse) -> Result<Seq<char>, Seq<char>> {
    match (r.result, r.error) {
        (Some(v), None) => Ok(v@),
        (None, Some(e)) => Err("MCP RPC Error ("@ + signed_decimal(e.code as int) + "): "@ + e.message@),
        (None, None) => Err("MCP protocol violation: no result or error"@),
        (Some(_), Some(_)) => Err("MCP protocol violation: both result and error"@),
    }
}

/// What a reply means.
pub fn rpc_outcome(r: RpcResponse) -> (res: Result<String, String>)
    ensures
        match res {
            Ok(v) => rpc_outcome_spec(r) == Ok::<Seq<char>, Seq<char>>(v@),
            Err(e) => rpc_outcome_spec(r) == Err::<Seq<char>, Seq<char>>(e@),
        },
{
    match (r.result, r.error) {
        (Some(v), None) => Ok(v),
        (None, Some(e)) => {
            let d = i64_to_decimal(e.code);
            let head = concat3("MCP RPC Error (", d.as_str(), "): ");
            Err(concat2(head.as_str(), e.message.as_str()))
        },
        (None, None) => Err(owned("MCP protocol violation: no result or error")),
        (Some(_), Some(_)) => Err(owned("MCP protocol violation: both result and error")),
    }
}

/// The `text` member of a content item, if it is a string.
pub open spec fn item_text(item: Seq<char>) -> Option<Seq<char>> {
    match json_get_spec(item, "text"@) {
        Some(t) => json_str_spec(t),
        None => None,
    }
}

/// The text members of the content items, joined.
pub open spec fn joined_texts(items: Seq<Seq<char>>) -> Seq<char>
    decreases items.len(),
{
    if items.len() == 0 {
        Seq::empty()
    } else {
        joined_texts(items.drop_last()) + match item_text(items.last()) {
            Some(t) => t,
            None => Seq::empty(),
        }
    }
}

/// The output of a `tools/call` result: the joined text of its content
/// items, an error when the content is empty or has no text, and the result
/// itself when it has no content array.
pub open spec fn tool_output_spec(name: Seq<char>, result: Seq<char>) -> Result<Seq<char>, Seq<char>> {
    let content = match json_get_spec(result, "content"@) {
        Some(c) => json_items_spec(c),
        None => None,
    };
    match content {
        Some(items) => if items.len() == 0 {
            Err("MCP tool '"@ + name + "' returned empty content array"@)
        } else if joined_texts(items).len() == 0 {
            Err("MCP tool '"@ + name + "' returned content but no text fields were found"@)
        } else {
            Ok(joined_texts(items))
        },
        None => Ok(result),
    }
}

/// The output of a `tools/call` result, whose JSON text is `result`.
pub fn tool_output(name: &str, result: &str) -> (res: Result<String, String>)
    ensures
        match res {
            Ok(v) => tool_output_spec(name@, result@) == Ok::<Seq<char>, Seq<char>>(v@),
            Err(e) => tool_output_spec(name@, result@) == Err::<Seq<char>, Seq<char>>(e@),
        },
{
    let content = match json_get(result, "content") {
        Some(c) => json_array_items(c.as_str()),
        None => None,
    };
    let items = match content {
        Some(items) => items,
        None => return Ok(owned(result)),
    };
    if items.len() == 0 {
        return Err(concat3("MCP tool '", name, "' returned empty content array"));
    }
    let ghost iv = views(items@);
    let mut text: Vec<char> = Vec::new();
    let mut i: usize = 0;
    while i < items.len()
        invariant
            i <= items.len(),
            iv == views(items@),
            text@ == joined_texts(iv.subrange(0, i as int)),
        decreases items.len() - i,
    {
        let piece = match json_get(items[i].as_str(), "text") {
            Some(t) => json_as_str(t.as_str()),
            None => None,
        };
        proof {
            assert(iv.subrange(0, i as int + 1).drop_last() =~= iv.subrange(0, i as int));
            assert(iv.subrange(0, i as int + 1).last() == items@[i as int]@);
        }
        match piece {
            Some(p) => push_str(&mut text, p.as_str()),
            None => {},
        }
        i = i + 1;
    }
    assert(iv.subrange(0, items@.len() as int) =~= iv);
    if text.len() == 0 {
        return Err(concat3("MCP tool '", name, "' returned content but no text fields were found"));
    }
    Ok(string_from_chars(text.as_slice()))
}

/// The tools listed in a `tools/list` result.
pub open spec fn listed_items(result: Seq<char>) -> Seq<Seq<char>> {
    match json_get_spec(result, "tools"@) {
        Some(t) => match json_items_spec(t) {
            Some(items) => items,
            None => Seq::empty(),
        },
        None => Seq::empty(),
    }
}

/// A listed tool's definition: a missing name or description is empty and a
/// missing schema is `{}`.
pub open spec fn listed_definition(t: Seq<char>) -> (Seq<char>, Seq<char>, Seq<char>) {
    (
        str_member_or_empty(t, "name"@),
        str_member_or_empty(t, "description"@),
        match json_get_spec(t, "inputSchema"@) {
            Some(p) => p,
            None => "{}"@,
        },
    )
}

/// The tool definitions in a `tools/list` result.
pub fn tool_definitions(result: &str) -> (res: Vec<ToolDefinition>)
    ensures
        res@.len() == listed_items(result@).len(),
        forall|i: int| 0 <= i < res@.len() ==> {
            let d = #[trigger] res@[i];
            (d.name@, d.description@, d.parameters@) == listed_definition(listed_items(result@)[i])
        },
{
    let items = match json_get(result, "tools") {
        Some(t) => match json_array_items(t.as_str()) {
            Some(items) => items,
            None => return Vec::new(),
        },
        None => return Vec::new(),
    };
    let ghost iv = views(items@);
    let mut out: Vec<ToolDefinition> = Vec::new();
    let mut i: usize = 0;
    while i < items.len()
        invariant
            i <= items.len(),
            iv == views(items@),
            iv == listed_items(result@),
            out@.len() == i,
            forall|j: int| 0 <= j < i ==> {
                let d = #[trigger] out@[j];
                (d.name@, d.description@, d.parameters@) == listed_definition(iv[j])
            },
        decreases items.len() - i,
    {
        let t = items[i].as_str();
        let name = str_member(t, "name");
        let description = str_member(t, "description");
        let parameters = match json_get(t, "inputSchema") {
            Some(p) => p,
            None => owned("{}"),
        };
        assert(iv[i as int] == items@[i as int]@);
        out.push(ToolDefinition { name, description, parameters });
        i = i + 1;
    }
    out
}

/// The executor's status: "Starting..." while the process is being set up
/// (`process` is `None`), "Connected" while it runs, otherwise the last
/// error when it can be read and there is one, else "Disconnected".
pub open spec fn status_spec(process: Option<bool>, last_error: Option<Option<String>>) -> Seq<char> {
    match process {
        None => "Starting..."@,
        Some(true) => "Connected"@,
        Some(false) => match last_error {
            Some(Some(e)) => "Error: "@ + e@,
            _ => "Disconnected"@,
        },
    }
}

/// The executor's status, from whether the process lock could be taken and
/// a process runs, and from the last error if its lock could be taken.
pub fn status_text(process: Option<bool>, last_error: Option<Option<String>>) -> (res: String)
    ensures
        res@ == status_spec(process, last_error),
{
    match process {
        None => owned("Starting..."),
        Some(true) => owned("Connected"),
        Some(false) => match last_error {
            Some(Some(e)) => concat2("Error: ", e.as_str()),
            _ => owned("Disconnected"),
        },
    }
}

/// The error when the server cannot be started.
pub fn start_failure_message(command: &str) -> (res: String)
    ensures
        res@ == "Failed to start MCP server: "@ + command@,
{
    concat2("Failed to start MCP server: ", command)
}

/// How long a server may take to answer the initialize request, in seconds.
pub const MCP_INIT_TIMEOUT_SECS: u64 = 10;

/// The error when the server does not finish its initialization in time.
pub fn init_timeout_message() -> (res: String)
    ensures
        res@ == "MCP initialization timeout"@,
{
    owned("MCP initialization timeout")
}

/// Launchers for the servers that come with the runtime; they run through npx.
pub struct BuiltinMcp;

impl BuiltinMcp {
    /// The filesystem server over `paths`.
    pub fn filesystem<M>(paths: Vec<String>, windows: bool) -> (res: McpExecutor<M>)
        ensures
            res.command@ == npx_spec(windows),
            views(res.args@) == seq!["-y"@, "@modelcontextprotocol/server-filesystem"@] + views(paths@),
            res.env@.len() == 0,
            res.middlewares@.len() == 0,
    {
        let mut args: Vec<String> = vec![owned("-y"), owned("@modelcontextprotocol/server-filesystem")];
        let ghost target = seq!["-y"@, "@modelcontextprotocol/server-filesystem"@] + views(paths@);
        let mut i: usize = 0;
        while i < paths.len()
            invariant
                i <= paths.len(),
                target == seq!["-y"@, "@modelcontextprotocol/server-filesystem"@] + views(paths@),
                args@.len() == 2 + i,
                forall|j: int| 0 <= j < args@.len() ==> (#[trigger] args@[j])@ == target[j],
            decreases paths.len() - i,
        {
            args.push(paths[i].clone());
            i = i + 1;
        }
        assert(views(args@) =~= target);
        McpExecutor::new(owned(npx_command(windows)), args)
    }

    /// The Firecrawl server, given its API key.
    pub fn firecrawl<M>(api_key: String, windows: bool) -> (res: McpExecutor<M>)
        ensures
            res.command@ == npx_spec(windows),
            views(res.args@) == seq!["-y"@, "firecrawl-mcp"@],
            pair_views(res.env@) == seq![("FIRECRAWL_API_KEY"@, api_key@)],
            res.middlewares@.len() == 0,
    {
        let args: Vec<String> = vec![owned("-y"), owned("firecrawl-mcp")];
        assert(views(args@) =~= seq!["-y"@, "firecrawl-mcp"@]);
        let env: Vec<(String, String)> = vec![(owned("FIRECRAWL_API_KEY"), api_key)];
        assert(pair_views(env@) =~= seq![("FIRECRAWL_API_KEY"@, api_key@)]);
        McpExecutor::new(owned(npx_command(windows)), args).with_env(env)
    }
}

} // verus!
