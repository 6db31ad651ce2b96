//! Tools served by a Model Context Protocol server over JSON-RPC: the server's
//! launch configuration, the messages sent to it and the reading of its
//! replies. Starting the process and moving lines to and from it is I/O.
use vstd::prelude::*;
use crate::json::{
    json_array_items, json_as_str, json_get, json_get_spec, json_items_spec, json_object, json_object_spec, json_parse,
    json_parse_spec, json_quote, json_quote_spec, json_str_spec,
};
use crate::text::{concat2, concat3, concat5, decimal, i64_to_decimal, owned, signed_decimal, u64_to_decimal};
use crate::tools::ToolSchema;
use crate::execution::graph::opt_view;

verus! {

/// The views of a list of strings.
pub open spec fn views(v: Seq<String>) -> Seq<Seq<char>> {
    v.map_values(|s: String| s@)
}

/// The views of a list of pairs of strings.
pub open spec fn pair_views(v: Seq<(String, String)>) -> Seq<(Seq<char>, Seq<char>)> {
    v.map_values(|p: (String, String)| (p.0@, p.1@))
}

/// How a Model Context Protocol server is launched. `env` holds the
/// variables set for it; `initialization_timeout` is in seconds and bounds
/// the wait for each reply.
#[derive(Debug, Clone)]
pub struct McpServer {
    pub name: String,
    pub command: String,
    pub args: Vec<String>,
    pub env: Vec<(String, String)>,
    pub cwd: Option<String>,
    pub initialization_timeout: u64,
}

impl McpServer {
    /// A server with no extra environment, no working directory and a timeout
    /// of sixty seconds.
    pub fn new(name: String, command: String, args: Vec<String>) -> (res: Self)
        ensures
            res.name@ == name@,
            res.command@ == command@,
            res.args@ == args@,
            res.env@.len() == 0,
            res.cwd is None,
            res.initialization_timeout == 60,
    {
        McpServer { name, command, args, env: Vec::new(), cwd: None, initialization_timeout: 60 }
    }

    /// The server with its environment replaced.
    pub fn with_env(self, env: Vec<(String, String)>) -> (res: Self)
        ensures
            res.env@ == env@,
            res.name@ == self.name@,
            res.command@ == self.command@,
            res.args@ == self.args@,
            res.cwd == self.cwd,
            res.initialization_timeout == self.initialization_timeout,
    {
        let mut s = self;
        s.env = env;
        s
    }

    /// The server with a working directory.
    pub fn with_cwd(self, cwd: String) -> (res: Self)
        ensures
            res.cwd == Some(cwd),
            res.name@ == self.name@,
            res.command@ == self.command@,
            res.args@ == self.args@,
            res.env@ == self.env@,
            res.initialization_timeout == self.initialization_timeout,
    {
        let mut s = self;
        s.cwd = Some(cwd);
        s
    }

    /// The server with another reply timeout, in seconds.
    pub fn with_timeout(self, timeout_secs: u64) -> (res: Self)
        ensures
            res.initialization_timeout == timeout_secs,
            res.name@ == self.name@,
            res.command@ == self.command@,
            res.args@ == self.args@,
            res.env@ == self.env@,
            res.cwd == self.cwd,
    {
        let mut s = self;
        s.initialization_timeout = timeout_secs;
        s
    }
}

/// The JSON-RPC request object (members in the order a JSON map keeps them).
pub open spec fn rpc_request_spec(id: i64, method: Seq<char>, params: Seq<char>) -> Seq<char> {
    json_object_spec(seq![
        ("jsonrpc"@, json_quote_spec("2.0"@)),
        ("id"@, signed_decimal(id as int)),
        ("method"@, json_quote_spec(method)),
        ("params"@, params),
    ])
}

/// The JSON-RPC notification object: a request without an identifier.
pub open spec fn rpc_notification_spec(method: Seq<char>, params: Seq<char>) -> Seq<char> {
    json_object_spec(seq![
        ("jsonrpc"@, json_quote_spec("2.0"@)),
        ("method"@, json_quote_spec(method)),
        ("params"@, params),
    ])
}

/// The line written to the server for a request; `params` is JSON text.
pub fn rpc_request_line(id: i64, method: &str, params: &str) -> (res: String)
    ensures
        res@ == rpc_request_spec(id, method@, params@) + "\n"@,
{
    let entries = vec![
        (owned("jsonrpc"), json_quote("2.0")),
        (owned("id"), i64_to_decimal(id)),
        (owned("method"), json_quote(method)),
        (owned("params"), owned(params)),
    ];
    proof {
        assert(pair_views(entries@) =~= seq![
            ("jsonrpc"@, json_quote_spec("2.0"@)),
            ("id"@, signed_decimal(id as int)),
            ("method"@, json_quote_spec(method@)),
            ("params"@, params@),
        ]);
    }
    let body = json_object(&entries);
    concat2(body.as_str(), "\n")
}

/// The line written to the server for a notification.
pub fn rpc_notification_line(method: &str, params: &str) -> (res: String)
    ensures
        res@ == rpc_notification_spec(method@, params@) + "\n"@,
{
    let entries = vec![
        (owned("jsonrpc"), json_quote("2.0")),
        (owned("method"), json_quote(method)),
        (owned("params"), owned(params)),
    ];
    proof {
        assert(pair_views(entries@) =~= seq![
            ("jsonrpc"@, json_quote_spec("2.0"@)),
            ("method"@, json_quote_spec(method@)),
            ("params"@, params@),
        ]);
    }
    let body = json_object(&entries);
    concat2(body.as_str(), "\n")
}

/// The parameters of the `initialize` request.
pub fn initialize_params() -> (res: String)
    ensures
        res@ == "{\"capabilities\":{\"sampling\":{}},\"clientInfo\":{\"name\":\"mentalist\",\"version\":\"0.3.5\"},\"protocolVersion\":\"2024-11-05\"}"@,
{
    owned("{\"capabilities\":{\"sampling\":{}},\"clientInfo\":{\"name\":\"mentalist\",\"version\":\"0.3.5\"},\"protocolVersion\":\"2024-11-05\"}")
}

/// The parameters of a `tools/call` request.
pub open spec fn call_params_spec(name: Seq<char>, arguments: Seq<char>) -> Seq<char> {
    json_object_spec(seq![("name"@, json_quote_spec(name)), ("arguments"@, arguments)])
}

/// The parameters of a `tools/call` request; `arguments` is JSON text.
pub fn call_params(name: &str, arguments: &str) -> (res: String)
    ensures
        res@ == call_params_spec(name@, arguments@),
{
    let entries = vec![(owned("name"), json_quote(name)), (owned("arguments"), owned(arguments))];
    proof {
        assert(pair_views(entries@) =~= seq![("name"@, json_quote_spec(name@)), ("arguments"@, arguments@)]);
    }
    json_object(&entries)
}

/// What a reply line means: the parse error, the server's error as
/// "MCP error: " and its JSON, or the result (`null` when there is none).
pub open spec fn rpc_reply_spec(line: Seq<char>) -> Result<Seq<char>, Seq<char>> {
    match json_parse_spec(line) {
        Err(e) => Err(e),
        Ok(v) => match json_get_spec(v, "error"@) {
            Some(err) => Err("MCP error: "@ + err),
            None => match json_get_spec(v, "result"@) {
                Some(r) => Ok(r),
                None => Ok("null"@),
            },
        },
    }
}

/// Reads a reply line of the server.
pub fn parse_rpc_reply(line: &str) -> (res: Result<String, String>)
    ensures
        match res {
            Ok(v) => rpc_reply_spec(line@) == Ok::<Seq<char>, Seq<char>>(v@),
            Err(e) => rpc_reply_spec(line@) == Err::<Seq<char>, Seq<char>>(e@),
        },
{
    let v = match json_parse(line) {
        Ok(v) => v,
        Err(e) => return Err(e),
    };
    match json_get(v.as_str(), "error") {
        Some(err) => Err(concat2("MCP error: ", err.as_str())),
        None => match json_get(v.as_str(), "result") {
            Some(r) => Ok(r),
            None => Ok(owned("null")),
        },
    }
}

/// The error when no reply came in time.
pub fn call_timeout_message(timeout_secs: u64, method: &str) -> (res: String)
    ensures
        res@ == "MCP raw_call timeout ("@ + decimal(timeout_secs as nat) + "s) for method: "@ + method@,
{
    let d = u64_to_decimal(timeout_secs);
    let head = concat3("MCP raw_call timeout (", d.as_str(), "s) for method: ");
    concat2(head.as_str(), method)
}

/// The error when a call is made before the process runs.
pub fn not_started_message() -> (res: String)
    ensures
        res@ == "MCP process not started"@,
{
    owned("MCP process not started")
}

/// A member of `v` as a string, or the empty string.
pub open spec fn str_member_or_empty(v: Seq<char>, key: Seq<char>) -> Seq<char> {
    match json_get_spec(v, key) {
        Some(x) => match json_str_spec(x) {
            Some(s) => s,
            None => Seq::empty(),
        },
        None => Seq::empty(),
    }
}

/// A member of `v` as a string, or the empty string.
pub fn str_member(v: &str, key: &str) -> (res: String)
    ensures
        res@ == str_member_or_empty(v@, key@),
{
    match json_get(v, key) {
        Some(x) => match json_as_str(x.as_str()) {
            Some(s) => s,
            None => String::new(),
        },
        None => String::new(),
    }
}

/// The tools listed in a `tools/list` result.
pub open spec fn listed_tools(result: Seq<char>) -> Seq<Seq<char>> {
    match json_get_spec(result, "tools"@) {
        Some(t) => match json_items_spec(t) {
            Some(items) => items,
            None => Seq::empty(),
        },
        None => Seq::empty(),
    }
}

/// A listed tool as (name, description, input schema): a missing name or
/// description is empty and a missing schema is `{"type":"object"}`.
pub open spec fn listed_tool(t: Seq<char>) -> (Seq<char>, Seq<char>, Seq<char>) {
    (
        str_member_or_empty(t, "name"@),
        str_member_or_empty(t, "description"@),
        match json_get_spec(t, "inputSchema"@) {
            Some(p) => p,
            None => "{\"type\":\"object\"}"@,
        },
    )
}

/// The items of the array under `key` in `v`, if it is one.
fn array_member(v: &str, key: &str) -> (res: Option<Vec<String>>)
    ensures
        match res {
            Some(items) => json_get_spec(v@, key@) matches Some(t) && json_items_spec(t) == Some(views(items@)),
            None => match json_get_spec(v@, key@) {
                Some(t) => json_items_spec(t) is None,
                None => true,
            },
        },
{
    match json_get(v, key) {
        Some(t) => {
            let items = json_array_items(t.as_str());
            items
        },
        None => None,
    }
}

/// The tools a server lists, from its `tools/list` result.
pub fn parse_tool_list(result: &str) -> (res: Vec<(String, String, String)>)
    ensures
        res@.len() == listed_tools(result@).len(),
        forall|i: int| 0 <= i < res@.len() ==> {
            let t = #[trigger] res@[i];
            (t.0@, t.1@, t.2@) == listed_tool(listed_tools(result@)[i])
        },
{
    let items = match array_member(result, "tools") {
        Some(items) => items,
        None => return Vec::new(),
    };
    let ghost iv = views(items@);
    let mut out: Vec<(String, String, String)> = Vec::new();
    let mut i: usize = 0;
    while i < items.len()
        invariant
            i <= items.len(),
            iv == views(items@),
            iv == listed_tools(result@),
            out@.len() == i,
            forall|j: int| 0 <= j < i ==> {
                let t = #[trigger] out@[j];
                (t.0@, t.1@, t.2@) == listed_tool(iv[j])
            },
        decreases items.len() - i,
    {
        let t = items[i].as_str();
        let name = str_member(t, "name");
        let desc = str_member(t, "description");
        let params = match json_get(t, "inputSchema") {
            Some(p) => p,
            None => owned("{\"type\":\"object\"}"),
        };
        assert(iv[i as int] == items@[i as int]@);
        out.push((name, desc, params));
        i = i + 1;
    }
    out
}

/// A tool served by a Model Context Protocol server, as registered: the
/// server that runs it is held by the caller.
#[derive(Debug, Clone)]
pub struct McpTool {
    pub source: String,
    pub name: String,
    pub description: String,
    pub parameters: String,
}

impl McpTool {
    /// The tool's schema.
    pub fn schema(&self) -> (res: ToolSchema)
        ensures
            res.name@ == self.name@,
            res.description@ == self.description@,
            res.parameters@ == self.parameters@,
            res.source@ == self.source@,
    {
        ToolSchema {
            name: self.name.clone(),
            description: self.description.clone(),
            parameters: self.parameters.clone(),
            source: self.source.clone(),
        }
    }

    /// The tool's source.
    pub fn source(&self) -> (res: String)
        ensures
            res@ == self.source@,
    {
        self.source.clone()
    }
}

/// Launchers for the servers that come with the runtime; they run through npx.
pub struct BuiltinMcp;

/// The npx command of the platform.
pub open spec fn npx_spec(windows: bool) -> Seq<char> {
    if windows { "npx.cmd"@ } else { "npx"@ }
}

/// The arguments that install into `prefix`, when one is given.
pub open spec fn prefix_args(prefix: Option<Seq<char>>) -> Seq<Seq<char>> {
    match prefix {
        Some(p) => seq!["--prefix"@, p],
        None => Seq::empty(),
    }
}

/// The npx command of the platform.
pub fn npx_command(windows: bool) -> (res: &'static str)
    ensures
        res@ == npx_spec(windows),
{
    if windows { "npx.cmd" } else { "npx" }
}

/// The npm command of the platform.
pub fn npm_command(windows: bool) -> (res: &'static str)
    ensures
        res@ == (if windows { "npm.cmd"@ } else { "npm"@ }),
{
    if windows { "npm.cmd" } else { "npm" }
}

/// `prefix_args` followed by the given arguments.
fn launch_args(prefix: Option<String>, rest: Vec<String>) -> (res: Vec<String>)
    ensures
        views(res@) == prefix_args(opt_view(prefix)) + views(rest@),
{
    let mut out: Vec<String> = Vec::new();
    match prefix {
        Some(p) => {
            out.push(owned("--prefix"));
            out.push(p);
        },
        None => {},
    }
    let ghost target = views(out@) + views(rest@);
    let ghost start_len = out@.len();
    let mut i: usize = 0;
    while i < rest.len()
        invariant
            i <= rest.len(),
            start_len <= 2,
            target == views(out@).subrange(0, start_len as int) + views(rest@),
            out@.len() == start_len + i,
            forall|j: int| 0 <= j < out@.len() ==> (#[trigger] out@[j])@ == target[j],
        decreases rest.len() - i,
    {
        let ghost prev = out@;
        out.push(rest[i].clone());
        proof {
            assert(views(out@).subrange(0, start_len as int) =~= views(prev).subrange(0, start_len as int));
        }
        i = i + 1;
    }
    assert(views(out@) =~= target);
    out
}

impl BuiltinMcp {
    /// The filesystem server over `paths`, run from `cwd`.
    pub fn filesystem(paths: Vec<String>, prefix: Option<String>, cwd: String, windows: bool) -> (res: McpServer)
        ensures
            res.name@ == "filesystem"@,
            res.command@ == npx_spec(windows),
            views(res.args@) == prefix_args(opt_view(prefix))
                + seq!["-y"@, "@modelcontextprotocol/server-filesystem"@] + views(paths@),
            res.env@.len() == 0,
            res.cwd == Some(cwd),
            res.initialization_timeout == 60,
    {
        let mut rest: Vec<String> = vec![owned("-y"), owned("@modelcontextprotocol/server-filesystem")];
        let ghost target = seq!["-y"@, "@modelcontextprotocol/server-filesystem"@] + views(paths@);
        let mut i: usize = 0;
        while i < paths.len()
            invariant
                i <= paths.len(),
                target == seq!["-y"@, "@modelcontextprotocol/server-filesystem"@] + views(paths@),
                rest@.len() == 2 + i,
                forall|j: int| 0 <= j < rest@.len() ==> (#[trigger] rest@[j])@ == target[j],
            decreases paths.len() - i,
        {
            rest.push(paths[i].clone());
            i = i + 1;
        }
        assert(views(rest@) =~= target);
        let ghost pv = opt_view(prefix);
        let args = launch_args(prefix, rest);
        assert(views(args@) =~= prefix_args(pv) + seq!["-y"@, "@modelcontextprotocol/server-filesystem"@] + views(paths@));
        McpServer::new(owned("filesystem"), owned(npx_command(windows)), args).with_cwd(cwd)
    }

    /// The DuckDuckGo search server, run from `cwd`.
    pub fn duckduckgo(prefix: Option<String>, cwd: String, windows: bool) -> (res: McpServer)
        ensures
            res.name@ == "duckduckgo"@,
            res.command@ == npx_spec(windows),
            views(res.args@) == prefix_args(opt_view(prefix))
                + seq!["-y"@, "duckduckgo-mcp-server"@],
            res.env@.len() == 0,
            res.cwd == Some(cwd),
            res.initialization_timeout == 60,
    {
        let rest: Vec<String> = vec![owned("-y"), owned("duckduckgo-mcp-server")];
        assert(views(rest@) =~= seq!["-y"@, "duckduckgo-mcp-server"@]);
        let args = launch_args(prefix, rest);
        McpServer::new(owned("duckduckgo"), owned(npx_command(windows)), args).with_cwd(cwd)
    }

    /// The Firecrawl server, given its API key, run from `cwd`.
    pub fn firecrawl(api_key: String, prefix: Option<String>, cwd: String, windows: bool) -> (res: McpServer)
        ensures
            res.name@ == "firecrawl"@,
            res.command@ == npx_spec(windows),
            views(res.args@) == prefix_args(opt_view(prefix))
                + seq!["-y"@, "firecrawl-mcp"@],
            pair_views(res.env@) == seq![("FIRECRAWL_API_KEY"@, api_key@)],
            res.cwd == Some(cwd),
            res.initialization_timeout == 60,
    {
        let rest: Vec<String> = vec![owned("-y"), owned("firecrawl-mcp")];
        assert(views(rest@) =~= seq!["-y"@, "firecrawl-mcp"@]);
        let args = launch_args(prefix, rest);
        let env: Vec<(String, String)> = vec![(owned("FIRECRAWL_API_KEY"), api_key)];
        assert(pair_views(env@) =~= seq![("FIRECRAWL_API_KEY"@, api_key@)]);
        McpServer::new(owned("firecrawl"), owned(npx_command(windows)), args).with_env(env).with_cwd(cwd)
    }

    /// The npm arguments that install `package` under `root`.
    pub fn install_args(root: &str, package: &str) -> (res: Vec<String>)
        ensures
            views(res@) == seq!["install"@, "--prefix"@, root@, "--no-package-lock"@, "--no-save"@, package@],
    {
        let res = vec![
            owned("install"),
            owned("--prefix"),
            owned(root),
            owned("--no-package-lock"),
            owned("--no-save"),
            owned(package),
        ];
        assert(views(res@) =~= seq!["install"@, "--prefix"@, root@, "--no-package-lock"@, "--no-save"@, package@]);
        res
    }

    /// The error when installing a package failed.
    pub fn install_failed_message(package: &str) -> (res: String)
        ensures
            res@ == "Failed to install MCP package: "@ + package@,
    {
        concat2("Failed to install MCP package: ", package)
    }
}

} // verus!
