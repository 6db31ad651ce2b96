//! Runtime, agent, executor and security configuration with their defaults.
use vstd::prelude::*;
use crate::text::{owned, str_eq};

verus! {

/// Limits of one agent run.
#[derive(Debug, Clone)]
pub struct RuntimeConfig {
    pub max_steps: usize,
    pub timeout_seconds: u64,
    pub session_id: String,
}

impl Default for RuntimeConfig {
    fn default() -> (res: Self)
        ensures
            res.max_steps == 10,
            res.timeout_seconds == 300,
            res.session_id@ == "default_session"@,
    {
        RuntimeConfig { max_steps: 10, timeout_seconds: 300, session_id: owned("default_session") }
    }
}

/// Limits of the reasoning loop of an agent.
#[derive(Debug, Clone, Copy)]
pub struct AgentConfig {
    pub max_turns: usize,
    pub timeout_seconds: u64,
    pub fail_on_limit: bool,
    pub max_retries: usize,
    pub max_context_items: usize,
    pub max_tool_calls_per_turn: usize,
}

impl Default for AgentConfig {
    fn default() -> (res: Self)
        ensures
            res.max_turns == 10,
            res.timeout_seconds == 300,
            !res.fail_on_limit,
            res.max_retries == 3,
            res.max_context_items == 50,
            res.max_tool_calls_per_turn == 20,
    {
        AgentConfig {
            max_turns: 10,
            timeout_seconds: 300,
            fail_on_limit: false,
            max_retries: 3,
            max_context_items: 50,
            max_tool_calls_per_turn: 20,
        }
    }
}

/// Where and how tools are executed; paths are kept as text.
#[derive(Debug, Clone)]
pub struct ExecutorConfig {
    pub default_mode: String,
    pub sandbox_root: String,
    pub vault_dir: Option<String>,
    pub docker_image: Option<String>,
    pub wasm_module_path: Option<String>,
    pub mcp_initialize_timeout_seconds: u64,
}

impl Default for ExecutorConfig {
    fn default() -> (res: Self)
        ensures
            res.default_mode@ == "local"@,
            res.sandbox_root@ == "./sandbox"@,
            res.vault_dir is None,
            (res.docker_image matches Some(i) && i@ == "python:3.11-slim"@),
            res.wasm_module_path is None,
            res.mcp_initialize_timeout_seconds == 60,
    {
        ExecutorConfig {
            default_mode: owned("local"),
            sandbox_root: owned("./sandbox"),
            vault_dir: None,
            docker_image: Some(owned("python:3.11-slim")),
            wasm_module_path: None,
            mcp_initialize_timeout_seconds: 60,
        }
    }
}

/// The commands allowed by default and the execution limits.
#[derive(Debug, Clone)]
pub struct SecurityConfig {
    pub allowed_commands: Vec<String>,
    pub max_execution_time_seconds: u64,
    pub max_memory_mb: u64,
    pub enforce_sandboxing: bool,
}

/// The commands that the default security configuration allows.
pub open spec fn default_allowed_commands() -> Seq<Seq<char>> {
    seq!["python"@, "node"@, "bash"@, "sh"@, "cat"@, "ls"@, "grep"@, "find"@, "echo"@, "curl"@, "wget"@]
}

impl Default for SecurityConfig {
    fn default() -> (res: Self)
        ensures
            res.allowed_commands@.map_values(|c: String| c@) == default_allowed_commands(),
            res.max_execution_time_seconds == 60,
            res.max_memory_mb == 512,
            res.enforce_sandboxing,
    {
        let mut cmds: Vec<String> = Vec::new();
        cmds.push(owned("python"));
        cmds.push(owned("node"));
        cmds.push(owned("bash"));
        cmds.push(owned("sh"));
        cmds.push(owned("cat"));
        cmds.push(owned("ls"));
        cmds.push(owned("grep"));
        cmds.push(owned("find"));
        cmds.push(owned("echo"));
        cmds.push(owned("curl"));
        cmds.push(owned("wget"));
        assert(cmds@.map_values(|c: String| c@) =~= default_allowed_commands());
        SecurityConfig {
            allowed_commands: cmds,
            max_execution_time_seconds: 60,
            max_memory_mb: 512,
            enforce_sandboxing: true,
        }
    }
}

/// The configuration of the whole framework.
#[derive(Debug, Clone)]
pub struct MentalistConfig {
    pub agent: AgentConfig,
    pub executor: ExecutorConfig,
    pub security: SecurityConfig,
}

/// The configuration that `MentalistConfig::default` produces.
pub open spec fn is_default_config(c: MentalistConfig) -> bool {
    &&& c.agent.max_turns == 10
    &&& c.agent.timeout_seconds == 300
    &&& !c.agent.fail_on_limit
    &&& c.agent.max_retries == 3
    &&& c.agent.max_context_items == 50
    &&& c.agent.max_tool_calls_per_turn == 20
    &&& c.executor.default_mode@ == "local"@
    &&& c.executor.sandbox_root@ == "./sandbox"@
    &&& c.executor.vault_dir is None
    &&& (c.executor.docker_image matches Some(i) && i@ == "python:3.11-slim"@)
    &&& c.executor.wasm_module_path is None
    &&& c.executor.mcp_initialize_timeout_seconds == 60
    &&& c.security.allowed_commands@.map_values(|x: String| x@) == default_allowed_commands()
    &&& c.security.max_execution_time_seconds == 60
    &&& c.security.max_memory_mb == 512
    &&& c.security.enforce_sandboxing
}

impl Default for MentalistConfig {
    fn default() -> (res: Self)
        ensures
            is_default_config(res),
    {
        MentalistConfig {
            agent: AgentConfig::default(),
            executor: ExecutorConfig::default(),
            security: SecurityConfig::default(),
        }
    }
}

/// The syntax of a configuration file.
#[derive(Debug, Clone, Copy, PartialEq, Eq, Structural)]
pub enum ConfigFormat {
    Yaml,
    Json,
}

/// The extension of a path (`Path::extension`).
pub uninterp spec fn path_extension_spec(path: Seq<char>) -> Option<Seq<char>>;

/// `std::path::Path::extension`.
#[verifier::external_body]
fn path_extension(path: &str) -> (res: Option<String>)
    ensures
        match res {
            Some(e) => path_extension_spec(path@) == Some(e@),
            None => path_extension_spec(path@) is None,
        },
{
    match std::path::Path::new(path).extension() {
        Some(e) => Some(e.to_string_lossy().to_string()),
        None => None,
    }
}

/// The format of a configuration file: YAML for the extensions `yaml` and
/// `yml`, JSON otherwise.
pub open spec fn config_format_spec(path: Seq<char>) -> ConfigFormat {
    match path_extension_spec(path) {
        Some(e) => if e == "yaml"@ || e == "yml"@ { ConfigFormat::Yaml } else { ConfigFormat::Json },
        None => ConfigFormat::Json,
    }
}

impl MentalistConfig {
    /// The configuration taken from the environment: the defaults.
    pub fn from_env() -> (res: Self)
        ensures
            is_default_config(res),
    {
        Self::default()
    }

    /// How a configuration file is to be parsed, judged by its extension.
    pub fn file_format(path: &str) -> (res: ConfigFormat)
        ensures
            res == config_format_spec(path@),
    {
        match path_extension(path) {
            Some(e) => {
                if str_eq(e.as_str(), "yaml") || str_eq(e.as_str(), "yml") {
                    ConfigFormat::Yaml
                } else {
                    ConfigFormat::Json
                }
            },
            None => ConfigFormat::Json,
        }
    }

    /// The message of the error for a configuration file that does not parse.
    pub fn parse_error(message: &str) -> (res: crate::error::MentalistError)
        ensures
            (res matches crate::error::MentalistError::ConfigError(m) && m@ == message@),
    {
        crate::error::MentalistError::ConfigError(owned(message))
    }
}

} // verus!
