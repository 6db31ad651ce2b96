//! Sandboxed tool execution: command validation, the execution modes, the
//! decisions around running a tool, and the registry of named executors.
use vstd::prelude::*;
use crate::context::ToolDefinition;
use crate::config::{ExecutorConfig, SecurityConfig};
use crate::json::{json_array_items, json_as_str, json_entries_spec, json_items_spec, json_object_entries, json_str_spec};
use crate::middleware::MiddlewareChain;
use crate::text::{
    chars_of, clone_strings, concat2, concat3, concat5, contains_exec, contains_string, decimal, has_char,
    lowercase_spec, occurs, occurs_at, owned, str_eq, string_from_chars, to_lowercase, u64_to_decimal,
};
use vstd::utf8::{decode_utf8, valid_utf8};

verus! {

/// Why a tool could not run.
#[derive(Debug, Clone)]
pub enum ToolError {
    Transient(String),
    NotFound(String),
    PermissionDenied(String),
    ExecutionFailed(String),
    ResourceLimitExceeded(String),
    ConfigError(String),
    SecurityViolation(String),
    SandboxError(String),
}

/// The displayed message of a tool error.
pub open spec fn tool_error_message(e: ToolError) -> Seq<char> {
    match e {
        ToolError::Transient(m) => "Transient failure (timeout/network): "@ + m@,
        ToolError::NotFound(m) => "Tool not found: "@ + m@,
        ToolError::PermissionDenied(m) => "Permission denied: "@ + m@,
        ToolError::ExecutionFailed(m) => "Execution failed: "@ + m@,
        ToolError::ResourceLimitExceeded(m) => "Resource limit exceeded: "@ + m@,
        ToolError::ConfigError(m) => "Configuration error in executor: "@ + m@,
        ToolError::SecurityViolation(m) => "Security violation: "@ + m@,
        ToolError::SandboxError(m) => "Containerization error: "@ + m@,
    }
}

impl ToolError {
    /// The displayed message.
    pub fn message(&self) -> (res: String)
        ensures
            res@ == tool_error_message(*self),
    {
        match self {
            ToolError::Transient(m) => concat2("Transient failure (timeout/network): ", m.as_str()),
            ToolError::NotFound(m) => concat2("Tool not found: ", m.as_str()),
            ToolError::PermissionDenied(m) => concat2("Permission denied: ", m.as_str()),
            ToolError::ExecutionFailed(m) => concat2("Execution failed: ", m.as_str()),
            ToolError::ResourceLimitExceeded(m) => concat2("Resource limit exceeded: ", m.as_str()),
            ToolError::ConfigError(m) => concat2("Configuration error in executor: ", m.as_str()),
            ToolError::SecurityViolation(m) => concat2("Security violation: ", m.as_str()),
            ToolError::SandboxError(m) => concat2("Containerization error: ", m.as_str()),
        }
    }
}

/// What `String::from_utf8_lossy` gives: the bytes decoded, each invalid
/// sequence replaced by U+FFFD.
pub uninterp spec fn utf8_lossy_spec(bytes: Seq<u8>) -> Seq<char>;

/// `std::str::from_utf8`: the decoded text when the bytes are valid UTF-8.
#[verifier::external_body]
fn utf8_decode(bytes: &[u8]) -> (res: Option<String>)
    ensures
        res is Some <==> valid_utf8(bytes@),
        res matches Some(s) ==> s@ == decode_utf8(bytes@),
{
    match std::str::from_utf8(bytes) {
        Ok(s) => Some(s.to_string()),
        Err(_) => None,
    }
}

/// `String::from_utf8_lossy`; valid UTF-8 is decoded as it is.
#[verifier::external_body]
pub(crate) fn utf8_lossy(bytes: &[u8]) -> (res: String)
    ensures
        res@ == utf8_lossy_spec(bytes@),
        valid_utf8(bytes@) ==> res@ == decode_utf8(bytes@),
{
    String::from_utf8_lossy(bytes).to_string()
}

/// The text of a tool's output bytes.
pub open spec fn output_text(bytes: Seq<u8>) -> Seq<char> {
    if valid_utf8(bytes) {
        decode_utf8(bytes)
    } else {
        "[NON-UTF8 OUTPUT]: "@ + utf8_lossy_spec(bytes)
    }
}

/// Decodes tool output: valid UTF-8 as it is, anything else lossily behind a
/// "[NON-UTF8 OUTPUT]: " marker.
pub fn bytes_to_string_safe(bytes: &[u8]) -> (res: String)
    ensures
        res@ == output_text(bytes@),
{
    match utf8_decode(bytes) {
        Some(s) => s,
        None => {
            let lossy = utf8_lossy(bytes);
            concat2("[NON-UTF8 OUTPUT]: ", lossy.as_str())
        },
    }
}

/// Whether `path` lies under `base`, comparing whole components.
pub uninterp spec fn path_starts_with_spec(path: Seq<char>, base: Seq<char>) -> bool;

/// `std::path::Path::starts_with`.
#[verifier::external_body]
pub(crate) fn path_starts_with(path: &str, base: &str) -> (res: bool)
    ensures
        res == path_starts_with_spec(path@, base@),
{
    std::path::Path::new(path).starts_with(std::path::Path::new(base))
}

/// How `Debug` prints a string or path: quoted and escaped.
pub uninterp spec fn debug_quote_spec(s: Seq<char>) -> Seq<char>;

/// `format!("{:?}", s)`.
#[verifier::external_body]
pub(crate) fn debug_quote(s: &str) -> (res: String)
    ensures
        res@ == debug_quote_spec(s@),
{
    format!("{:?}", s)
}

/// Characters that may not appear in a command argument.
pub open spec fn is_shell_meta(c: char) -> bool {
    ||| c == ';' ||| c == '&' ||| c == '|' ||| c == '`' ||| c == '$' ||| c == '('
    ||| c == ')' ||| c == '[' ||| c == ']' ||| c == '{' ||| c == '}' ||| c == '"'
    ||| c == '\'' ||| c == '\\'
}

/// The ways an argument can be refused.
#[derive(Debug, Clone, Copy, PartialEq, Eq, Structural)]
pub enum ArgFault {
    DangerousCharacters,
    PathTraversal,
    OutsideSandbox,
    HomeExpansion,
}

/// The first rule an argument breaks, checked in order.
pub open spec fn arg_fault(arg: Seq<char>, root: Seq<char>) -> Option<ArgFault> {
    if exists|i: int| 0 <= i < arg.len() && is_shell_meta(#[trigger] arg[i]) {
        Some(ArgFault::DangerousCharacters)
    } else if occurs(arg, ".."@) {
        Some(ArgFault::PathTraversal)
    } else if arg.len() > 0 && arg[0] == '/' && !path_starts_with_spec(arg, root) {
        Some(ArgFault::OutsideSandbox)
    } else if arg.len() > 0 && arg[0] == '~' {
        Some(ArgFault::HomeExpansion)
    } else {
        None
    }
}

/// The first argument, from position `i` on, that breaks a rule.
pub open spec fn first_fault(args: Seq<Seq<char>>, root: Seq<char>, i: int) -> Option<(int, ArgFault)>
    decreases args.len() - i,
{
    if i < 0 || i >= args.len() {
        None
    } else {
        match arg_fault(args[i], root) {
            Some(f) => Some((i, f)),
            None => first_fault(args, root, i + 1),
        }
    }
}

/// An argument the validator lets through: no shell metacharacter, no "..",
/// an absolute path only under the sandbox root, no home expansion.
pub open spec fn clean_argument(arg: Seq<char>, root: Seq<char>) -> bool {
    &&& forall|j: int| 0 <= j < arg.len() ==> !is_shell_meta(#[trigger] arg[j])
    &&& !occurs(arg, ".."@)
    &&& (arg.len() > 0 && arg[0] == '/' ==> path_starts_with_spec(arg, root))
    &&& !(arg.len() > 0 && arg[0] == '~')
}

proof fn lemma_first_fault_bounds(args: Seq<Seq<char>>, root: Seq<char>, i: int)
    requires
        0 <= i,
    ensures
        first_fault(args, root, i) matches Some((k, f)) ==> i <= k < args.len() && arg_fault(args[k], root) == Some(f),
    decreases args.len() - i,
{
    if i < args.len() && arg_fault(args[i], root) is None {
        lemma_first_fault_bounds(args, root, i + 1);
    }
}

proof fn lemma_no_fault_from(args: Seq<Seq<char>>, root: Seq<char>, i: int)
    requires
        0 <= i,
        first_fault(args, root, i) is None,
    ensures
        forall|k: int| i <= k < args.len() ==> clean_argument(#[trigger] args[k], root),
    decreases args.len() - i,
{
    if i < args.len() {
        lemma_no_fault_from(args, root, i + 1);
        assert(arg_fault(args[i], root) is None);
    }
}

/// Law: every argument of a command the validator accepts is clean: it holds
/// no shell metacharacter and no "..", names an absolute path only under the
/// sandbox root, and does not start with "~".
pub proof fn lemma_accepted_arguments_are_clean(args: Seq<Seq<char>>, root: Seq<char>)
    requires
        first_fault(args, root, 0) is None,
    ensures
        forall|k: int| 0 <= k < args.len() ==> clean_argument(#[trigger] args[k], root),
{
    lemma_no_fault_from(args, root, 0);
}

/// The characters the sandbox refuses in an argument: `;&|`$()[]{}"'\`.
pub open spec fn refused_char(c: char) -> bool {
    c == ';' || c == '&' || c == '|' || c == '`' || c == '$' || c == '(' || c == ')' || c == '['
        || c == ']' || c == '{' || c == '}' || c == '"' || c == '\'' || c == '\\'
}

/// `arg` holds two dots in a row.
pub open spec fn has_double_dot(arg: Seq<char>) -> bool {
    exists|j: int| 0 <= j && j + 1 < arg.len() && arg[j] == '.' && #[trigger] arg[j + 1] == '.'
}

proof fn lemma_double_dot_occurs(arg: Seq<char>)
    ensures
        has_double_dot(arg) <==> occurs(arg, ".."@),
{
    reveal_strlit("..");
    if has_double_dot(arg) {
        let j = choose|j: int| 0 <= j && j + 1 < arg.len() && arg[j] == '.' && #[trigger] arg[j + 1] == '.';
        assert(arg.subrange(j, j + 2) =~= ".."@);
        assert(occurs_at(arg, ".."@, j));
    }
    if occurs(arg, ".."@) {
        let j = choose|j: int| occurs_at(arg, ".."@, j);
        assert(arg.subrange(j, j + 2)[0] == arg[j]);
        assert(arg.subrange(j, j + 2)[1] == arg[j + 1]);
    }
}

/// Law: what the sandbox makes of one argument. An argument holding one of
/// `;&|`$()[]{}"'\` is refused for dangerous characters; otherwise one
/// holding ".." for path traversal; otherwise an absolute path that does not
/// lie under the root is refused as outside the sandbox; otherwise one
/// starting with '~' for home expansion; any other argument (spaces, '=',
/// '-', relative paths, paths under the root) is accepted.
pub proof fn lemma_argument_rules(arg: Seq<char>, root: Seq<char>)
    ensures
        (exists|j: int| 0 <= j < arg.len() && refused_char(#[trigger] arg[j]))
            ==> arg_fault(arg, root) == Some(ArgFault::DangerousCharacters),
        (forall|j: int| 0 <= j < arg.len() ==> !refused_char(#[trigger] arg[j])) ==> {
            &&& has_double_dot(arg) ==> arg_fault(arg, root) == Some(ArgFault::PathTraversal)
            &&& !has_double_dot(arg) && arg.len() > 0 && arg[0] == '/' && !path_starts_with_spec(arg, root)
                ==> arg_fault(arg, root) == Some(ArgFault::OutsideSandbox)
            &&& !has_double_dot(arg) && arg.len() > 0 && arg[0] == '~'
                ==> arg_fault(arg, root) == Some(ArgFault::HomeExpansion)
            &&& !has_double_dot(arg) && (arg.len() > 0 && arg[0] == '/' ==> path_starts_with_spec(arg, root))
                && !(arg.len() > 0 && arg[0] == '~') ==> arg_fault(arg, root) is None
        },
{
    lemma_double_dot_occurs(arg);
    if exists|j: int| 0 <= j < arg.len() && refused_char(#[trigger] arg[j]) {
        let j = choose|j: int| 0 <= j < arg.len() && refused_char(#[trigger] arg[j]);
        assert(is_shell_meta(arg[j]));
    }
    if forall|j: int| 0 <= j < arg.len() ==> !refused_char(#[trigger] arg[j]) {
        assert forall|j: int| 0 <= j < arg.len() implies !is_shell_meta(#[trigger] arg[j]) by {
            assert(!refused_char(arg[j]));
        }
    }
}

/// Law (completeness of validation): when every argument is free of
/// `;&|`$()[]{}"'\`, holds no "..", is an absolute path only under the root
/// and does not start with '~', no argument is refused, so an allowed
/// command is accepted.
pub proof fn lemma_clean_arguments_accepted(args: Seq<Seq<char>>, root: Seq<char>)
    requires
        forall|k: int, j: int| 0 <= k < args.len() && 0 <= j < args[k].len() ==> !refused_char(#[trigger] args[k][j]),
        forall|k: int| 0 <= k < args.len() ==> !has_double_dot(#[trigger] args[k]),
        forall|k: int| 0 <= k < args.len() && args[k].len() > 0 && #[trigger] args[k][0] == '/'
            ==> path_starts_with_spec(args[k], root),
        forall|k: int| 0 <= k < args.len() && args[k].len() > 0 ==> #[trigger] args[k][0] != '~',
    ensures
        first_fault(args, root, 0) is None,
{
    lemma_clean_from(args, root, 0);
}

proof fn lemma_clean_from(args: Seq<Seq<char>>, root: Seq<char>, i: int)
    requires
        0 <= i,
        forall|k: int, j: int| 0 <= k < args.len() && 0 <= j < args[k].len() ==> !refused_char(#[trigger] args[k][j]),
        forall|k: int| 0 <= k < args.len() ==> !has_double_dot(#[trigger] args[k]),
        forall|k: int| 0 <= k < args.len() && args[k].len() > 0 && #[trigger] args[k][0] == '/'
            ==> path_starts_with_spec(args[k], root),
        forall|k: int| 0 <= k < args.len() && args[k].len() > 0 ==> #[trigger] args[k][0] != '~',
    ensures
        first_fault(args, root, i) is None,
    decreases args.len() - i,
{
    if i < args.len() {
        let a = args[i];
        assert(forall|j: int| 0 <= j < a.len() ==> !refused_char(#[trigger] a[j])) by {
            assert forall|j: int| 0 <= j < a.len() implies !refused_char(#[trigger] a[j]) by {
                assert(!refused_char(args[i][j]));
            }
        }
        assert(!has_double_dot(args[i]));
        if a.len() > 0 {
            assert(args[i][0] != '~');
            if a[0] == '/' {
                assert(path_starts_with_spec(args[i], root));
            }
        }
        lemma_argument_rules(a, root);
        lemma_clean_from(args, root, i + 1);
    }
}

/// Why a command was refused.
#[derive(Debug, Clone)]
pub enum CommandRejection {
    NotWhitelisted { command: String },
    DangerousCharacters { arg: String },
    PathTraversal { arg: String },
    OutsideSandbox { arg: String, root: String },
    HomeExpansion { arg: String },
}

/// The displayed message of a refusal.
pub open spec fn rejection_message(r: CommandRejection) -> Seq<char> {
    match r {
        CommandRejection::NotWhitelisted { command } =>
            "Command '"@ + command@ + "' is not in the whitelist of allowed tools"@,
        CommandRejection::DangerousCharacters { arg } =>
            "Security violation: Dangerous characters in argument: "@ + arg@,
        CommandRejection::PathTraversal { arg } => "Security violation: Path traversal attempt: "@ + arg@,
        CommandRejection::OutsideSandbox { arg, root } =>
            "Access Denied: Absolute path '"@ + arg@ + "' is outside the sandbox root '"@
                + debug_quote_spec(root@) + "'"@,
        CommandRejection::HomeExpansion { arg } =>
            "Access Denied: Home directory expansion (~) is not allowed in sandbox: "@ + arg@,
    }
}

impl CommandRejection {
    /// The refused argument and the rule it broke, for argument refusals.
    pub open spec fn fault(self) -> Option<(Seq<char>, ArgFault)> {
        match self {
            CommandRejection::NotWhitelisted { .. } => None,
            CommandRejection::DangerousCharacters { arg } => Some((arg@, ArgFault::DangerousCharacters)),
            CommandRejection::PathTraversal { arg } => Some((arg@, ArgFault::PathTraversal)),
            CommandRejection::OutsideSandbox { arg, .. } => Some((arg@, ArgFault::OutsideSandbox)),
            CommandRejection::HomeExpansion { arg } => Some((arg@, ArgFault::HomeExpansion)),
        }
    }

    /// The displayed message.
    pub fn message(&self) -> (res: String)
        ensures
            res@ == rejection_message(*self),
    {
        match self {
            CommandRejection::NotWhitelisted { command } =>
                concat3("Command '", command.as_str(), "' is not in the whitelist of allowed tools"),
            CommandRejection::DangerousCharacters { arg } =>
                concat2("Security violation: Dangerous characters in argument: ", arg.as_str()),
            CommandRejection::PathTraversal { arg } =>
                concat2("Security violation: Path traversal attempt: ", arg.as_str()),
            CommandRejection::OutsideSandbox { arg, root } => {
                let q = debug_quote(root.as_str());
                concat5("Access Denied: Absolute path '", arg.as_str(), "' is outside the sandbox root '", q.as_str(), "'")
            },
            CommandRejection::HomeExpansion { arg } =>
                concat2("Access Denied: Home directory expansion (~) is not allowed in sandbox: ", arg.as_str()),
        }
    }

    /// The refusals that are security violations of the sandbox.
    pub fn to_tool_error(&self) -> (res: Option<ToolError>)
        ensures
            match *self {
                CommandRejection::DangerousCharacters { arg } =>
                    (res matches Some(ToolError::SecurityViolation(m)) && m@ == "Dangerous characters in argument: "@ + arg@),
                CommandRejection::PathTraversal { arg } =>
                    (res matches Some(ToolError::SecurityViolation(m)) && m@ == "Path traversal attempt: "@ + arg@),
                _ => res is None,
            },
    {
        match self {
            CommandRejection::DangerousCharacters { arg } =>
                Some(ToolError::SecurityViolation(concat2("Dangerous characters in argument: ", arg.as_str()))),
            CommandRejection::PathTraversal { arg } =>
                Some(ToolError::SecurityViolation(concat2("Path traversal attempt: ", arg.as_str()))),
            _ => None,
        }
    }
}

/// The commands the validator allows by default.
pub open spec fn default_validator_commands() -> Seq<Seq<char>> {
    seq![
        "python"@, "node"@, "ruby"@, "bash"@, "sh"@, "cat"@, "ls"@, "grep"@, "jq"@, "curl"@,
        "wget"@, "tar"@, "zip"@, "find"@, "echo"@,
    ]
}

/// Blocks commands that are not allowed and arguments that could escape the
/// sandbox. `max_execution_time` is in seconds.
#[derive(Debug, Clone)]
pub struct CommandValidator {
    pub allowed_cmds: Vec<String>,
    pub max_execution_time: u64,
    pub max_memory_mb: u64,
}

impl CommandValidator {
    /// The allowed commands.
    pub open spec fn allowed(&self) -> Seq<Seq<char>> {
        self.allowed_cmds@.map_values(|c: String| c@)
    }

    pub fn new_default() -> (res: Self)
        ensures
            res.allowed() == default_validator_commands(),
            res.max_execution_time == 60,
            res.max_memory_mb == 512,
    {
        let mut cmds: Vec<String> = Vec::new();
        cmds.push(owned("python"));
        cmds.push(owned("node"));
        cmds.push(owned("ruby"));
        cmds.push(owned("bash"));
        cmds.push(owned("sh"));
        cmds.push(owned("cat"));
        cmds.push(owned("ls"));
        cmds.push(owned("grep"));
        cmds.push(owned("jq"));
        cmds.push(owned("curl"));
        cmds.push(owned("wget"));
        cmds.push(owned("tar"));
        cmds.push(owned("zip"));
        cmds.push(owned("find"));
        cmds.push(owned("echo"));
        assert(cmds@.map_values(|c: String| c@) =~= default_validator_commands());
        CommandValidator { allowed_cmds: cmds, max_execution_time: 60, max_memory_mb: 512 }
    }

    pub fn from_config(config: &SecurityConfig) -> (res: Self)
        ensures
            res.allowed() == config.allowed_commands@.map_values(|c: String| c@),
            res.max_execution_time == config.max_execution_time_seconds,
            res.max_memory_mb == config.max_memory_mb,
    {
        let cmds = clone_strings(&config.allowed_commands);
        assert(cmds@.map_values(|c: String| c@) =~= config.allowed_commands@.map_values(|c: String| c@));
        CommandValidator {
            allowed_cmds: cmds,
            max_execution_time: config.max_execution_time_seconds,
            max_memory_mb: config.max_memory_mb,
        }
    }

    fn arg_check(arg: &str, root_dir: &str) -> (res: Option<ArgFault>)
        ensures
            res == arg_fault(arg@, root_dir@),
    {
        let a = chars_of(arg);
        let mut i: usize = 0;
        while i < a.len()
            invariant
                i <= a.len(),
                a@ == arg@,
                forall|j: int| 0 <= j < i ==> !is_shell_meta(#[trigger] a@[j]),
            decreases a.len() - i,
        {
            let c = a[i];
            if c == ';' || c == '&' || c == '|' || c == '`' || c == '$' || c == '(' || c == ')'
                || c == '[' || c == ']' || c == '{' || c == '}' || c == '"' || c == '\'' || c == '\\' {
                assert(is_shell_meta(a@[i as int]));
                return Some(ArgFault::DangerousCharacters);
            }
            i = i + 1;
        }
        let dots = chars_of("..");
        if contains_exec(a.as_slice(), dots.as_slice()) {
            return Some(ArgFault::PathTraversal);
        }
        if a.len() > 0 && a[0] == '/' && !path_starts_with(arg, root_dir) {
            return Some(ArgFault::OutsideSandbox);
        }
        if a.len() > 0 && a[0] == '~' {
            return Some(ArgFault::HomeExpansion);
        }
        None
    }

    /// Refuses a command that is not allowed, then the first argument that
    /// holds a shell metacharacter, holds "..", is an absolute path outside
    /// `root_dir`, or starts with "~".
    pub fn validate(&self, cmd: &str, args: &Vec<String>, root_dir: &str) -> (res: Result<(), CommandRejection>)
        ensures
            !self.allowed().contains(cmd@) ==> (res matches Err(CommandRejection::NotWhitelisted { command })
                && command@ == cmd@),
            self.allowed().contains(cmd@) ==> match first_fault(args@.map_values(|a: String| a@), root_dir@, 0) {
                None => res is Ok,
                Some((i, f)) => (res matches Err(r) && r.fault() == Some((args@[i]@, f))),
            },
            res matches Err(CommandRejection::OutsideSandbox { root, .. }) ==> root@ == root_dir@,
    {
        let ghost av = args@.map_values(|a: String| a@);
        let allowed = contains_string(&self.allowed_cmds, cmd);
        proof {
            if allowed {
                let i = choose|i: int| 0 <= i < self.allowed_cmds@.len() && self.allowed_cmds@[i]@ == cmd@;
                assert(self.allowed()[i] == cmd@);
            } else {
                assert forall|i: int| 0 <= i < self.allowed().len() implies self.allowed()[i] != cmd@ by {
                    assert(self.allowed()[i] == self.allowed_cmds@[i]@);
                }
            }
        }
        if !allowed {
            return Err(CommandRejection::NotWhitelisted { command: owned(cmd) });
        }
        let mut i: usize = 0;
        while i < args.len()
            invariant
                i <= args.len(),
                av == args@.map_values(|a: String| a@),
                self.allowed().contains(cmd@),
                first_fault(av, root_dir@, 0) == first_fault(av, root_dir@, i as int),
            decreases args.len() - i,
        {
            let arg = &args[i];
            assert(av[i as int] == arg@);
            match Self::arg_check(arg.as_str(), root_dir) {
                Some(f) => {
                    let a = arg.clone();
                    let r = match f {
                        ArgFault::DangerousCharacters => CommandRejection::DangerousCharacters { arg: a },
                        ArgFault::PathTraversal => CommandRejection::PathTraversal { arg: a },
                        ArgFault::OutsideSandbox => CommandRejection::OutsideSandbox { arg: a, root: owned(root_dir) },
                        ArgFault::HomeExpansion => CommandRejection::HomeExpansion { arg: a },
                    };
                    return Err(r);
                },
                None => {},
            }
            i = i + 1;
        }
        Ok(())
    }
}


/// How tools are run.
#[derive(Debug, Clone)]
pub enum ExecutionMode {
    /// As local processes; for trusted environments only.
    Local,
    /// Inside a Docker container; `memory_limit` in bytes, `cpu_quota` in
    /// thousandths of a percent of a core.
    Docker { image: String, memory_limit: Option<i64>, cpu_quota: Option<i64> },
    /// As WebAssembly modules; `env_vars` are the only environment they see.
    Wasm { module: Option<String>, mount_root: bool, env_vars: Vec<(String, String)> },
}

/// What the file system says about the paths an executor is given.
#[derive(Debug, Clone, Copy)]
pub struct SandboxPaths {
    pub root_exists: bool,
    pub root_is_dir: bool,
    pub vault_exists: bool,
    pub wasm_module_exists: bool,
}

/// Why an executor could not be set up, if it could not.
pub open spec fn setup_error(
    mode: ExecutionMode,
    root: Seq<char>,
    vault: Option<Seq<char>>,
    paths: SandboxPaths,
) -> Option<Seq<char>> {
    if !paths.root_exists {
        Some("Root directory does not exist: "@ + debug_quote_spec(root))
    } else if !paths.root_is_dir {
        Some("Root path is not a directory: "@ + debug_quote_spec(root))
    } else if vault is Some && !paths.vault_exists {
        Some("Vault directory does not exist: "@ + debug_quote_spec(vault->0))
    } else {
        match mode {
            ExecutionMode::Wasm { module: Some(p), .. } => if !paths.wasm_module_exists {
                Some("Wasm module not found: "@ + debug_quote_spec(p@))
            } else {
                None
            },
            _ => None,
        }
    }
}

/// The text a JSON member becomes as a command argument when the arguments
/// are an object: strings unquoted, `null` empty, anything else as JSON.
pub open spec fn object_arg_text(v: Seq<char>) -> Seq<char> {
    match json_str_spec(v) {
        Some(s) => s,
        None => if v == "null"@ { Seq::empty() } else { v },
    }
}

/// The text a JSON element becomes as a command argument when the arguments
/// are an array: strings unquoted, anything else as JSON.
pub open spec fn array_arg_text(v: Seq<char>) -> Seq<char> {
    match json_str_spec(v) {
        Some(s) => s,
        None => v,
    }
}

/// The command arguments taken from a tool call's JSON arguments: the values
/// of an object in map order, the elements of an array, or none.
pub open spec fn command_args(arguments: Seq<char>) -> Seq<Seq<char>> {
    match json_entries_spec(arguments) {
        Some(es) => es.map_values(|e: (Seq<char>, Seq<char>)| object_arg_text(e.1)),
        None => match json_items_spec(arguments) {
            Some(items) => items.map_values(|v: Seq<char>| array_arg_text(v)),
            None => Seq::empty(),
        },
    }
}

/// The commands tried in turn for `cmd`, for portability.
pub open spec fn fallback_commands_spec(cmd: Seq<char>) -> Seq<Seq<char>> {
    if cmd == "python"@ {
        seq![cmd, "python3"@]
    } else if cmd == "python3"@ {
        seq![cmd, "python"@]
    } else if cmd == "pip"@ {
        seq![cmd, "pip3"@]
    } else if cmd == "pip3"@ {
        seq![cmd, "pip"@]
    } else if cmd == "node"@ {
        seq![cmd, "nodejs"@]
    } else {
        seq![cmd]
    }
}

/// The description given to a command offered as a tool.
pub open spec fn command_description(cmd: Seq<char>) -> Seq<char> {
    if cmd == "ls"@ { "List directory contents."@ }
    else if cmd == "cat"@ { "Read and display file content."@ }
    else if cmd == "grep"@ { "Search for patterns in files."@ }
    else if cmd == "find"@ { "Search for files in a directory hierarchy."@ }
    else if cmd == "python"@ || cmd == "python3"@ { "Execute a Python script or command."@ }
    else if cmd == "node"@ { "Execute a Node.js script or command."@ }
    else if cmd == "bash"@ || cmd == "sh"@ { "Execute a shell script or command."@ }
    else if cmd == "curl"@ || cmd == "wget"@ { "Transfer data from or to a server."@ }
    else if cmd == "tar"@ || cmd == "zip"@ { "Archive or compress files."@ }
    else if cmd == "jq"@ { "Process and filter JSON data."@ }
    else if cmd == "echo"@ { "Display a line of text."@ }
    else { "Execute a system command."@ }
}

/// The parameter schema of every command tool.
pub open spec fn command_parameters() -> Seq<char> {
    "{\"properties\":{\"args\":{\"description\":\"Arguments to pass to the command.\",\"items\":{\"type\":\"string\"},\"type\":\"array\"}},\"required\":[\"args\"],\"type\":\"object\"}"@
}

/// The limit on the bytes a vault commit may copy (100 MB).
pub const MAX_VAULT_SIZE: u64 = 104857600;

/// The default memory limit of a container (4 GB).
pub const DEFAULT_DOCKER_MEMORY: i64 = 4294967296;

/// The default CPU quota of a container (50%).
pub const DEFAULT_DOCKER_CPU_QUOTA: i64 = 50000;

/// The fuel a WebAssembly tool may burn before it is stopped.
pub const WASM_FUEL: u64 = 50000000;

/// The largest stack of a WebAssembly tool, in bytes (1 MiB).
pub const WASM_MAX_STACK: u64 = 1048576;

/// The largest linear memory of a WebAssembly tool, in bytes (4 GiB).
pub const WASM_MAX_MEMORY: u64 = 4294967296;

/// The capacity of the pipe that collects a WebAssembly tool's output, in
/// bytes (16 MiB).
pub const WASM_OUTPUT_CAPACITY: u64 = 16777216;

/// A tool executor that validates every command before running it in its mode.
pub struct SandboxedExecutor<M> {
    pub mode: ExecutionMode,
    pub root_dir: String,
    pub vault_dir: Option<String>,
    pub validator: CommandValidator,
    pub middlewares: MiddlewareChain<M>,
}

impl<M> SandboxedExecutor<M> {
    /// Creates an executor after checking its paths; the validator allows the
    /// default commands and there are no middlewares.
    pub fn new(mode: ExecutionMode, root_dir: String, vault_dir: Option<String>, paths: SandboxPaths) -> (res: Result<Self, String>)
        ensures
            match setup_error(mode, root_dir@, crate::execution::graph::opt_view(vault_dir), paths) {
                Some(m) => (res matches Err(e) && e@ == m),
                None => (res matches Ok(x) && x.mode == mode && x.root_dir@ == root_dir@
                    && crate::execution::graph::opt_view(x.vault_dir) == crate::execution::graph::opt_view(vault_dir)
                    && x.validator.allowed() == default_validator_commands()
                    && x.validator.max_execution_time == 60 && x.validator.max_memory_mb == 512
                    && x.middlewares@.len() == 0),
            },
    {
        if !paths.root_exists {
            let q = debug_quote(root_dir.as_str());
            return Err(concat2("Root directory does not exist: ", q.as_str()));
        }
        if !paths.root_is_dir {
            let q = debug_quote(root_dir.as_str());
            return Err(concat2("Root path is not a directory: ", q.as_str()));
        }
        match &vault_dir {
            Some(v) => {
                if !paths.vault_exists {
                    let q = debug_quote(v.as_str());
                    return Err(concat2("Vault directory does not exist: ", q.as_str()));
                }
            },
            None => {},
        }
        match &mode {
            ExecutionMode::Wasm { module: Some(p), .. } => {
                if !paths.wasm_module_exists {
                    let q = debug_quote(p.as_str());
                    return Err(concat2("Wasm module not found: ", q.as_str()));
                }
            },
            _ => {},
        }
        Ok(SandboxedExecutor {
            mode,
            root_dir,
            vault_dir,
            validator: CommandValidator::new_default(),
            middlewares: MiddlewareChain::new(),
        })
    }

    /// Adds a middleware at its place in priority order.
    pub fn add_middleware(&mut self, priority: i32, middleware: M)
        ensures
            final(self).middlewares@ == old(self).middlewares@.insert(
                crate::middleware::first_above(old(self).middlewares@, priority, 0),
                (priority, middleware),
            ),
            final(self).mode == old(self).mode,
            final(self).root_dir@ == old(self).root_dir@,
    {
        self.middlewares.add(priority, middleware);
    }

    /// The executor with a middleware added.
    pub fn with_middleware(self, priority: i32, middleware: M) -> (res: Self)
        ensures
            res.middlewares@ == self.middlewares@.insert(
                crate::middleware::first_above(self.middlewares@, priority, 0),
                (priority, middleware),
            ),
            res.mode == self.mode,
            res.root_dir@ == self.root_dir@,
    {
        let mut s = self;
        s.add_middleware(priority, middleware);
        s
    }

    /// The directory tools run in: the vault when there is one.
    pub fn working_dir(&self) -> (res: &String)
        ensures
            res@ == match self.vault_dir {
                Some(v) => v@,
                None => self.root_dir@,
            },
    {
        match &self.vault_dir {
            Some(v) => v,
            None => &self.root_dir,
        }
    }

    /// The commands offered as tools, one per allowed command.
    pub fn list_tools(&self) -> (res: Vec<ToolDefinition>)
        ensures
            res@.len() == self.validator.allowed_cmds@.len(),
            forall|i: int| 0 <= i < res@.len() ==> {
                &&& (#[trigger] res@[i]).name@ == self.validator.allowed_cmds@[i]@
                &&& res@[i].description@ == command_description(self.validator.allowed_cmds@[i]@)
                &&& res@[i].parameters@ == command_parameters()
            },
    {
        let mut out: Vec<ToolDefinition> = Vec::new();
        let mut i: usize = 0;
        while i < self.validator.allowed_cmds.len()
            invariant
                i <= self.validator.allowed_cmds.len(),
                out@.len() == i,
                forall|j: int| 0 <= j < i ==> {
                    &&& (#[trigger] out@[j]).name@ == self.validator.allowed_cmds@[j]@
                    &&& out@[j].description@ == command_description(self.validator.allowed_cmds@[j]@)
                    &&& out@[j].parameters@ == command_parameters()
                },
            decreases self.validator.allowed_cmds.len() - i,
        {
            let cmd = &self.validator.allowed_cmds[i];
            out.push(ToolDefinition {
                name: cmd.clone(),
                description: owned(command_description_exec(cmd.as_str())),
                parameters: owned("{\"properties\":{\"args\":{\"description\":\"Arguments to pass to the command.\",\"items\":{\"type\":\"string\"},\"type\":\"array\"}},\"required\":[\"args\"],\"type\":\"object\"}"),
            });
            i = i + 1;
        }
        out
    }
}

/// What running an accepted call takes, by mode: the commands to try in
/// turn, or the container or module to run, with the arguments and the
/// directory the call runs in.
#[derive(Debug)]
pub enum PreparedRun {
    Local { commands: Vec<String>, args: Vec<String>, working_dir: String },
    Docker {
        image: String,
        command: Vec<String>,
        working_dir: String,
        requested_memory: Option<i64>,
        memory_limit: i64,
        cpu_quota: i64,
    },
    Wasm { module: Option<String>, mount_root: bool, args: Vec<String>, working_dir: String, env_vars: Vec<(String, String)> },
}

/// The views of a list of strings.
pub open spec fn string_views(v: Seq<String>) -> Seq<Seq<char>> {
    v.map_values(|s: String| s@)
}

/// The run prepared for command `name` with arguments `args`, in `mode`,
/// from directory `wd`.
pub open spec fn prepared_run_matches(run: PreparedRun, mode: ExecutionMode, name: Seq<char>, args: Seq<Seq<char>>, wd: Seq<char>) -> bool {
    match (run, mode) {
        (PreparedRun::Local { commands, args: a, working_dir }, ExecutionMode::Local) => {
            &&& string_views(commands@) == fallback_commands_spec(name)
            &&& string_views(a@) == args
            &&& working_dir@ == wd
        },
        (
            PreparedRun::Docker { image, command, working_dir, requested_memory, memory_limit, cpu_quota },
            ExecutionMode::Docker { image: i, memory_limit: m, cpu_quota: q },
        ) => {
            &&& image@ == i@
            &&& string_views(command@) == seq![name] + args
            &&& working_dir@ == wd
            &&& requested_memory == m
            &&& memory_limit == match m { Some(x) => x, None => DEFAULT_DOCKER_MEMORY }
            &&& cpu_quota == match q { Some(x) => x, None => DEFAULT_DOCKER_CPU_QUOTA }
        },
        (
            PreparedRun::Wasm { module, mount_root, args: a, working_dir, env_vars },
            ExecutionMode::Wasm { module: mo, mount_root: mr, env_vars: ev },
        ) => {
            &&& crate::execution::graph::opt_view(module) == crate::execution::graph::opt_view(mo)
            &&& mount_root == mr
            &&& string_views(a@) == seq!["tool_runtime"@, name] + args
            &&& working_dir@ == wd
            &&& env_vars@ == ev@
        },
        _ => false,
    }
}

fn clone_pairs(v: &Vec<(String, String)>) -> (res: Vec<(String, String)>)
    ensures
        res@ == v@,
{
    let mut out: Vec<(String, String)> = Vec::new();
    let mut i: usize = 0;
    while i < v.len()
        invariant
            i <= v.len(),
            out@ == v@.subrange(0, i as int),
        decreases v.len() - i,
    {
        let a = v[i].0.clone();
        let b = v[i].1.clone();
        out.push((a, b));
        proof {
            assert(out@ =~= v@.subrange(0, i as int + 1));
        }
        i = i + 1;
    }
    assert(v@.subrange(0, v@.len() as int) =~= v@);
    out
}

impl<M> SandboxedExecutor<M> {
    /// Validates a call of command `name` with JSON `arguments` and prepares
    /// its run in the executor's mode, from its working directory.
    pub fn prepare(&self, name: &str, arguments: &str) -> (res: Result<PreparedRun, CommandRejection>)
        ensures
            !self.validator.allowed().contains(name@) ==> (res matches Err(CommandRejection::NotWhitelisted { command })
                && command@ == name@),
            self.validator.allowed().contains(name@) ==> match first_fault(command_args(arguments@), self.root_dir@, 0) {
                Some((i, f)) => (res matches Err(r) && r.fault() == Some((command_args(arguments@)[i], f))),
                None => (res matches Ok(run) && prepared_run_matches(
                    run,
                    self.mode,
                    name@,
                    command_args(arguments@),
                    match self.vault_dir { Some(v) => v@, None => self.root_dir@ },
                )),
            },
            res matches Err(CommandRejection::OutsideSandbox { root, .. }) ==> root@ == self.root_dir@,
    {
        let args = args_to_vec(arguments);
        match self.validator.validate(name, &args, self.root_dir.as_str()) {
            Err(r) => {
                proof {
                    lemma_first_fault_bounds(command_args(arguments@), self.root_dir@, 0);
                    if let Some((i, f)) = first_fault(command_args(arguments@), self.root_dir@, 0) {
                        assert(args@.map_values(|a: String| a@)[i] == args@[i]@);
                    }
                }
                return Err(r);
            },
            Ok(()) => {},
        }
        let wd = self.working_dir().clone();
        match &self.mode {
            ExecutionMode::Local => {
                let commands = fallback_commands(name);
                Ok(PreparedRun::Local { commands, args, working_dir: wd })
            },
            ExecutionMode::Docker { image, memory_limit, cpu_quota } => {
                let ghost av = string_views(args@);
                let command = docker_command(name, args);
                assert(string_views(command@) =~= seq![name@] + av);
                Ok(PreparedRun::Docker {
                    image: image.clone(),
                    command,
                    working_dir: wd,
                    requested_memory: *memory_limit,
                    memory_limit: docker_memory_limit(*memory_limit),
                    cpu_quota: docker_cpu_quota(*cpu_quota),
                })
            },
            ExecutionMode::Wasm { module, mount_root, env_vars } => {
                let ghost av = string_views(args@);
                let full = wasm_args(name, args);
                assert(string_views(full@) =~= seq!["tool_runtime"@, name@] + av);
                let module = match module {
                    Some(p) => Some(p.clone()),
                    None => None,
                };
                Ok(PreparedRun::Wasm { module, mount_root: *mount_root, args: full, working_dir: wd, env_vars: clone_pairs(env_vars) })
            },
        }
    }
}

/// How an attempt to start a local command ended.
#[derive(Debug)]
pub enum SpawnOutcome {
    /// The command ran and exited.
    Exited { success: bool, stdout: Vec<u8>, stderr: Vec<u8> },
    /// No such program.
    NotFound,
    /// The program may not be run.
    PermissionDenied,
    /// Any other failure to start, with its message.
    Failed(String),
}

/// What follows an attempt: the call's result, or the next fallback command.
#[derive(Debug)]
pub enum AttemptStep {
    Finished(Result<String, ToolError>),
    TryNext,
}

/// What follows an attempt to run `command` locally: its decoded output on
/// success, its decoded error output on failure, the next command when the
/// program is missing.
pub fn local_attempt(command: &str, outcome: SpawnOutcome) -> (res: AttemptStep)
    ensures
        match outcome {
            SpawnOutcome::Exited { success, stdout, stderr } => if success {
                res matches AttemptStep::Finished(Ok(out)) && out@ == output_text(stdout@)
            } else {
                res matches AttemptStep::Finished(Err(ToolError::ExecutionFailed(m)))
                    && m@ == command@ + " -> "@ + output_text(stderr@)
            },
            SpawnOutcome::NotFound => res is TryNext,
            SpawnOutcome::PermissionDenied => res matches AttemptStep::Finished(Err(ToolError::PermissionDenied(m)))
                && m@ == command@,
            SpawnOutcome::Failed(e) => res matches AttemptStep::Finished(Err(ToolError::ExecutionFailed(m)))
                && m@ == "Critical failure ("@ + command@ + "): "@ + e@,
        },
{
    match outcome {
        SpawnOutcome::Exited { success, stdout, stderr } => {
            if success {
                AttemptStep::Finished(Ok(bytes_to_string_safe(stdout.as_slice())))
            } else {
                let err = bytes_to_string_safe(stderr.as_slice());
                AttemptStep::Finished(Err(ToolError::ExecutionFailed(concat3(command, " -> ", err.as_str()))))
            }
        },
        SpawnOutcome::NotFound => AttemptStep::TryNext,
        SpawnOutcome::PermissionDenied => AttemptStep::Finished(Err(ToolError::PermissionDenied(owned(command)))),
        SpawnOutcome::Failed(e) => {
            let head = concat3("Critical failure (", command, "): ");
            AttemptStep::Finished(Err(ToolError::ExecutionFailed(concat2(head.as_str(), e.as_str()))))
        },
    }
}

/// The error when none of the fallback commands exists; `last_error` is how
/// the last failure to start prints.
pub fn program_not_found(command: &str, last_error: &str) -> (res: ToolError)
    ensures
        res matches ToolError::NotFound(m) && m@ == "program not found (last tried: "@ + command@ + "). Original error: "@
            + last_error@,
{
    let head = concat3("program not found (last tried: ", command, "). Original error: ");
    ToolError::NotFound(concat2(head.as_str(), last_error))
}

/// The description given to a command offered as a tool.
pub fn command_description_exec(cmd: &str) -> (res: &'static str)
    ensures
        res@ == command_description(cmd@),
{
    if str_eq(cmd, "ls") { "List directory contents." }
    else if str_eq(cmd, "cat") { "Read and display file content." }
    else if str_eq(cmd, "grep") { "Search for patterns in files." }
    else if str_eq(cmd, "find") { "Search for files in a directory hierarchy." }
    else if str_eq(cmd, "python") || str_eq(cmd, "python3") { "Execute a Python script or command." }
    else if str_eq(cmd, "node") { "Execute a Node.js script or command." }
    else if str_eq(cmd, "bash") || str_eq(cmd, "sh") { "Execute a shell script or command." }
    else if str_eq(cmd, "curl") || str_eq(cmd, "wget") { "Transfer data from or to a server." }
    else if str_eq(cmd, "tar") || str_eq(cmd, "zip") { "Archive or compress files." }
    else if str_eq(cmd, "jq") { "Process and filter JSON data." }
    else if str_eq(cmd, "echo") { "Display a line of text." }
    else { "Execute a system command." }
}

/// The command arguments of a tool call (see `command_args`).
pub fn args_to_vec(arguments: &str) -> (res: Vec<String>)
    ensures
        res@.map_values(|a: String| a@) == command_args(arguments@),
{
    match json_object_entries(arguments) {
        Some(entries) => {
            let ghost es = entries@.map_values(|e: (String, String)| (e.0@, e.1@));
            let mut out: Vec<String> = Vec::new();
            let mut i: usize = 0;
            while i < entries.len()
                invariant
                    i <= entries.len(),
                    es == entries@.map_values(|e: (String, String)| (e.0@, e.1@)),
                    out@.map_values(|a: String| a@) == es.take(i as int).map_values(|e: (Seq<char>, Seq<char>)| object_arg_text(e.1)),
                decreases entries.len() - i,
            {
                let v = &entries[i].1;
                assert(es[i as int].1 == v@);
                let text = match json_as_str(v.as_str()) {
                    Some(s) => s,
                    None => if str_eq(v.as_str(), "null") { String::new() } else { v.clone() },
                };
                assert(text@ == object_arg_text(es[i as int].1));
                let ghost before = out@;
                out.push(text);
                assert(out@.map_values(|a: String| a@) =~= before.map_values(|a: String| a@).push(text@));
                assert(es.take(i + 1) =~= es.take(i as int).push(es[i as int]));
                assert(out@.map_values(|a: String| a@) =~= es.take(i + 1).map_values(|e: (Seq<char>, Seq<char>)| object_arg_text(e.1)));
                i = i + 1;
            }
            assert(es.take(entries.len() as int) =~= es);
            out
        },
        None => match json_array_items(arguments) {
            Some(items) => {
                let ghost is = items@.map_values(|x: String| x@);
                let mut out: Vec<String> = Vec::new();
                let mut i: usize = 0;
                while i < items.len()
                    invariant
                        i <= items.len(),
                        is == items@.map_values(|x: String| x@),
                        out@.map_values(|a: String| a@) == is.take(i as int).map_values(|v: Seq<char>| array_arg_text(v)),
                    decreases items.len() - i,
                {
                    let v = &items[i];
                    assert(is[i as int] == v@);
                    let text = match json_as_str(v.as_str()) {
                        Some(s) => s,
                        None => v.clone(),
                    };
                    assert(text@ == array_arg_text(is[i as int]));
                    let ghost before = out@;
                    out.push(text);
                    assert(out@.map_values(|a: String| a@) =~= before.map_values(|a: String| a@).push(text@));
                    assert(is.take(i + 1) =~= is.take(i as int).push(is[i as int]));
                    assert(out@.map_values(|a: String| a@) =~= is.take(i + 1).map_values(|v: Seq<char>| array_arg_text(v)));
                    i = i + 1;
                }
                assert(is.take(items.len() as int) =~= is);
                out
            },
            None => {
                let out: Vec<String> = Vec::new();
                assert(out@.map_values(|a: String| a@) =~= Seq::<Seq<char>>::empty());
                out
            },
        },
    }
}

/// The commands tried in turn for `cmd`.
pub fn fallback_commands(cmd: &str) -> (res: Vec<String>)
    ensures
        res@.map_values(|c: String| c@) == fallback_commands_spec(cmd@),
{
    let mut out: Vec<String> = Vec::new();
    out.push(owned(cmd));
    if str_eq(cmd, "python") {
        out.push(owned("python3"));
    } else if str_eq(cmd, "python3") {
        out.push(owned("python"));
    } else if str_eq(cmd, "pip") {
        out.push(owned("pip3"));
    } else if str_eq(cmd, "pip3") {
        out.push(owned("pip"));
    } else if str_eq(cmd, "node") {
        out.push(owned("nodejs"));
    }
    assert(out@.map_values(|c: String| c@) =~= fallback_commands_spec(cmd@));
    out
}

/// The environment variables a local tool keeps.
pub open spec fn essential_env_vars_spec() -> Seq<Seq<char>> {
    seq!["PATH"@, "SYSTEMROOT"@, "SYSTEMDRIVE"@, "TEMP"@, "TMP"@, "USERPROFILE"@]
}

/// The environment variables a local tool keeps; all others are cleared.
pub fn essential_env_vars() -> (res: Vec<&'static str>)
    ensures
        res@.map_values(|s: &str| s@) == essential_env_vars_spec(),
{
    let v: Vec<&'static str> = vec!["PATH", "SYSTEMROOT", "SYSTEMDRIVE", "TEMP", "TMP", "USERPROFILE"];
    assert(v@.map_values(|s: &str| s@) =~= essential_env_vars_spec());
    v
}

/// The arguments of a WebAssembly tool run: the runtime name, the tool name,
/// then the tool's arguments.
pub fn wasm_args(name: &str, args: Vec<String>) -> (res: Vec<String>)
    ensures
        res@.len() == args@.len() + 2,
        res@[0]@ == "tool_runtime"@,
        res@[1]@ == name@,
        forall|i: int| 0 <= i < args@.len() ==> res@[i + 2] == args@[i],
{
    let mut out: Vec<String> = Vec::new();
    out.push(owned("tool_runtime"));
    out.push(owned(name));
    let mut rest = args;
    let ghost orig = rest@;
    let total = rest.len();
    let mut k: usize = 0;
    while rest.len() > 0
        invariant
            out@.len() == k + 2,
            k + rest@.len() == total,
            total == orig.len(),
            out@[0]@ == "tool_runtime"@,
            out@[1]@ == name@,
            forall|i: int| 0 <= i < k ==> out@[i + 2] == orig[i],
            forall|i: int| 0 <= i < rest@.len() ==> rest@[i] == orig[k + i],
        decreases rest@.len(),
    {
        let a = rest.remove(0);
        out.push(a);
        k = k + 1;
    }
    out
}

/// The message of a WebAssembly run that exited with a non-zero code.
pub fn wasm_exit_error(code: i32) -> (res: Option<String>)
    ensures
        code == 0 <==> res is None,
        res matches Some(m) ==> m@ == "Wasm execution failed with exit code: "@ + crate::text::signed_decimal(code as int),
{
    if code == 0 {
        None
    } else {
        let d = crate::text::i64_to_decimal(code as i64);
        Some(concat2("Wasm execution failed with exit code: ", d.as_str()))
    }
}

/// The memory limit of a container: the configured one, or 4 GB.
pub fn docker_memory_limit(configured: Option<i64>) -> (res: i64)
    ensures
        res == match configured { Some(m) => m, None => DEFAULT_DOCKER_MEMORY },
{
    match configured {
        Some(m) => m,
        None => DEFAULT_DOCKER_MEMORY,
    }
}

/// The CPU quota of a container: the configured one, or 50%.
pub fn docker_cpu_quota(configured: Option<i64>) -> (res: i64)
    ensures
        res == match configured { Some(q) => q, None => DEFAULT_DOCKER_CPU_QUOTA },
{
    match configured {
        Some(q) => q,
        None => DEFAULT_DOCKER_CPU_QUOTA,
    }
}

/// The bind that mounts the working directory at `/sandbox` read-write.
pub fn docker_bind(abs_root: &str) -> (res: String)
    ensures
        res@ == abs_root@ + ":/sandbox:rw"@,
{
    concat2(abs_root, ":/sandbox:rw")
}

/// The command line run in a container: the command and its arguments.
pub fn docker_command(cmd: &str, args: Vec<String>) -> (res: Vec<String>)
    ensures
        res@.len() == args@.len() + 1,
        res@[0]@ == cmd@,
        forall|i: int| 0 <= i < args@.len() ==> res@[i + 1] == args@[i],
{
    let mut out: Vec<String> = Vec::new();
    out.push(owned(cmd));
    let mut rest = args;
    let ghost orig = rest@;
    let total = rest.len();
    let mut k: usize = 0;
    while rest.len() > 0
        invariant
            out@.len() == k + 1,
            k + rest@.len() == total,
            total == orig.len(),
            out@[0]@ == cmd@,
            forall|i: int| 0 <= i < k ==> out@[i + 1] == orig[i],
            forall|i: int| 0 <= i < rest@.len() ==> rest@[i] == orig[k + i],
        decreases rest@.len(),
    {
        let a = rest.remove(0);
        out.push(a);
        k = k + 1;
    }
    out
}

/// Refuses a vault that is not inside the project root (both canonical).
pub fn check_vault_location(vault_canonical: &str, root_canonical: &str) -> (res: Result<(), String>)
    ensures
        res is Ok <==> path_starts_with_spec(vault_canonical@, root_canonical@),
        res matches Err(m) ==> m@ == "Security breach attempt: Vault directory "@ + debug_quote_spec(vault_canonical@)
            + " is outside project root "@ + debug_quote_spec(root_canonical@),
{
    if path_starts_with(vault_canonical, root_canonical) {
        Ok(())
    } else {
        let a = debug_quote(vault_canonical);
        let b = debug_quote(root_canonical);
        let m = concat5("Security breach attempt: Vault directory ", a.as_str(), " is outside project root ", b.as_str(), "");
        proof {
            reveal_strlit("");
        }
        assert(m@ =~= "Security breach attempt: Vault directory "@ + a@ + " is outside project root "@ + b@);
        Err(m)
    }
}

/// The bytes copied so far by a vault commit.
pub struct VaultCopyBudget {
    pub total: u64,
}

impl VaultCopyBudget {
    pub fn new() -> (res: Self)
        ensures
            res.total == 0,
    {
        VaultCopyBudget { total: 0 }
    }

    /// Counts a file of `len` bytes; the copy fails once more than 100 MB
    /// would have been copied.
    pub fn add_file(&mut self, len: u64) -> (res: Result<(), String>)
        requires
            old(self).total + len <= u64::MAX,
        ensures
            final(self).total == old(self).total + len,
            res is Ok <==> final(self).total <= MAX_VAULT_SIZE,
            res matches Err(m) ==> m@ == "Vault copy exceeds size limit (100MB)"@,
    {
        self.total = self.total + len;
        if self.total > MAX_VAULT_SIZE {
            return Err(owned("Vault copy exceeds size limit (100MB)"));
        }
        Ok(())
    }
}

/// An executor registered under a name, with whether it is in use.
pub struct NamedExecutor<E> {
    pub name: String,
    pub executor: E,
    pub enabled: bool,
}

/// Executors by name, tried in registration order.
pub struct MultiExecutor<E> {
    pub executors: Vec<NamedExecutor<E>>,
}

/// The executors without those named `name`.
pub open spec fn without_name<E>(s: Seq<(Seq<char>, E, bool)>, name: Seq<char>) -> Seq<(Seq<char>, E, bool)> {
    s.filter(other_name::<E>(name))
}

/// Entries with a name other than `name`.
pub open spec fn other_name<E>(name: Seq<char>) -> spec_fn((Seq<char>, E, bool)) -> bool {
    |e: (Seq<char>, E, bool)| e.0 != name
}

/// The position of the first executor named `name`.
pub open spec fn executor_index<E>(s: Seq<(Seq<char>, E, bool)>, name: Seq<char>, i: int) -> Option<int>
    decreases s.len() - i,
{
    if i < 0 || i >= s.len() {
        None
    } else if s[i].0 == name {
        Some(i)
    } else {
        executor_index(s, name, i + 1)
    }
}

impl<E> View for MultiExecutor<E> {
    type V = Seq<(Seq<char>, E, bool)>;

    open spec fn view(&self) -> Seq<(Seq<char>, E, bool)> {
        self.executors@.map_values(|e: NamedExecutor<E>| (e.name@, e.executor, e.enabled))
    }
}

/// Law: after an executor is added under a name, it is the only executor of
/// that name, it is enabled, and it comes last.
pub proof fn lemma_add_executor_unique<E>(s: Seq<(Seq<char>, E, bool)>, name: Seq<char>, e: E)
    ensures
        ({
            let r = without_name(s, name).push((name, e, true));
            &&& r.last() == (name, e, true)
            &&& forall|i: int| 0 <= i < r.len() - 1 ==> (#[trigger] r[i]).0 != name
        }),
{
    broadcast use vstd::seq_lib::group_filter_ensures;
    let f = other_name::<E>(name);
    assert forall|i: int| 0 <= i < s.filter(f).len() implies (#[trigger] s.filter(f)[i]).0 != name by {
        assert(f(s.filter(f)[i]));
    }
}

impl<E> MultiExecutor<E> {
    pub fn new() -> (res: Self)
        ensures
            res@.len() == 0,
    {
        MultiExecutor { executors: Vec::new() }
    }

    /// Registers an executor, enabled; an executor with the same name is
    /// replaced and the new one goes last.
    pub fn add_executor(&mut self, name: String, executor: E)
        ensures
            final(self)@ == without_name(old(self)@, name@).push((name@, executor, true)),
    {
        let ghost f = other_name::<E>(name@);
        let mut rest: Vec<NamedExecutor<E>> = Vec::new();
        std::mem::swap(&mut self.executors, &mut rest);
        let ghost orig = rest@.map_values(|e: NamedExecutor<E>| (e.name@, e.executor, e.enabled));
        let total = rest.len();
        let mut k: usize = 0;
        proof {
            reveal_with_fuel(Seq::<_>::filter, 1);
        }
        assert(self@ =~= orig.take(0).filter(f));
        while rest.len() > 0
            invariant
                k + rest.len() == total,
                total == orig.len(),
                f == other_name::<E>(name@),
                forall|j: int| 0 <= j < rest.len() ==> (#[trigger] rest@[j]).name@ == orig[k + j].0
                    && rest@[j].executor == orig[k + j].1 && rest@[j].enabled == orig[k + j].2,
                self@ == orig.take(k as int).filter(f),
            decreases rest.len(),
        {
            let e = rest.remove(0);
            let keep = !str_eq(e.name.as_str(), name.as_str());
            let ghost item = orig[k as int];
            proof {
                reveal_with_fuel(Seq::<_>::filter, 1);
                assert(orig.take(k + 1).drop_last() =~= orig.take(k as int));
                assert(orig.take(k + 1).last() == item);
                assert(f(item) == (item.0 != name@));
                assert(orig.take(k + 1).filter(f) == if f(item) {
                    orig.take(k as int).filter(f).push(item)
                } else {
                    orig.take(k as int).filter(f)
                });
            }
            assert(e.name@ == item.0 && e.executor == item.1 && e.enabled == item.2);
            assert(forall|j: int| 0 <= j < rest.len() ==> (#[trigger] rest@[j]).name@ == orig[k + 1 + j].0
                && rest@[j].executor == orig[k + 1 + j].1 && rest@[j].enabled == orig[k + 1 + j].2);
            if keep {
                self.executors.push(e);
                assert(self@ =~= orig.take(k as int).filter(f).push(item));
            }
            k = k + 1;
        }
        assert(orig.take(total as int) =~= orig);
        let ghost n = name@;
        self.executors.push(NamedExecutor { name, executor, enabled: true });
        assert(self@ =~= orig.filter(f).push((n, executor, true)));
    }

    /// Enables or disables the first executor named `name`; false when there
    /// is none.
    pub fn set_executor_enabled(&mut self, name: &str, enabled: bool) -> (res: bool)
        ensures
            match executor_index(old(self)@, name@, 0) {
                Some(i) => res && final(self)@ == old(self)@.update(i, (old(self)@[i].0, old(self)@[i].1, enabled)),
                None => !res && final(self)@ == old(self)@,
            },
    {
        let mut i: usize = 0;
        while i < self.executors.len()
            invariant
                i <= self.executors.len(),
                self@ == old(self)@,
                executor_index(old(self)@, name@, 0) == executor_index(old(self)@, name@, i as int),
            decreases self.executors.len() - i,
        {
            if str_eq(self.executors[i].name.as_str(), name) {
                let ghost before = self@;
                self.executors[i].enabled = enabled;
                assert(self@ =~= before.update(i as int, (before[i as int].0, before[i as int].1, enabled)));
                return true;
            }
            i = i + 1;
        }
        false
    }

    /// Name and enabled flag of every executor, in order.
    pub fn list_executors(&self) -> (res: Vec<(String, bool)>)
        ensures
            res@.len() == self@.len(),
            forall|i: int| 0 <= i < self@.len() ==> (#[trigger] res@[i]).0@ == self@[i].0 && res@[i].1 == self@[i].2,
    {
        let mut out: Vec<(String, bool)> = Vec::new();
        let mut i: usize = 0;
        while i < self.executors.len()
            invariant
                i <= self.executors.len(),
                out@.len() == i,
                forall|j: int| 0 <= j < i ==> (#[trigger] out@[j]).0@ == self@[j].0 && out@[j].1 == self@[j].2,
            decreases self.executors.len() - i,
        {
            out.push((self.executors[i].name.clone(), self.executors[i].enabled));
            i = i + 1;
        }
        out
    }

    /// The positions of the enabled executors, in order: the order in which
    /// a tool is routed to them.
    pub fn enabled_indices(&self) -> (res: Vec<usize>)
        ensures
            forall|k: int| 0 <= k < res@.len() ==> (#[trigger] res@[k]) < self@.len() && self@[res@[k] as int].2,
            forall|i: int| 0 <= i < self@.len() && self@[i].2 ==> res@.contains(i as usize),
            forall|a: int, b: int| 0 <= a < b < res@.len() ==> res@[a] < res@[b],
    {
        let mut out: Vec<usize> = Vec::new();
        let mut i: usize = 0;
        while i < self.executors.len()
            invariant
                i <= self.executors.len(),
                forall|k: int| 0 <= k < out@.len() ==> (#[trigger] out@[k]) < i && self@[out@[k] as int].2,
                forall|j: int| 0 <= j < i && self@[j].2 ==> out@.contains(j as usize),
                forall|a: int, b: int| 0 <= a < b < out@.len() ==> out@[a] < out@[b],
            decreases self.executors.len() - i,
        {
            let ghost old_out = out@;
            if self.executors[i].enabled {
                out.push(i);
                assert(out@[out@.len() - 1] == i);
            }
            assert forall|j: int| 0 <= j < i + 1 && self@[j].2 implies out@.contains(j as usize) by {
                if j < i {
                    let w = choose|w: int| 0 <= w < old_out.len() && old_out[w] == j as usize;
                    assert(out@[w] == j as usize);
                } else {
                    assert(out@[out@.len() - 1] == i);
                }
            }
            i = i + 1;
        }
        out
    }

    /// The number of enabled executors.
    pub fn enabled_count(&self) -> (res: usize)
        ensures
            res == self@.filter(|e: (Seq<char>, E, bool)| e.2).len(),
    {
        let ghost f = |e: (Seq<char>, E, bool)| e.2;
        let mut n: usize = 0;
        let mut i: usize = 0;
        proof {
            reveal_with_fuel(Seq::<_>::filter, 1);
        }
        assert(self@.take(0).filter(f) =~= Seq::<(Seq<char>, E, bool)>::empty());
        while i < self.executors.len()
            invariant
                i <= self.executors.len(),
                f == (|e: (Seq<char>, E, bool)| e.2),
                n == self@.take(i as int).filter(f).len(),
                n <= i,
            decreases self.executors.len() - i,
        {
            proof {
                reveal_with_fuel(Seq::<_>::filter, 1);
                assert(self@.take(i + 1).drop_last() =~= self@.take(i as int));
                assert(self@.take(i + 1).last() == self@[i as int]);
            }
            if self.executors[i].enabled {
                n = n + 1;
            }
            i = i + 1;
        }
        assert(self@.take(self.executors.len() as int) =~= self@);
        n
    }

    /// The status line: how many executors are enabled.
    pub fn status(&self) -> (res: String)
        ensures
            res@ == decimal(self@.filter(|e: (Seq<char>, E, bool)| e.2).len()) + " executors active"@,
    {
        let n = self.enabled_count();
        let d = u64_to_decimal(n as u64);
        concat2(d.as_str(), " executors active")
    }

    /// Whether the executor at position `i` claims `tool`: it is enabled and
    /// its tool list (`None` where listing failed) names the tool.
    pub fn claims(&self, i: usize, tool_list: &Option<Vec<String>>, tool: &str) -> (res: bool)
        requires
            i < self@.len(),
        ensures
            res == (self@[i as int].2 && (*tool_list matches Some(l) && exists|k: int| 0 <= k < l@.len() && l@[k]@ == tool@)),
    {
        if !self.executors[i].enabled {
            return false;
        }
        match tool_list {
            Some(l) => contains_string(l, tool),
            None => false,
        }
    }

    /// The first enabled executor whose tool list names `tool`; `tool_lists`
    /// holds each executor's tool names, `None` where listing failed.
    pub fn route_explicit(&self, tool_lists: &Vec<Option<Vec<String>>>, tool: &str) -> (res: Option<usize>)
        requires
            tool_lists@.len() == self@.len(),
        ensures
            match res {
                Some(i) => i < self@.len() && self@[i as int].2 && (tool_lists@[i as int] matches Some(l)
                    && exists|k: int| 0 <= k < l@.len() && l@[k]@ == tool@) && forall|j: int| 0 <= j < i
                    ==> !(self@[j].2 && (tool_lists@[j] matches Some(l) && exists|k: int| 0 <= k < l@.len() && l@[k]@ == tool@)),
                None => forall|j: int| 0 <= j < self@.len()
                    ==> !(self@[j].2 && (tool_lists@[j] matches Some(l) && exists|k: int| 0 <= k < l@.len() && l@[k]@ == tool@)),
            },
    {
        let mut i: usize = 0;
        while i < self.executors.len()
            invariant
                i <= self.executors.len(),
                tool_lists@.len() == self@.len(),
                forall|j: int| 0 <= j < i
                    ==> !(self@[j].2 && (tool_lists@[j] matches Some(l) && exists|k: int| 0 <= k < l@.len() && l@[k]@ == tool@)),
            decreases self.executors.len() - i,
        {
            if self.executors[i].enabled {
                match &tool_lists[i] {
                    Some(l) => {
                        if contains_string(l, tool) {
                            return Some(i);
                        }
                    },
                    None => {},
                }
            }
            i = i + 1;
        }
        None
    }

    /// The executor at position `i`.
    pub fn executor(&self, i: usize) -> (res: &E)
        requires
            i < self@.len(),
        ensures
            *res == self@[i as int].1,
    {
        &self.executors[i].executor
    }
}

/// The message when no executor could run a tool.
pub open spec fn no_executor_message(tool: Seq<char>) -> Seq<char> {
    "Tool '"@ + tool + "' not found in any active executor"@
}

/// The message when no executor could run a tool.
pub fn no_executor_error(tool: &str) -> (res: String)
    ensures
        res@ == no_executor_message(tool@),
{
    concat3("Tool '", tool, "' not found in any active executor")
}

/// Builds executors from configuration.
pub struct DynamicExecutorLoader;

/// The execution mode a configuration names: "docker", "wasm" (in any case),
/// otherwise local.
pub open spec fn configured_mode_is(config_mode: Seq<char>, name: Seq<char>) -> bool {
    lowercase_spec(config_mode) == name
}

/// The mode that a configuration gives its default executor: Docker with the
/// configured image (or "python:3.11-slim"), the memory limit in bytes and the
/// default CPU quota; WASM with the configured module, the sandbox mounted and
/// no environment; otherwise local.
pub open spec fn mode_for_config(config: ExecutorConfig, security: SecurityConfig, res: ExecutionMode) -> bool {
    if configured_mode_is(config.default_mode@, "docker"@) {
        res matches ExecutionMode::Docker { image, memory_limit, cpu_quota }
            && image@ == match config.docker_image { Some(i) => i@, None => "python:3.11-slim"@ }
            && memory_limit == Some((security.max_memory_mb * 1048576) as i64)
            && cpu_quota == Some(DEFAULT_DOCKER_CPU_QUOTA)
    } else if configured_mode_is(config.default_mode@, "wasm"@) {
        res matches ExecutionMode::Wasm { module, mount_root, env_vars }
            && crate::execution::graph::opt_view(module) == crate::execution::graph::opt_view(config.wasm_module_path)
            && mount_root && env_vars@.len() == 0
    } else {
        res is Local
    }
}

impl DynamicExecutorLoader {
    /// The default executor's mode for a configuration.
    pub fn default_mode(config: &ExecutorConfig, security: &SecurityConfig) -> (res: ExecutionMode)
        requires
            security.max_memory_mb * 1048576 <= u64::MAX,
        ensures
            mode_for_config(*config, *security, res),
    {
        let lower = to_lowercase(config.default_mode.as_str());
        if str_eq(lower.as_str(), "docker") {
            let image = match &config.docker_image {
                Some(i) => i.clone(),
                None => owned("python:3.11-slim"),
            };
            let bytes: u64 = security.max_memory_mb * 1048576;
            ExecutionMode::Docker {
                image,
                memory_limit: Some(#[verifier::truncate] (bytes as i64)),
                cpu_quota: Some(DEFAULT_DOCKER_CPU_QUOTA),
            }
        } else if str_eq(lower.as_str(), "wasm") {
            let module = match &config.wasm_module_path {
                Some(p) => Some(p.clone()),
                None => None,
            };
            ExecutionMode::Wasm { module, mount_root: true, env_vars: Vec::new() }
        } else {
            ExecutionMode::Local
        }
    }

    /// The executors a configuration describes: one, named "default", in the
    /// configured mode, over the configured sandbox and vault, validated by
    /// the configured security settings, without middlewares.
    pub fn load_from_config<M>(config: &ExecutorConfig, security: &SecurityConfig) -> (res: MultiExecutor<SandboxedExecutor<M>>)
        requires
            security.max_memory_mb * 1048576 <= u64::MAX,
        ensures
            res@.len() == 1,
            res@[0].0 == "default"@,
            res@[0].2,
            res@[0].1.root_dir@ == config.sandbox_root@,
            crate::execution::graph::opt_view(res@[0].1.vault_dir) == crate::execution::graph::opt_view(config.vault_dir),
            res@[0].1.validator.allowed() == security.allowed_commands@.map_values(|c: String| c@),
            res@[0].1.validator.max_execution_time == security.max_execution_time_seconds,
            res@[0].1.validator.max_memory_mb == security.max_memory_mb,
            res@[0].1.middlewares@.len() == 0,
            mode_for_config(*config, *security, res@[0].1.mode),
    {
        let mut multi: MultiExecutor<SandboxedExecutor<M>> = MultiExecutor::new();
        let mode = Self::default_mode(config, security);
        let vault_dir = match &config.vault_dir {
            Some(v) => Some(v.clone()),
            None => None,
        };
        let executor = SandboxedExecutor {
            mode,
            root_dir: config.sandbox_root.clone(),
            vault_dir,
            validator: CommandValidator::from_config(security),
            middlewares: MiddlewareChain::new(),
        };
        multi.add_executor(owned("default"), executor);
        proof {
            reveal_with_fuel(Seq::<_>::filter, 1);
        }
        multi
    }
}

} // verus!
