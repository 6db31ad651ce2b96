use mentalist::config::{ExecutorConfig, SecurityConfig};
use mentalist::executor::{
    args_to_vec, bytes_to_string_safe, check_vault_location, command_description_exec, docker_bind, docker_command,
    docker_cpu_quota, docker_memory_limit, essential_env_vars, fallback_commands, no_executor_error, wasm_args,
    wasm_exit_error, local_attempt, program_not_found, AttemptStep, CommandRejection, PreparedRun, SpawnOutcome, CommandValidator, DynamicExecutorLoader, ExecutionMode,
    MultiExecutor, SandboxPaths, SandboxedExecutor, ToolError, VaultCopyBudget, DEFAULT_DOCKER_CPU_QUOTA,
    DEFAULT_DOCKER_MEMORY, WASM_FUEL, WASM_MAX_MEMORY, WASM_MAX_STACK, WASM_OUTPUT_CAPACITY,
};

fn all_paths() -> SandboxPaths {
    SandboxPaths { root_exists: true, root_is_dir: true, vault_exists: true, wasm_module_exists: true }
}

#[test]
fn validator_default_commands() {
    let v = CommandValidator::new_default();
    assert_eq!(
        v.allowed_cmds,
        vec!["python", "node", "ruby", "bash", "sh", "cat", "ls", "grep", "jq", "curl", "wget", "tar", "zip", "find", "echo"]
    );
    assert_eq!(v.max_execution_time, 60);
    assert_eq!(v.max_memory_mb, 512);
}

#[test]
fn validator_from_config() {
    let mut s = SecurityConfig::default();
    s.allowed_commands = vec!["ls".to_string()];
    s.max_execution_time_seconds = 5;
    s.max_memory_mb = 64;
    let v = CommandValidator::from_config(&s);
    assert_eq!(v.allowed_cmds, vec!["ls"]);
    assert_eq!(v.max_execution_time, 5);
    assert_eq!(v.max_memory_mb, 64);
}

#[test]
fn validator_rejects_unlisted_command() {
    let v = CommandValidator::new_default();
    let r = v.validate("rm", &vec!["-rf".to_string()], "/sandbox").unwrap_err();
    assert_eq!(r.message(), "Command 'rm' is not in the whitelist of allowed tools");
    assert!(r.to_tool_error().is_none());
}

#[test]
fn validator_accepts_plain_arguments() {
    let v = CommandValidator::new_default();
    assert!(v.validate("ls", &vec!["-la".to_string(), "notes.txt".to_string()], "/sandbox").is_ok());
    assert!(v.validate("cat", &vec!["/sandbox/notes.txt".to_string()], "/sandbox").is_ok());
}

#[test]
fn validator_rejects_shell_metacharacters() {
    let v = CommandValidator::new_default();
    let r = v.validate("ls", &vec!["a; rm -rf /".to_string()], "/sandbox").unwrap_err();
    assert!(matches!(r, CommandRejection::DangerousCharacters { .. }));
    assert_eq!(r.message(), "Security violation: Dangerous characters in argument: a; rm -rf /");
    match r.to_tool_error() {
        Some(ToolError::SecurityViolation(m)) => assert_eq!(m, "Dangerous characters in argument: a; rm -rf /"),
        other => panic!("unexpected {:?}", other),
    }
}

#[test]
fn validator_rejects_path_traversal() {
    let v = CommandValidator::new_default();
    let r = v.validate("cat", &vec!["../secret".to_string()], "/sandbox").unwrap_err();
    assert_eq!(r.message(), "Security violation: Path traversal attempt: ../secret");
}

#[test]
fn validator_rejects_absolute_path_outside_root() {
    let v = CommandValidator::new_default();
    let r = v.validate("cat", &vec!["/etc/passwd".to_string()], "/sandbox").unwrap_err();
    assert_eq!(
        r.message(),
        "Access Denied: Absolute path '/etc/passwd' is outside the sandbox root '\"/sandbox\"'"
    );
    // `Path::starts_with` compares whole components.
    let r2 = v.validate("cat", &vec!["/sandboxed/x".to_string()], "/sandbox").unwrap_err();
    assert!(matches!(r2, CommandRejection::OutsideSandbox { .. }));
}

#[test]
fn validator_rejects_home_expansion() {
    let v = CommandValidator::new_default();
    let r = v.validate("ls", &vec!["ok".to_string(), "~".to_string()], "/sandbox").unwrap_err();
    assert_eq!(r.message(), "Access Denied: Home directory expansion (~) is not allowed in sandbox: ~");
    match r {
        CommandRejection::HomeExpansion { arg } => assert_eq!(arg, "~"),
        other => panic!("unexpected {:?}", other),
    }
}

#[test]
fn bytes_decoding() {
    assert_eq!(bytes_to_string_safe("héllo".as_bytes()), "héllo");
    assert_eq!(bytes_to_string_safe(&[0x61, 0xff, 0x62]), "[NON-UTF8 OUTPUT]: a\u{fffd}b");
}

#[test]
fn tool_error_messages() {
    assert_eq!(ToolError::Transient("slow".into()).message(), "Transient failure (timeout/network): slow");
    assert_eq!(ToolError::NotFound("x".into()).message(), "Tool not found: x");
    assert_eq!(ToolError::PermissionDenied("x".into()).message(), "Permission denied: x");
    assert_eq!(ToolError::ExecutionFailed("x".into()).message(), "Execution failed: x");
    assert_eq!(ToolError::ResourceLimitExceeded("x".into()).message(), "Resource limit exceeded: x");
    assert_eq!(ToolError::ConfigError("x".into()).message(), "Configuration error in executor: x");
    assert_eq!(ToolError::SecurityViolation("x".into()).message(), "Security violation: x");
    assert_eq!(ToolError::SandboxError("x".into()).message(), "Containerization error: x");
}

#[test]
fn sandbox_setup_checks_paths() {
    let bad_root = SandboxPaths { root_exists: false, ..all_paths() };
    let e = SandboxedExecutor::<()>::new(ExecutionMode::Local, "/nope".into(), None, bad_root).err().unwrap();
    assert_eq!(e, "Root directory does not exist: \"/nope\"");
    let file_root = SandboxPaths { root_is_dir: false, ..all_paths() };
    let e = SandboxedExecutor::<()>::new(ExecutionMode::Local, "/f".into(), None, file_root).err().unwrap();
    assert_eq!(e, "Root path is not a directory: \"/f\"");
    let no_vault = SandboxPaths { vault_exists: false, ..all_paths() };
    let e = SandboxedExecutor::<()>::new(ExecutionMode::Local, "/r".into(), Some("/r/v".into()), no_vault).err().unwrap();
    assert_eq!(e, "Vault directory does not exist: \"/r/v\"");
    let no_module = SandboxPaths { wasm_module_exists: false, ..all_paths() };
    let mode = ExecutionMode::Wasm { module: Some("/m.wasm".into()), mount_root: true, env_vars: vec![] };
    let e = SandboxedExecutor::<()>::new(mode, "/r".into(), None, no_module).err().unwrap();
    assert_eq!(e, "Wasm module not found: \"/m.wasm\"");
}

#[test]
fn sandbox_working_dir_and_tools() {
    let ex = SandboxedExecutor::<()>::new(ExecutionMode::Local, "/r".into(), None, all_paths()).ok().unwrap();
    assert_eq!(ex.working_dir(), "/r");
    let tools = ex.list_tools();
    assert_eq!(tools.len(), 15);
    assert_eq!(tools[0].name, "python");
    assert_eq!(tools[0].description, "Execute a Python script or command.");
    assert_eq!(tools[2].description, "Execute a system command.");
    let with_vault = SandboxedExecutor::<()>::new(ExecutionMode::Local, "/r".into(), Some("/r/v".into()), all_paths()).ok().unwrap();
    assert_eq!(with_vault.working_dir(), "/r/v");
}

#[test]
fn sandbox_middlewares_run_by_priority() {
    let ex = SandboxedExecutor::<&str>::new(ExecutionMode::Local, "/r".into(), None, all_paths()).ok().unwrap();
    let ex = ex.with_middleware(10, "b").with_middleware(5, "a").with_middleware(10, "c");
    let order: Vec<&str> = (0..ex.middlewares.len()).map(|i| *ex.middlewares.get(i)).collect();
    assert_eq!(order, vec!["a", "b", "c"]);
}

#[test]
fn command_descriptions() {
    assert_eq!(command_description_exec("ls"), "List directory contents.");
    assert_eq!(command_description_exec("jq"), "Process and filter JSON data.");
    assert_eq!(command_description_exec("rustc"), "Execute a system command.");
}

#[test]
fn command_arguments_from_json() {
    assert_eq!(args_to_vec("[\"-la\", 3, true]"), vec!["-la", "3", "true"]);
    assert_eq!(args_to_vec("{\"a\": \"x\", \"b\": null, \"c\": 2}"), vec!["x", "", "2"]);
    assert_eq!(args_to_vec("\"plain\""), Vec::<String>::new());
}

#[test]
fn fallback_command_lists() {
    assert_eq!(fallback_commands("python"), vec!["python", "python3"]);
    assert_eq!(fallback_commands("python3"), vec!["python3", "python"]);
    assert_eq!(fallback_commands("pip"), vec!["pip", "pip3"]);
    assert_eq!(fallback_commands("node"), vec!["node", "nodejs"]);
    assert_eq!(fallback_commands("ls"), vec!["ls"]);
}

#[test]
fn environment_and_wasm_arguments() {
    assert_eq!(essential_env_vars(), vec!["PATH", "SYSTEMROOT", "SYSTEMDRIVE", "TEMP", "TMP", "USERPROFILE"]);
    assert_eq!(wasm_args("stats", vec!["hello world".into()]), vec!["tool_runtime", "stats", "hello world"]);
    assert_eq!(wasm_exit_error(0), None);
    assert_eq!(wasm_exit_error(-3).unwrap(), "Wasm execution failed with exit code: -3");
}

#[test]
fn docker_settings() {
    assert_eq!(docker_memory_limit(None), DEFAULT_DOCKER_MEMORY);
    assert_eq!(DEFAULT_DOCKER_MEMORY, 4 * 1024 * 1024 * 1024);
    assert_eq!(docker_memory_limit(Some(7)), 7);
    assert_eq!(docker_cpu_quota(None), DEFAULT_DOCKER_CPU_QUOTA);
    assert_eq!(docker_cpu_quota(Some(1000)), 1000);
    assert_eq!(docker_bind("/abs/root"), "/abs/root:/sandbox:rw");
    assert_eq!(docker_command("python", vec!["-c".into(), "print(1)".into()]), vec!["python", "-c", "print(1)"]);
}

#[test]
fn vault_location_and_budget() {
    assert!(check_vault_location("/p/vault", "/p").is_ok());
    assert_eq!(
        check_vault_location("/other/vault", "/p").unwrap_err(),
        "Security breach attempt: Vault directory \"/other/vault\" is outside project root \"/p\""
    );
    let mut b = VaultCopyBudget::new();
    assert!(b.add_file(100 * 1024 * 1024).is_ok());
    assert_eq!(b.add_file(1).unwrap_err(), "Vault copy exceeds size limit (100MB)");
    assert_eq!(b.total, 100 * 1024 * 1024 + 1);
}

#[test]
fn multi_executor_registration() {
    let mut m: MultiExecutor<u32> = MultiExecutor::new();
    m.add_executor("a".into(), 1);
    m.add_executor("b".into(), 2);
    m.add_executor("a".into(), 3);
    assert_eq!(m.list_executors(), vec![("b".to_string(), true), ("a".to_string(), true)]);
    assert_eq!(*m.executor(1), 3);
    assert_eq!(m.status(), "2 executors active");
    assert!(m.set_executor_enabled("b", false));
    assert!(!m.set_executor_enabled("zzz", false));
    assert_eq!(m.status(), "1 executors active");
    assert_eq!(m.enabled_indices(), vec![1]);
    let lists = vec![Some(vec!["ls".to_string()]), Some(vec!["ls".to_string(), "cat".to_string()])];
    assert_eq!(m.route_explicit(&lists, "ls"), Some(1));
    assert_eq!(m.route_explicit(&lists, "grep"), None);
    assert_eq!(no_executor_error("grep"), "Tool 'grep' not found in any active executor");
}

#[test]
fn loader_builds_default_executor() {
    let mut c = ExecutorConfig::default();
    c.default_mode = "Docker".into();
    let s = SecurityConfig::default();
    match DynamicExecutorLoader::default_mode(&c, &s) {
        ExecutionMode::Docker { image, memory_limit, cpu_quota } => {
            assert_eq!(image, "python:3.11-slim");
            assert_eq!(memory_limit, Some(512 * 1048576));
            assert_eq!(cpu_quota, Some(50000));
        }
        other => panic!("unexpected {:?}", other),
    }
    c.default_mode = "wasm".into();
    assert!(matches!(DynamicExecutorLoader::default_mode(&c, &s), ExecutionMode::Wasm { mount_root: true, .. }));
    c.default_mode = "local".into();
    let m = DynamicExecutorLoader::load_from_config::<()>(&c, &s);
    assert_eq!(m.list_executors(), vec![("default".to_string(), true)]);
    assert!(matches!(m.executor(0).mode, ExecutionMode::Local));
    assert_eq!(m.executor(0).root_dir, "./sandbox");
}

#[test]
fn accepted_arguments_are_clean() {
    let v = CommandValidator::new_default();
    for arg in ["-la", "/sandbox/a.txt", "notes.md", "x=1"] {
        assert!(v.validate("ls", &vec![arg.to_string()], "/sandbox").is_ok(), "{}", arg);
    }
    for arg in ["a|b", "$(id)", "{x}", "'q'", "back\\slash", "..", "/tmp/x", "~/x"] {
        assert!(v.validate("ls", &vec![arg.to_string()], "/sandbox").is_err(), "{}", arg);
    }
}

#[test]
fn prepared_runs_by_mode() {
    let local = SandboxedExecutor::<()>::new(ExecutionMode::Local, "/r".into(), Some("/r/v".into()), all_paths()).ok().unwrap();
    assert!(matches!(local.prepare("python", "[\"-c\", \"print(1)\"]"), Err(CommandRejection::DangerousCharacters { .. })));
    match local.prepare("python", "[\"-c\", \"version\"]").unwrap() {
        PreparedRun::Local { commands, args, working_dir } => {
            assert_eq!(commands, vec!["python", "python3"]);
            assert_eq!(args, vec!["-c", "version"]);
            assert_eq!(working_dir, "/r/v");
        }
        other => panic!("unexpected {:?}", other),
    }
    assert!(matches!(local.prepare("rm", "[]"), Err(CommandRejection::NotWhitelisted { .. })));
    assert!(matches!(local.prepare("ls", "[\"../x\"]"), Err(CommandRejection::PathTraversal { .. })));

    let docker_mode = ExecutionMode::Docker { image: "python:3.11-slim".into(), memory_limit: None, cpu_quota: Some(10) };
    let docker = SandboxedExecutor::<()>::new(docker_mode, "/r".into(), None, all_paths()).ok().unwrap();
    match docker.prepare("ls", "{\"a\": \"-l\"}").unwrap() {
        PreparedRun::Docker { image, command, working_dir, requested_memory, memory_limit, cpu_quota } => {
            assert_eq!(image, "python:3.11-slim");
            assert_eq!(command, vec!["ls", "-l"]);
            assert_eq!(working_dir, "/r");
            assert_eq!(requested_memory, None);
            assert_eq!(memory_limit, DEFAULT_DOCKER_MEMORY);
            assert_eq!(cpu_quota, 10);
        }
        other => panic!("unexpected {:?}", other),
    }

    let wasm_mode = ExecutionMode::Wasm { module: Some("/m.wasm".into()), mount_root: true, env_vars: vec![("K".into(), "V".into())] };
    let wasm = SandboxedExecutor::<()>::new(wasm_mode, "/r".into(), None, all_paths()).ok().unwrap();
    match wasm.prepare("cat", "[\"f.txt\"]").unwrap() {
        PreparedRun::Wasm { module, mount_root, args, env_vars, .. } => {
            assert_eq!(module.as_deref(), Some("/m.wasm"));
            assert!(mount_root);
            assert_eq!(args, vec!["tool_runtime", "cat", "f.txt"]);
            assert_eq!(env_vars, vec![("K".to_string(), "V".to_string())]);
        }
        other => panic!("unexpected {:?}", other),
    }
}

#[test]
fn local_attempt_outcomes() {
    match local_attempt("ls", SpawnOutcome::Exited { success: true, stdout: b"a\nb".to_vec(), stderr: vec![] }) {
        AttemptStep::Finished(Ok(out)) => assert_eq!(out, "a\nb"),
        other => panic!("unexpected {:?}", other),
    }
    match local_attempt("ls", SpawnOutcome::Exited { success: false, stdout: vec![], stderr: b"no such file".to_vec() }) {
        AttemptStep::Finished(Err(ToolError::ExecutionFailed(m))) => assert_eq!(m, "ls -> no such file"),
        other => panic!("unexpected {:?}", other),
    }
    assert!(matches!(local_attempt("python", SpawnOutcome::NotFound), AttemptStep::TryNext));
    match local_attempt("x", SpawnOutcome::PermissionDenied) {
        AttemptStep::Finished(Err(ToolError::PermissionDenied(m))) => assert_eq!(m, "x"),
        other => panic!("unexpected {:?}", other),
    }
    match local_attempt("x", SpawnOutcome::Failed("boom".into())) {
        AttemptStep::Finished(Err(ToolError::ExecutionFailed(m))) => assert_eq!(m, "Critical failure (x): boom"),
        other => panic!("unexpected {:?}", other),
    }
    assert_eq!(
        program_not_found("python", "None").message(),
        "Tool not found: program not found (last tried: python). Original error: None"
    );
}

#[test]
fn loader_default_executor_takes_configured_mode() {
    let mut c = ExecutorConfig::default();
    let s = SecurityConfig::default();
    c.default_mode = "DOCKER".into();
    c.docker_image = Some("rust:1".into());
    let m = DynamicExecutorLoader::load_from_config::<()>(&c, &s);
    match &m.executor(0).mode {
        ExecutionMode::Docker { image, memory_limit, cpu_quota } => {
            assert_eq!(image, "rust:1");
            assert_eq!(*memory_limit, Some(512 * 1048576));
            assert_eq!(*cpu_quota, Some(50000));
        }
        other => panic!("unexpected {:?}", other),
    }
    c.default_mode = "Wasm".into();
    c.wasm_module_path = Some("m.wasm".into());
    let m = DynamicExecutorLoader::load_from_config::<()>(&c, &s);
    match &m.executor(0).mode {
        ExecutionMode::Wasm { module, mount_root, env_vars } => {
            assert_eq!(module.as_deref(), Some("m.wasm"));
            assert!(*mount_root);
            assert!(env_vars.is_empty());
        }
        other => panic!("unexpected {:?}", other),
    }
}

#[test]
fn outside_sandbox_refusal_names_the_root() {
    let v = CommandValidator::new_default();
    match v.validate("ls", &vec!["/tmp/x".to_string()], "/sandbox") {
        Err(CommandRejection::OutsideSandbox { arg, root }) => {
            assert_eq!(arg, "/tmp/x");
            assert_eq!(root, "/sandbox");
        }
        other => panic!("unexpected {:?}", other.is_ok()),
    }
}

#[test]
fn claiming_executor_and_wasm_limits() {
    let mut m: MultiExecutor<u8> = MultiExecutor::new();
    m.add_executor("a".into(), 1);
    m.add_executor("b".into(), 2);
    let tools = Some(vec!["ls".to_string()]);
    assert!(m.claims(1, &tools, "ls"));
    assert!(!m.claims(1, &tools, "cat"));
    assert!(!m.claims(0, &None, "ls"));
    assert!(m.set_executor_enabled("b", false));
    assert!(!m.claims(1, &tools, "ls"));
    assert_eq!(WASM_FUEL, 50_000_000);
    assert_eq!(WASM_MAX_STACK, 1024 * 1024);
    assert_eq!(WASM_MAX_MEMORY, 4 * 1024 * 1024 * 1024);
    assert_eq!(WASM_OUTPUT_CAPACITY, 4096 * 4096);
}
