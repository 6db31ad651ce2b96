use mentalist::config::{AgentConfig, ConfigFormat, ExecutorConfig, MentalistConfig, RuntimeConfig, SecurityConfig};

#[test]
fn test_config_defaults() {
    let config = RuntimeConfig::default();
    assert_eq!(config.max_steps, 10);
    assert_eq!(config.timeout_seconds, 300);
}

#[test]
fn runtime_config_default_session() {
    assert_eq!(RuntimeConfig::default().session_id, "default_session");
}

#[test]
fn agent_config_defaults() {
    let c = AgentConfig::default();
    assert_eq!(c.max_turns, 10);
    assert_eq!(c.timeout_seconds, 300);
    assert!(!c.fail_on_limit);
    assert_eq!(c.max_retries, 3);
    assert_eq!(c.max_context_items, 50);
    assert_eq!(c.max_tool_calls_per_turn, 20);
}

#[test]
fn executor_config_defaults() {
    let c = ExecutorConfig::default();
    assert_eq!(c.default_mode, "local");
    assert_eq!(c.sandbox_root, "./sandbox");
    assert_eq!(c.vault_dir, None);
    assert_eq!(c.docker_image.as_deref(), Some("python:3.11-slim"));
    assert_eq!(c.wasm_module_path, None);
    assert_eq!(c.mcp_initialize_timeout_seconds, 60);
}

#[test]
fn security_config_defaults() {
    let c = SecurityConfig::default();
    assert_eq!(
        c.allowed_commands,
        vec!["python", "node", "bash", "sh", "cat", "ls", "grep", "find", "echo", "curl", "wget"]
    );
    assert_eq!(c.max_execution_time_seconds, 60);
    assert_eq!(c.max_memory_mb, 512);
    assert!(c.enforce_sandboxing);
}

#[test]
fn from_env_gives_defaults() {
    let c = MentalistConfig::from_env();
    assert_eq!(c.agent.max_turns, 10);
    assert_eq!(c.executor.default_mode, "local");
    assert_eq!(c.security.max_memory_mb, 512);
}

#[test]
fn config_file_format_by_extension() {
    assert_eq!(MentalistConfig::file_format("conf/app.yaml"), ConfigFormat::Yaml);
    assert_eq!(MentalistConfig::file_format("app.yml"), ConfigFormat::Yaml);
    assert_eq!(MentalistConfig::file_format("app.json"), ConfigFormat::Json);
    assert_eq!(MentalistConfig::file_format("app"), ConfigFormat::Json);
    assert_eq!(MentalistConfig::file_format("app.yaml.bak"), ConfigFormat::Json);
}

#[test]
fn config_parse_error_message() {
    let e = MentalistConfig::parse_error("bad value");
    assert_eq!(e.message(), "Configuration error: bad value");
}
