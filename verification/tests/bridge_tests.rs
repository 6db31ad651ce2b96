use mentalist::bridge::{ExecutionMode, MultiExecutor};

#[test]
fn bridge_registers_server_tools() {
    let mut m: MultiExecutor<u32> = MultiExecutor::new();
    m.add_executor(vec![
        ("read".to_string(), "mcp:fs".to_string(), 1),
        ("write".to_string(), "mcp:fs".to_string(), 2),
        ("read".to_string(), "mcp:fs".to_string(), 3),
    ]);
    m.add_tool("search".into(), "builtin".into(), 4);
    assert_eq!(m.registry.get("read"), Some(&3));
    assert_eq!(m.registry.get("search"), Some(&4));
    assert_eq!(m.registry.list_tools().len(), 3);
    assert_eq!(m.list_executors(), vec![("mcp:filesystem".to_string(), true, "Running".to_string())]);
}

#[test]
fn bridge_execution_modes() {
    let mode = ExecutionMode::Wasm { module: "tool.wasm".into(), mount_root: true, env_vars: vec![] };
    assert!(matches!(mode, ExecutionMode::Wasm { mount_root: true, .. }));
    assert!(matches!(ExecutionMode::Docker { image: "python".into() }, ExecutionMode::Docker { .. }));
    assert!(matches!(ExecutionMode::Local, ExecutionMode::Local));
}
