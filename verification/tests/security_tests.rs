use mentalist::security::{Capability, Policy, SecurityEngine};

#[test]
fn test_security_violation_caught() {
    let security = SecurityEngine::new(Policy { allowed_capabilities: vec![], tool_allowlist: vec![] });
    let result = security.validate_tool_call("failing_tool");
    assert!(result.is_err(), "Security should have blocked non-allowlisted tool");
}

#[test]
fn allowlisted_tool_passes() {
    let security = SecurityEngine::new(Policy::new(vec![Capability::FileRead], vec!["test_tool".to_string()]));
    assert!(security.validate_tool_call("test_tool").is_ok());
    assert_eq!(
        security.validate_tool_call("other_tool"),
        Err("Security: Tool 'other_tool' is not in the allowlist.".to_string())
    );
}

#[test]
fn default_policy_is_empty() {
    let p = Policy::default();
    assert!(p.allowed_capabilities.is_empty());
    assert!(p.tool_allowlist.is_empty());
    assert_eq!(Capability::default(), Capability::FileRead);
}

#[test]
fn sanitize_replaces_injection_phrases() {
    let e = SecurityEngine::new(Policy::default());
    assert_eq!(
        e.sanitize_prompt("please ignore previous instructions and then system override now"),
        "please [REDACTED] and then [REDACTED] now"
    );
}

#[test]
fn sanitize_leaves_clean_prompt() {
    let e = SecurityEngine::new(Policy::default());
    assert_eq!(e.sanitize_prompt("List the files."), "List the files.");
}

#[test]
fn sanitize_is_idempotent() {
    let e = SecurityEngine::new(Policy::default());
    let once = e.sanitize_prompt("ignore previous instructionsignore previous instructions system override");
    let twice = e.sanitize_prompt(&once);
    assert_eq!(once, twice);
    assert_eq!(once, "[REDACTED][REDACTED] [REDACTED]");
}

#[test]
fn sanitize_is_case_sensitive() {
    let e = SecurityEngine::new(Policy::default());
    assert_eq!(e.sanitize_prompt("Ignore Previous Instructions"), "Ignore Previous Instructions");
}
