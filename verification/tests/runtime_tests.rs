use mentalist::context::{Context, MemoryItem, MemoryRole, Usage};
use mentalist::core_loop::runtime::{
    apply_summary, classify_plan, estimate_tokens, failed_task_result, final_summary_prompt, is_boilerplate, parse_fallback_tool_calls,
    plan_answers_goal, plan_looks_like_json, plan_text_is_status, recover_plan, resolve_tool_alias,
    result_context_item, should_emit_final, should_summarize, step_status, stream_idle_event, stream_step_status,
    summary_prompt, task_tool_call, ExecutionLimits, PlanOutcome, RuntimeEvent, RuntimeProgress, TaskFailure,
};
use mentalist::core_loop::state::AgentState;
use mentalist::execution::executor::ExecutionResult;
use mentalist::execution::graph::{ExecutionPlan, TaskId, TaskNode};

fn item(role: MemoryRole, content: &str) -> MemoryItem {
    MemoryItem { role, content: content.to_string(), timestamp: 1, metadata: "null".to_string() }
}

#[test]
fn xml_calls_become_tasks() {
    let tasks = parse_fallback_tool_calls("I will call <call name=\"ls\"> {\"path\": \".\"} </call> and <call name=\"cat\">oops</call>");
    assert_eq!(tasks.len(), 2);
    assert_eq!(tasks[0].name, "Fallback: ls");
    assert_eq!(tasks[0].description, "Extracted from raw text: ls");
    assert_eq!(tasks[0].tool_name.as_deref(), Some("ls"));
    assert_eq!(tasks[0].tool_args.as_deref(), Some("{\"path\":\".\"}"));
    assert_eq!(tasks[0].metadata, "{\"fallback\":true}");
    assert!(tasks[0].dependencies.is_empty());
    assert_eq!(tasks[1].tool_args.as_deref(), Some("{}"));
    assert_ne!(tasks[0].id.0, tasks[1].id.0);
    assert!(tasks[0].id.0.starts_with("task-"));
    assert!(tasks[0].id.0["task-".len()..].chars().all(|c| c.is_ascii_digit()));
}

#[test]
fn fenced_calls_become_tasks() {
    let tasks = parse_fallback_tool_calls("```tool:web_search\n{\"q\": \"rust\"}\n```");
    assert_eq!(tasks.len(), 1);
    assert_eq!(tasks[0].description, "Extracted from code block: web_search");
    assert_eq!(tasks[0].tool_args.as_deref(), Some("{\"q\":\"rust\"}"));
    assert!(parse_fallback_tool_calls("no calls here").is_empty());
}

#[test]
fn plan_recovery_only_when_empty() {
    let mut plan = ExecutionPlan::new();
    plan.content = "<call name=\"ls\">{}</call>".to_string();
    let source = plan.content.clone();
    recover_plan(&mut plan, &source);
    assert_eq!(plan.tasks.len(), 1);
    recover_plan(&mut plan, "<call name=\"cat\">{}</call>");
    assert_eq!(plan.tasks.len(), 1);
    assert_eq!(plan.tasks[0].tool_name.as_deref(), Some("ls"));
}

#[test]
fn tool_aliases() {
    assert_eq!(resolve_tool_alias("web_search"), Some("duckduckgo_search"));
    assert_eq!(resolve_tool_alias("ddg_search"), Some("duckduckgo_search"));
    assert_eq!(resolve_tool_alias("duckduckgo_web_search"), Some("duckduckgo_search"));
    assert_eq!(resolve_tool_alias("read_file"), Some("filesystem_read_file"));
    assert_eq!(resolve_tool_alias("ls"), None);
}

#[test]
fn plan_classification() {
    assert!(plan_looks_like_json("  {\"tasks\": []}"));
    assert!(plan_looks_like_json("here \"tasks\": none"));
    assert!(!plan_looks_like_json("Hello!"));
    let mut plan = ExecutionPlan::new();
    plan.content = "Hello! I am a test agent.".into();
    match classify_plan(&plan, false, 1) {
        PlanOutcome::Respond(c) => assert_eq!(c, "Hello! I am a test agent."),
        _ => panic!("expected a response"),
    }
    match classify_plan(&plan, true, 1) {
        PlanOutcome::MalformedPlan(m) => {
            assert_eq!(m, "Failed to parse execution plan format from LLM. Raw content: Hello! I am a test agent.")
        }
        _ => panic!("expected a malformed plan"),
    }
    let empty = ExecutionPlan::new();
    match classify_plan(&empty, false, 3) {
        PlanOutcome::NoResponse(m) => assert_eq!(m, "No actions or response generated for goal at step 3"),
        _ => panic!("expected no response"),
    }
}

#[test]
fn summarisation_threshold() {
    assert!(!should_summarize(24000, 11));
    assert!(!should_summarize(24001, 10));
    assert!(should_summarize(24001, 11));
}

#[test]
fn summary_prompt_and_application() {
    let mut ctx = Context::new();
    for i in 0..6 {
        ctx.items.push(item(MemoryRole::User, &format!("m{}", i)));
    }
    assert!(summary_prompt(&ctx).is_none());
    ctx.items.push(item(MemoryRole::Assistant, "m6"));
    let p = summary_prompt(&ctx).unwrap();
    assert!(p.contains("### HISTORY ###\nUser: m0\n---\nUser: m1\n---\nUser: m2\n\n### SUMMARY ###\n"));
    let out = apply_summary(ctx, "short", 99);
    assert_eq!(out.items.len(), 5);
    assert_eq!(out.items[0].role, MemoryRole::System);
    assert_eq!(out.items[0].content, "### PREVIOUS CONTEXT SUMMARY ###\nshort");
    assert_eq!(out.items[0].timestamp, 99);
    assert_eq!(out.items[0].metadata, "{\"summarized\":true}");
    let rest: Vec<&str> = out.items[1..].iter().map(|i| i.content.as_str()).collect();
    assert_eq!(rest, vec!["m3", "m4", "m5", "m6"]);
}

#[test]
fn short_context_is_kept() {
    let mut ctx = Context::new();
    ctx.items.push(item(MemoryRole::User, "only"));
    let out = apply_summary(ctx, "x", 1);
    assert_eq!(out.items.len(), 1);
    assert_eq!(out.items[0].content, "only");
}

#[test]
fn task_calls_and_failures() {
    let t = TaskNode {
        id: TaskId("t1".into()),
        name: "n".into(),
        description: "d".into(),
        tool_name: Some("ls".into()),
        tool_args: None,
        dependencies: vec![],
        metadata: "null".into(),
    };
    let call = task_tool_call(&t).unwrap();
    assert_eq!(call.name, "ls");
    assert_eq!(call.arguments, "{}");
    let r = failed_task_result(TaskId("t1".into()), &TaskFailure::NotFound("ls".into()));
    assert_eq!(r.output, "\"Tool 'ls' not found\"");
    assert!(!r.success);
    assert_eq!(failed_task_result(TaskId("t".into()), &TaskFailure::NoTool).output, "\"Task failed: No tool specified\"");
    assert_eq!(failed_task_result(TaskId("t".into()), &TaskFailure::SafetyBlock("x".into())).output, "\"Safety Block: x\"");
    assert_eq!(
        failed_task_result(TaskId("t".into()), &TaskFailure::SecurityViolation("y".into())).output,
        "\"Security Violation: y\""
    );
    assert_eq!(
        failed_task_result(TaskId("t".into()), &TaskFailure::ExecutionError("z \"q\"".into())).output,
        "\"Execution Error: z \\\"q\\\"\""
    );
    let done = ExecutionResult { task_id: TaskId("t1".into()), output: "\"ok\"".into(), success: true };
    let it = result_context_item(&done, 7);
    assert_eq!(it.role, MemoryRole::Tool);
    assert_eq!(it.content, "Tool result: \"ok\"");
    assert_eq!(it.metadata, "{\"task_id\":\"t1\"}");
}

#[test]
fn progress_through_steps() {
    let limits = ExecutionLimits { max_steps: 2, timeout_seconds: 60 };
    let mut p = RuntimeProgress::new();
    assert!(p.begin_step(&limits));
    p.record_plan("plan", Some(Usage { prompt_tokens: 10, completion_tokens: 5 }));
    p.schedule_replan("Retry needed.".into());
    assert!(p.begin_step(&limits));
    assert_eq!(p.take_critique().as_deref(), Some("Retry needed."));
    assert_eq!(p.take_critique(), None);
    assert!(!p.begin_step(&limits));
    assert_eq!(p.step, 2);
    assert_eq!(p.total_input_tokens, 10);
    assert_eq!(p.total_output_tokens, 5);
    p.finish();
    assert!(p.completed);
}

#[test]
fn final_answer_decisions() {
    let boiler = vec!["Planning tasks...".to_string()];
    assert!(is_boilerplate("Planning tasks...", &boiler));
    assert!(plan_text_is_status("Planning tasks...", &boiler));
    assert!(!plan_answers_goal("Planning tasks...", &boiler));
    assert!(!plan_answers_goal("short", &boiler));
    assert!(plan_answers_goal(&"x".repeat(151), &boiler));
    assert!(!plan_answers_goal(&"x".repeat(150), &boiler));
    assert!(should_emit_final("Answer", "  Other "));
    assert!(!should_emit_final(" Same", "Same  "));
    assert!(!should_emit_final("", "x"));
    assert!(final_summary_prompt("Say hi").starts_with("The user asked: 'Say hi'. \nBased on the steps"));
    assert_eq!(step_status(3, ": Planning..."), "Step 3: Planning...");
    assert_eq!(stream_step_status(2, "Done"), "Step 2 complete: Done");
    match stream_idle_event(String::new()) {
        RuntimeEvent::Status(s) => assert_eq!(s, "No more tasks planned."),
        _ => panic!("expected a status"),
    }
    match stream_idle_event("hi".into()) {
        RuntimeEvent::TextChunk(s) => assert_eq!(s, "hi"),
        _ => panic!("expected text"),
    }
}

#[test]
fn agent_state_starts_with_goal() {
    let s = AgentState::new("reach the goal", Context::new());
    assert_eq!(s.goal.description, "reach the goal");
}

#[test]
fn token_estimates() {
    assert_eq!(estimate_tokens(""), 0);
    assert_eq!(estimate_tokens("abcd"), 1);
    assert_eq!(estimate_tokens("abcde"), 2);
    assert_eq!(estimate_tokens("é"), 1);
}

#[test]
fn plan_recovery_keeps_every_call_in_order() {
    let mut plan = ExecutionPlan::new();
    recover_plan(&mut plan, "<call name=\"ls\">{}</call> then <call name=\"cat\">{\"f\": 1}</call> and <call name=\"wc\"></call>");
    let names: Vec<Option<&str>> = plan.tasks.iter().map(|t| t.tool_name.as_deref()).collect();
    assert_eq!(names, vec![Some("ls"), Some("cat"), Some("wc")]);
    assert_eq!(plan.tasks[1].tool_args.as_deref(), Some("{\"f\":1}"));
    assert_ne!(plan.tasks[0].id.0, plan.tasks[1].id.0);
}

#[test]
fn taking_the_critique_keeps_the_rest() {
    let mut p = RuntimeProgress::new();
    p.record_plan("plan text", Some(Usage { prompt_tokens: 3, completion_tokens: 4 }));
    p.schedule_replan("do better".into());
    assert_eq!(p.take_critique().as_deref(), Some("do better"));
    assert!(p.critique.is_none());
    assert_eq!(p.last_plan_content, "plan text");
    assert_eq!((p.total_input_tokens, p.total_output_tokens), (3, 4));
}

#[test]
fn result_item_escapes_the_task_id() {
    let r = ExecutionResult { task_id: TaskId("a\"b\\c\nd\u{1}\u{1f}é".into()), output: "x".into(), success: true };
    let item = result_context_item(&r, 5);
    assert_eq!(item.metadata, "{\"task_id\":\"a\\\"b\\\\c\\nd\\u0001\\u001fé\"}");
}

#[test]
fn run_steps_are_bounded_and_end_when_finished() {
    let none = ExecutionLimits { max_steps: 0, timeout_seconds: 1 };
    let mut p = RuntimeProgress::new();
    assert!(!p.begin_step(&none));
    let two = ExecutionLimits { max_steps: 2, timeout_seconds: 1 };
    let mut started = 0;
    for _ in 0..5 {
        if p.begin_step(&two) {
            started += 1;
        }
    }
    assert_eq!(started, 2);
    let mut q = RuntimeProgress::new();
    assert!(q.begin_step(&two));
    q.schedule_replan("again".into());
    assert!(q.begin_step(&two));
    assert_eq!(q.take_critique().as_deref(), Some("again"));
    q.finish();
    q.schedule_replan("ignored".into());
    assert!(!q.begin_step(&ExecutionLimits { max_steps: 10, timeout_seconds: 1 }));
}
