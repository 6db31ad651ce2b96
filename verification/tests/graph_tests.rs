use mentalist::execution::executor::{deadlock_message, ExecutionResult, ParallelRun, RoundDecision};
use mentalist::execution::graph::{ExecutionPlan, TaskGraph, TaskId, TaskNode};
use mentalist::tools::registry::ToolRegistry;

fn task(id: &str, deps: &[&str]) -> TaskNode {
    TaskNode {
        id: TaskId(id.to_string()),
        name: id.to_string(),
        description: id.to_string(),
        tool_name: Some("mock".to_string()),
        tool_args: None,
        dependencies: deps.iter().map(|d| TaskId(d.to_string())).collect(),
        metadata: "null".to_string(),
    }
}

/// Runs every round of `graph`, recording success for each task; returns
/// the rounds (task names) and the results, or `None` on deadlock.
fn run_all(graph: &TaskGraph) -> Option<(Vec<Vec<String>>, Vec<ExecutionResult>)> {
    let mut run = ParallelRun::new();
    let mut rounds = Vec::new();
    loop {
        match run.next_round(graph) {
            RoundDecision::Finished => break,
            RoundDecision::Deadlock => return None,
            RoundDecision::Run(tasks) => {
                let mut names: Vec<String> = tasks.iter().map(|t| t.name.clone()).collect();
                names.sort();
                rounds.push(names);
                for t in tasks {
                    run.record(ExecutionResult { task_id: t.id.clone(), output: "{\"status\":\"ok\"}".into(), success: true });
                }
            }
        }
    }
    Some((rounds, run.into_results()))
}

#[test]
fn test_parallel_executor_complex_dag() {
    let mut plan = ExecutionPlan::new();
    plan.add_task(task("A", &[]));
    plan.add_task(task("B", &["A"]));
    plan.add_task(task("C", &["A"]));
    plan.add_task(task("D", &["B", "C"]));
    plan.add_task(task("E", &[]));
    let graph = TaskGraph::new(plan);
    let (rounds, results) = run_all(&graph).expect("no deadlock");
    let calls: usize = rounds.iter().map(|r| r.len()).sum();
    assert_eq!(results.len(), 5);
    assert_eq!(calls, 5, "All 5 tasks in the DAG should have been executed");
    for id in ["A", "B", "C", "D", "E"] {
        assert!(results.iter().find(|r| r.task_id.0 == id).unwrap().success);
    }
    assert_eq!(rounds, vec![vec!["A", "E"], vec!["B", "C"], vec!["D"]]);
}

#[test]
fn empty_plan_finishes_at_once() {
    let graph = TaskGraph::new(ExecutionPlan::new());
    let (rounds, results) = run_all(&graph).unwrap();
    assert!(rounds.is_empty());
    assert!(results.is_empty());
    assert!(graph.is_complete(&vec![]));
}

#[test]
fn cycle_is_a_deadlock() {
    let mut plan = ExecutionPlan::new();
    plan.add_task(task("A", &["B"]));
    plan.add_task(task("B", &["A"]));
    let graph = TaskGraph::new(plan);
    assert!(run_all(&graph).is_none());
    assert_eq!(deadlock_message(), "Deadlock detected in TaskGraph (no ready tasks)");
}

#[test]
fn missing_dependency_never_becomes_ready() {
    let mut plan = ExecutionPlan::new();
    plan.add_task(task("A", &["ghost"]));
    let graph = TaskGraph::new(plan);
    assert!(graph.get_ready_tasks(&vec![]).is_empty());
    assert!(!graph.is_complete(&vec![]));
}

#[test]
fn ready_tasks_exclude_completed() {
    let mut plan = ExecutionPlan::new();
    plan.add_task(task("A", &[]));
    plan.add_task(task("B", &["A"]));
    let graph = TaskGraph::new(plan);
    let ready = graph.get_ready_tasks(&vec![TaskId("A".into())]);
    assert_eq!(ready.len(), 1);
    assert_eq!(ready[0].id.0, "B");
    assert!(graph.is_complete(&vec![TaskId("A".into()), TaskId("B".into())]));
}

#[test]
fn adding_a_task_with_the_same_id_replaces_it() {
    let mut plan = ExecutionPlan::new();
    plan.add_task(task("A", &[]));
    let mut again = task("A", &[]);
    again.name = "A2".into();
    plan.add_task(again);
    assert_eq!(plan.tasks.len(), 1);
    assert_eq!(plan.tasks[0].name, "A2");
    assert_eq!(plan.position(&TaskId("A".into())), Some(0));
    assert_eq!(plan.position(&TaskId("Z".into())), None);
}

#[test]
fn recording_twice_keeps_one_result() {
    let mut run = ParallelRun::new();
    run.record(ExecutionResult { task_id: TaskId("A".into()), output: "1".into(), success: false });
    run.record(ExecutionResult { task_id: TaskId("A".into()), output: "2".into(), success: true });
    let results = run.into_results();
    assert_eq!(results.len(), 1);
    assert_eq!(results[0].output, "2");
    assert!(results[0].success);
}

#[test]
fn registry_register_lookup_and_unregister() {
    let mut reg: ToolRegistry<u32> = ToolRegistry::new();
    reg.register("ls".into(), "builtin".into(), 1);
    reg.register("search".into(), "mcp:web".into(), 2);
    reg.register("fetch".into(), "mcp:web".into(), 3);
    reg.register("ls".into(), "builtin".into(), 4);
    assert_eq!(reg.get("ls"), Some(&4));
    assert_eq!(reg.get("nope"), None);
    assert_eq!(
        reg.list_tools(),
        vec![
            ("ls".to_string(), "builtin".to_string()),
            ("search".to_string(), "mcp:web".to_string()),
            ("fetch".to_string(), "mcp:web".to_string())
        ]
    );
    reg.unregister_by_prefix("mcp:web");
    assert_eq!(reg.list_tools(), vec![("ls".to_string(), "builtin".to_string())]);
    assert_eq!(reg.position("ls"), Some(0));
}

#[test]
fn test_tool_failure_propagation() {
    let graph = TaskGraph::new(ExecutionPlan::new());
    let (_, results) = run_all(&graph).unwrap();
    assert!(results.is_empty() || !results.iter().any(|r| r.success));
    let mut run = ParallelRun::new();
    run.record(ExecutionResult {
        task_id: TaskId("t".into()),
        output: "{\"error\":\"Internal Error\"}".into(),
        success: false,
    });
    let results = run.into_results();
    assert!(!results.iter().any(|r| r.success));
    assert_eq!(results[0].output, "{\"error\":\"Internal Error\"}");
}

#[test]
fn plan_keeps_one_task_per_id() {
    let mut plan = ExecutionPlan::new();
    plan.add_task(task("A", &[]));
    plan.add_task(task("B", &[]));
    let mut again = task("A", &[]);
    again.name = "A2".to_string();
    plan.add_task(again);
    assert_eq!(plan.tasks.len(), 2);
    assert_eq!(plan.tasks[0].name, "A2");
    let graph = TaskGraph::new(plan);
    let ready = graph.get_ready_tasks(&vec![]);
    let ids: Vec<&str> = ready.iter().map(|t| t.id.0.as_str()).collect();
    assert_eq!(ids, vec!["A", "B"]);
}

#[test]
fn recording_a_round_completes_its_tasks() {
    let mut run = ParallelRun::new();
    run.record(ExecutionResult { task_id: TaskId("A".into()), output: "1".into(), success: true });
    run.record_round(vec![
        ExecutionResult { task_id: TaskId("C".into()), output: "3".into(), success: true },
        ExecutionResult { task_id: TaskId("A".into()), output: "1b".into(), success: true },
        ExecutionResult { task_id: TaskId("B".into()), output: "2".into(), success: false },
    ]);
    let ids: Vec<String> = run.completed.iter().map(|t| t.0.clone()).collect();
    assert_eq!(ids, vec!["A", "C", "B"]);
    let results = run.into_results();
    assert_eq!(results[0].output, "1b");
}
