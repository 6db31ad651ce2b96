//! The decisions of the agent runtime's cognitive loop. The loop itself, which
//! awaits the planner, the tools, the critic and the model, runs these
//! decisions between its outside calls.
use vstd::prelude::*;
use std::hash::BuildHasher;
use crate::context::{Context, MemoryItem, MemoryRole, ToolCall, Usage};
use crate::execution::executor::ExecutionResult;
use crate::execution::graph::{ExecutionPlan, TaskId, TaskNode, TaskNodeView, tasks_view, add_task_spec, opt_view};
use crate::json::{json_object, json_object_spec, json_parse, json_parse_spec, json_quote, json_quote_spec};
use crate::text::{
    chars_of, concat2, concat3, contains_exec, decimal, has_prefix, occurs, owned, starts_with_exec, str_eq,
    string_from_chars, trim, trim_exec, trim_start, u64_to_decimal, is_ws, occurs_at, lemma_trim_first,
    lemma_trim_all_ws,
};

verus! {

/// Limits of a run.
#[derive(Debug, Clone, Copy)]
pub struct ExecutionLimits {
    pub max_steps: usize,
    pub timeout_seconds: u64,
}

/// What a run reports as it goes.
#[derive(Debug)]
pub enum RuntimeEvent {
    Status(String),
    TextChunk(String),
    ToolStarted(String),
    /// Tool name, result, success.
    ToolFinished(String, String, bool),
    MetricUpdate { step: usize, phase: String, input_tokens: usize, output_tokens: usize, context_size: usize },
    AwaitingApproval(ExecutionPlan),
}

// ---------------------------------------------------------------------------
// Recovering tasks from text
// ---------------------------------------------------------------------------

/// The pairs of first and second capture groups of every match of `pattern`
/// in `text`, in order (`regex::Regex::captures_iter`); none when the pattern
/// does not compile.
pub uninterp spec fn regex_capture_pairs(pattern: Seq<char>, text: Seq<char>) -> Seq<(Seq<char>, Seq<char>)>;

/// Runs `regex::Regex::captures_iter` and collects groups 1 and 2 of each match.
#[verifier::external_body]
fn regex_captures(pattern: &str, text: &str) -> (res: Vec<(String, String)>)
    ensures
        res@.map_values(|p: (String, String)| (p.0@, p.1@)) == regex_capture_pairs(pattern@, text@),
{
    let mut out = Vec::new();
    if let Ok(re) = regex::Regex::new(pattern) {
        for cap in re.captures_iter(text) {
            let a = cap.get(1).map_or("", |m| m.as_str()).to_string();
            let b = cap.get(2).map_or("", |m| m.as_str()).to_string();
            out.push((a, b));
        }
    }
    out
}

/// A random number (`RandomState::hash_one` under a freshly seeded
/// `RandomState`); nothing is promised of its value.
#[verifier::external_body]
fn random_u64() -> (res: u64) {
    std::collections::hash_map::RandomState::new().hash_one(0u8)
}

/// A new task identifier: "task-" and a random number.
fn fresh_task_id() -> (res: TaskId)
    ensures
        has_prefix(res@, "task-"@),
{
    let n = random_u64();
    let d = u64_to_decimal(n);
    let id = concat2("task-", d.as_str());
    proof {
        reveal_strlit("task-");
        assert(id@.subrange(0, 5) =~= "task-"@);
    }
    TaskId(id)
}

/// The pattern of XML-style calls: `<call name="tool">args</call>`.
pub open spec fn xml_call_pattern() -> Seq<char> {
    "<call\\s+name=\"([^\"]+)\"\\s*>(.*?)</call>"@
}

/// The pattern of fenced calls: a "```tool:name" fence around the arguments.
pub open spec fn fenced_call_pattern() -> Seq<char> {
    "```tool:([a-zA-Z0-9_-]+)\\s*\\n(.*?)\\n```"@
}

/// The arguments of a recovered call: its trimmed text as JSON, or an empty
/// object when that does not parse.
pub open spec fn fallback_args(body: Seq<char>) -> Seq<char> {
    match json_parse_spec(trim(body)) {
        Ok(v) => v,
        Err(_) => "{}"@,
    }
}

/// The calls recovered from text: the XML-style calls, or the fenced calls
/// when there are none; the flag tells which.
pub open spec fn fallback_calls(content: Seq<char>) -> (Seq<(Seq<char>, Seq<char>)>, bool) {
    let xml = regex_capture_pairs(xml_call_pattern(), content);
    if xml.len() > 0 {
        (xml, true)
    } else {
        (regex_capture_pairs(fenced_call_pattern(), content), false)
    }
}

/// A recovered task, apart from its random identifier.
pub open spec fn fallback_task_matches(t: TaskNodeView, name: Seq<char>, body: Seq<char>, xml: bool) -> bool {
    &&& t.name == "Fallback: "@ + name
    &&& t.description == (if xml { "Extracted from raw text: "@ } else { "Extracted from code block: "@ }) + name
    &&& t.tool_name == Some(name)
    &&& t.tool_args == Some(fallback_args(body))
    &&& t.dependencies.len() == 0
    &&& t.metadata == "{\"fallback\":true}"@
}

/// The task for one recovered call, with the given identifier.
pub fn fallback_task(id: TaskId, name: &str, body: &str, xml: bool) -> (res: TaskNode)
    ensures
        fallback_task_matches(res@, name@, body@, xml),
        res.id@ == id@,
{
    let trimmed = trim_exec(chars_of(body).as_slice());
    let t = string_from_chars(trimmed.as_slice());
    let args = match json_parse(t.as_str()) {
        Ok(v) => v,
        Err(_) => owned("{}"),
    };
    let description = if xml {
        concat2("Extracted from raw text: ", name)
    } else {
        concat2("Extracted from code block: ", name)
    };
    let res = TaskNode {
        id,
        name: concat2("Fallback: ", name),
        description,
        tool_name: Some(owned(name)),
        tool_args: Some(args),
        dependencies: Vec::new(),
        metadata: owned("{\"fallback\":true}"),
    };
    assert(res@.dependencies =~= Seq::<Seq<char>>::empty());
    res
}

/// Recovers tasks from plan text written as XML-style calls or, when there
/// are none, as fenced calls; each task gets a new random identifier.
pub fn parse_fallback_tool_calls(content: &str) -> (res: Vec<TaskNode>)
    ensures
        res@.len() == fallback_calls(content@).0.len(),
        forall|i: int| 0 <= i < res@.len() ==> fallback_task_matches(
            (#[trigger] res@[i])@,
            fallback_calls(content@).0[i].0,
            fallback_calls(content@).0[i].1,
            fallback_calls(content@).1,
        ),
{
    let xml = regex_captures("<call\\s+name=\"([^\"]+)\"\\s*>(.*?)</call>", content);
    let (caps, is_xml) = if xml.len() > 0 {
        (xml, true)
    } else {
        (regex_captures("```tool:([a-zA-Z0-9_-]+)\\s*\\n(.*?)\\n```", content), false)
    };
    let ghost cv = caps@.map_values(|p: (String, String)| (p.0@, p.1@));
    assert(cv == fallback_calls(content@).0);
    assert(is_xml == fallback_calls(content@).1);
    let mut out: Vec<TaskNode> = Vec::new();
    let mut i: usize = 0;
    while i < caps.len()
        invariant
            i <= caps.len(),
            cv == caps@.map_values(|p: (String, String)| (p.0@, p.1@)),
            out@.len() == i,
            forall|j: int| 0 <= j < i ==> fallback_task_matches((#[trigger] out@[j])@, cv[j].0, cv[j].1, is_xml),
        decreases caps.len() - i,
    {
        let id = fresh_task_id();
        let t = fallback_task(id, caps[i].0.as_str(), caps[i].1.as_str(), is_xml);
        out.push(t);
        i = i + 1;
    }
    out
}

/// A task recovered from `source`: it matches one of the calls found there.
pub open spec fn recovered_task(t: TaskNodeView, source: Seq<char>) -> bool {
    exists|i: int|
        0 <= i < fallback_calls(source).0.len() && #[trigger] fallback_task_matches(
            t,
            fallback_calls(source).0[i].0,
            fallback_calls(source).0[i].1,
            fallback_calls(source).1,
        )
}

/// The tasks after adding `nodes` one by one, in order, to `tasks`.
pub open spec fn add_tasks_spec(tasks: Seq<TaskNodeView>, nodes: Seq<TaskNodeView>) -> Seq<TaskNodeView>
    decreases nodes.len(),
{
    if nodes.len() == 0 {
        tasks
    } else {
        add_task_spec(add_tasks_spec(tasks, nodes.drop_last()), nodes.last())
    }
}

/// Adds the tasks recovered from `fallback_source` to a plan that has none;
/// a plan with tasks is left as it is. Recovered tasks with the same
/// identifier replace one another.
pub fn recover_plan(plan: &mut ExecutionPlan, fallback_source: &str)
    ensures
        old(plan).tasks@.len() > 0 ==> tasks_view(final(plan).tasks@) == tasks_view(old(plan).tasks@),
        final(plan).content@ == old(plan).content@,
        final(plan).requires_approval == old(plan).requires_approval,
        old(plan).wf() ==> final(plan).wf(),
        old(plan).tasks@.len() == 0 ==> final(plan).wf(),
        old(plan).tasks@.len() == 0 ==> {
            &&& (final(plan).tasks@.len() > 0 <==> fallback_calls(fallback_source@).0.len() > 0)
            &&& final(plan).tasks@.len() <= fallback_calls(fallback_source@).0.len()
            &&& forall|j: int| 0 <= j < final(plan).tasks@.len() ==> recovered_task(
                (#[trigger] final(plan).tasks@[j])@,
                fallback_source@,
            )
            &&& exists|rec: Seq<TaskNodeView>| {
                &&& rec.len() == fallback_calls(fallback_source@).0.len()
                &&& forall|i: int| 0 <= i < rec.len() ==> fallback_task_matches(
                    #[trigger] rec[i],
                    fallback_calls(fallback_source@).0[i].0,
                    fallback_calls(fallback_source@).0[i].1,
                    fallback_calls(fallback_source@).1,
                )
                &&& tasks_view(final(plan).tasks@) == add_tasks_spec(Seq::empty(), rec)
            }
        },
{
    if plan.tasks.len() > 0 {
        assert(tasks_view(plan.tasks@).len() == plan.tasks@.len());
        assert forall|j: int| 0 <= j < plan.tasks@.len() implies tasks_view(plan.tasks@)[j] == plan.tasks@[j]@ by {}
        return;
    }
    let ghost calls = fallback_calls(fallback_source@);
    let mut nodes = parse_fallback_tool_calls(fallback_source);
    let total = nodes.len();
    let ghost allv = tasks_view(nodes@);
    assert forall|i: int| 0 <= i < allv.len() implies fallback_task_matches(
        #[trigger] allv[i], calls.0[i].0, calls.0[i].1, calls.1) by {
        assert(allv[i] == nodes@[i]@);
    }
    assert(tasks_view(plan.tasks@) =~= add_tasks_spec(Seq::empty(), allv.take(0)));
    assert(tasks_view(nodes@) =~= allv.subrange(0, total as int));
    let mut k: usize = 0;
    while nodes.len() > 0
        invariant
            k + nodes.len() == total,
            allv.len() == total,
            plan.wf(),
            tasks_view(nodes@) == allv.subrange(k as int, total as int),
            tasks_view(plan.tasks@) == add_tasks_spec(Seq::empty(), allv.take(k as int)),
            forall|i: int| 0 <= i < allv.len() ==> fallback_task_matches(
                #[trigger] allv[i], calls.0[i].0, calls.0[i].1, calls.1),
            calls == fallback_calls(fallback_source@),
            total == calls.0.len(),
            forall|i: int| 0 <= i < nodes@.len() ==> fallback_task_matches(
                (#[trigger] nodes@[i])@,
                calls.0[k + i].0,
                calls.0[k + i].1,
                calls.1,
            ),
            k == 0 ==> plan.tasks@.len() == 0,
            k > 0 ==> plan.tasks@.len() > 0,
            plan.tasks@.len() <= k,
            forall|j: int| 0 <= j < plan.tasks@.len() ==> recovered_task((#[trigger] plan.tasks@[j])@, fallback_source@),
            plan.content@ == old(plan).content@,
            plan.requires_approval == old(plan).requires_approval,
        decreases nodes.len(),
    {
        let ghost old_nodes = nodes@;
        let n = nodes.remove(0);
        let ghost before = tasks_view(plan.tasks@);
        let ghost old_tasks = plan.tasks@;
        let ghost nv = n@;
        assert(fallback_task_matches(nv, calls.0[k as int].0, calls.0[k as int].1, calls.1)) by {
            assert(old_nodes[0] == n);
        }
        assert(recovered_task(nv, fallback_source@));
        plan.add_task(n);
        proof {
            crate::execution::graph::lemma_index_of_task(before, nv.id);
            assert(tasks_view(plan.tasks@).len() == plan.tasks@.len());
            assert(tasks_view(plan.tasks@).len() > 0);
            assert forall|j: int| 0 <= j < plan.tasks@.len() implies recovered_task((#[trigger] plan.tasks@[j])@, fallback_source@) by {
                assert(tasks_view(plan.tasks@)[j] == plan.tasks@[j]@);
                if j < old_tasks.len() {
                    assert(before[j] == old_tasks[j]@);
                    if tasks_view(plan.tasks@)[j] != before[j] {
                        assert(tasks_view(plan.tasks@)[j] == nv);
                    }
                } else {
                    assert(tasks_view(plan.tasks@)[j] == nv);
                }
            }
            assert forall|i: int| 0 <= i < nodes@.len() implies fallback_task_matches(
                (#[trigger] nodes@[i])@,
                calls.0[k + 1 + i].0,
                calls.0[k + 1 + i].1,
                calls.1,
            ) by {
                assert(nodes@[i] == old_nodes[i + 1]);
            }
            assert(nv == allv[k as int]) by {
                assert(tasks_view(old_nodes)[0] == allv.subrange(k as int, total as int)[0]);
            }
            assert(allv.take(k + 1).drop_last() =~= allv.take(k as int));
            assert(tasks_view(nodes@) =~= allv.subrange(k + 1, total as int)) by {
                assert forall|i: int| 0 <= i < nodes@.len() implies tasks_view(nodes@)[i] == allv.subrange(k + 1, total as int)[i] by {
                    assert(nodes@[i] == old_nodes[i + 1]);
                    assert(tasks_view(old_nodes)[i + 1] == allv.subrange(k as int, total as int)[i + 1]);
                }
            }
        }
        k = k + 1;
    }
    assert(tasks_view(plan.tasks@).len() == plan.tasks@.len());
    assert(allv.take(total as int) =~= allv);
}

/// The tool name used when a plan names a tool that is not registered.
pub open spec fn tool_alias(name: Seq<char>) -> Option<Seq<char>> {
    if name == "duckduckgo_web_search"@ || name == "web_search"@ || name == "ddg_search"@ {
        Some("duckduckgo_search"@)
    } else if name == "read_file"@ {
        Some("filesystem_read_file"@)
    } else {
        None
    }
}

/// The registered name to try for a tool that is not found under its own.
pub fn resolve_tool_alias(name: &str) -> (res: Option<&'static str>)
    ensures
        match res {
            Some(a) => tool_alias(name@) == Some(a@),
            None => tool_alias(name@) is None,
        },
{
    if str_eq(name, "duckduckgo_web_search") || str_eq(name, "web_search") || str_eq(name, "ddg_search") {
        Some("duckduckgo_search")
    } else if str_eq(name, "read_file") {
        Some("filesystem_read_file")
    } else {
        None
    }
}

// ---------------------------------------------------------------------------
// What a plan leads to
// ---------------------------------------------------------------------------

/// What the loop does with a plan.
pub enum PlanOutcome {
    /// Run the plan's tasks.
    Execute,
    /// The plan is a conversational answer: return it.
    Respond(String),
    /// The plan looks like JSON but no task could be recovered: fail.
    MalformedPlan(String),
    /// The planner produced neither tasks nor text: fail.
    NoResponse(String),
}

/// Plan text that looks like JSON.
pub open spec fn looks_like_json(content: Seq<char>) -> bool {
    (trim(content).len() > 0 && trim(content)[0] == '{') || occurs(content, "\"tasks\":"@)
}

/// Law: plan text whose first character that is not whitespace is '{'
/// looks like JSON, whatever whitespace comes before it; so does any text
/// that holds `"tasks":`.
pub proof fn lemma_json_after_whitespace(content: Seq<char>, k: int)
    requires
        0 <= k < content.len(),
        forall|j: int| 0 <= j < k ==> is_ws(#[trigger] content[j]),
        content[k] == '{',
    ensures
        looks_like_json(content),
{
    lemma_trim_first(content, k);
}

/// Law: text that holds `"tasks":` looks like JSON.
pub proof fn lemma_tasks_key_looks_like_json(content: Seq<char>, k: int)
    requires
        0 <= k,
        k + 8 <= content.len(),
        content[k] == '"' && content[k + 1] == 't' && content[k + 2] == 'a' && content[k + 3] == 's'
            && content[k + 4] == 'k' && content[k + 5] == 's' && content[k + 6] == '"' && content[k + 7] == ':',
    ensures
        looks_like_json(content),
{
    reveal_strlit("\"tasks\":");
    assert(content.subrange(k, k + 8) =~= "\"tasks\":"@);
    assert(occurs_at(content, "\"tasks\":"@, k));
}

/// Law: text that holds no `"tasks":` and whose first character that is not
/// whitespace is not '{' (or that is all whitespace) does not look like JSON.
pub proof fn lemma_other_text_is_not_json(content: Seq<char>, k: int)
    requires
        0 <= k <= content.len(),
        forall|j: int| 0 <= j < k ==> is_ws(#[trigger] content[j]),
        k < content.len() ==> !is_ws(content[k]) && content[k] != '{',
        !occurs(content, "\"tasks\":"@),
    ensures
        !looks_like_json(content),
{
    if k < content.len() {
        lemma_trim_first(content, k);
    } else {
        lemma_trim_all_ws(content);
    }
}

/// Whether plan text looks like JSON.
pub fn plan_looks_like_json(content: &str) -> (res: bool)
    ensures
        res == looks_like_json(content@),
{
    let c = chars_of(content);
    let t = trim_exec(c.as_slice());
    (t.len() > 0 && t[0] == '{') || contains_exec(c.as_slice(), chars_of("\"tasks\":").as_slice())
}

/// Decides what a plan leads to. `looked_like_json` is whether its text
/// looked like JSON before tasks were recovered from it.
pub fn classify_plan(plan: &ExecutionPlan, looked_like_json: bool, step: usize) -> (res: PlanOutcome)
    ensures
        plan.tasks@.len() > 0 ==> res is Execute,
        plan.tasks@.len() == 0 && looked_like_json ==> (res matches PlanOutcome::MalformedPlan(m)
            && m@ == "Failed to parse execution plan format from LLM. Raw content: "@ + plan.content@),
        plan.tasks@.len() == 0 && !looked_like_json && plan.content@.len() > 0 ==> (res matches PlanOutcome::Respond(c)
            && c@ == plan.content@),
        plan.tasks@.len() == 0 && !looked_like_json && plan.content@.len() == 0 ==> (res matches PlanOutcome::NoResponse(m)
            && m@ == "No actions or response generated for goal at step "@ + decimal(step as nat)),
{
    if plan.tasks.len() > 0 {
        return PlanOutcome::Execute;
    }
    if looked_like_json {
        return PlanOutcome::MalformedPlan(concat2("Failed to parse execution plan format from LLM. Raw content: ", plan.content.as_str()));
    }
    if !crate::agent::str_is_empty(plan.content.as_str()) {
        return PlanOutcome::Respond(plan.content.clone());
    }
    let d = u64_to_decimal(step as u64);
    PlanOutcome::NoResponse(concat2("No actions or response generated for goal at step ", d.as_str()))
}

/// The tokens a text is counted as: one per four bytes, rounded up.
pub fn estimate_tokens(text: &str) -> (res: usize)
    ensures
        res == (text.len() + 3) / 4,
{
    let n = text.len();
    n / 4 + if n % 4 == 0 { 0 } else { 1 }
}

/// Whether the context is large enough to be summarised: over 24000 tokens
/// and over 10 items.
pub fn should_summarize(current_tokens: usize, items: usize) -> (res: bool)
    ensures
        res == (current_tokens > 24000 && items > 10),
{
    current_tokens > 24000 && items > 10
}

// ---------------------------------------------------------------------------
// Summarising the context
// ---------------------------------------------------------------------------

/// One context item as it appears in the history to summarise.
pub open spec fn history_line(item: MemoryItem) -> Seq<char> {
    crate::context::role_name(item.role) + ": "@ + item.content@
}

/// The history lines of `items`, separated by "\n---\n".
pub open spec fn history_text(items: Seq<MemoryItem>) -> Seq<char>
    decreases items.len(),
{
    if items.len() == 0 {
        Seq::empty()
    } else if items.len() == 1 {
        history_line(items[0])
    } else {
        history_text(items.drop_last()) + "\n---\n"@ + history_line(items.last())
    }
}

/// The prompt asking for a summary of a history.
pub open spec fn summary_prompt_spec(history: Seq<char>) -> Seq<char> {
    "Summarize the following conversation history into a dense, informative paragraph.\nPreserve all key facts, discovered information, and completed task results.\n\n### HISTORY ###\n"@
        + history + "\n\n### SUMMARY ###\n"@
}

/// The prompt for summarising a context: `None` when it has six items or
/// fewer; otherwise the history of all but the last four items.
pub fn summary_prompt(ctx: &Context) -> (res: Option<String>)
    ensures
        ctx.items@.len() <= 6 ==> res is None,
        ctx.items@.len() > 6 ==> (res matches Some(p)
            && p@ == summary_prompt_spec(history_text(ctx.items@.take(ctx.items@.len() - 4)))),
{
    let n = ctx.items.len();
    if n <= 6 {
        return None;
    }
    let upto = n - 4;
    let mut text: Vec<char> = Vec::new();
    let mut i: usize = 0;
    while i < upto
        invariant
            i <= upto,
            upto + 4 == ctx.items@.len(),
            text@ == history_text(ctx.items@.take(i as int)),
        decreases upto - i,
    {
        let item = &ctx.items[i];
        assert(ctx.items@.take(i + 1).drop_last() =~= ctx.items@.take(i as int));
        assert(ctx.items@.take(i + 1).last() == *item);
        if i > 0 {
            crate::text::push_str(&mut text, "\n---\n");
        } else {
            assert(ctx.items@.take(1)[0] == *item);
        }
        crate::text::push_str(&mut text, item.role.name());
        crate::text::push_str(&mut text, ": ");
        crate::text::push_str(&mut text, item.content.as_str());
        proof {
            if i > 0 {
                assert(text@ =~= history_text(ctx.items@.take(i as int)) + "\n---\n"@ + history_line(*item));
            } else {
                assert(ctx.items@.take(0) =~= Seq::<MemoryItem>::empty());
                assert(text@ =~= history_line(*item));
            }
        }
        i = i + 1;
    }
    let history = string_from_chars(text.as_slice());
    Some(concat3(
        "Summarize the following conversation history into a dense, informative paragraph.\nPreserve all key facts, discovered information, and completed task results.\n\n### HISTORY ###\n",
        history.as_str(),
        "\n\n### SUMMARY ###\n",
    ))
}

/// Replaces all but the last four items of a context by one system item
/// holding the summary; contexts of six items or fewer are kept.
pub fn apply_summary(ctx: Context, summary: &str, timestamp: u64) -> (res: Context)
    ensures
        ctx.items@.len() <= 6 ==> res.items@ == ctx.items@,
        ctx.items@.len() > 6 ==> {
            &&& res.items@.len() == 5
            &&& res.items@[0].role == MemoryRole::System
            &&& res.items@[0].content@ == "### PREVIOUS CONTEXT SUMMARY ###\n"@ + summary@
            &&& res.items@[0].timestamp == timestamp
            &&& res.items@[0].metadata@ == "{\"summarized\":true}"@
            &&& res.items@.subrange(1, 5) == ctx.items@.subrange(ctx.items@.len() - 4, ctx.items@.len() as int)
        },
{
    let n = ctx.items.len();
    if n <= 6 {
        return ctx;
    }
    let mut items = ctx.items;
    let mut kept: Vec<MemoryItem> = Vec::new();
    kept.push(MemoryItem {
        role: MemoryRole::System,
        content: concat2("### PREVIOUS CONTEXT SUMMARY ###\n", summary),
        timestamp,
        metadata: owned("{\"summarized\":true}"),
    });
    let tail = items.split_off(n - 4);
    let mut rest = tail;
    let ghost t = rest@;
    let mut k: usize = 0;
    while rest.len() > 0
        invariant
            k + rest@.len() == 4,
            t.len() == 4,
            kept@.len() == k + 1,
            kept@[0].role == MemoryRole::System,
            kept@[0].content@ == "### PREVIOUS CONTEXT SUMMARY ###\n"@ + summary@,
            kept@[0].timestamp == timestamp,
            kept@[0].metadata@ == "{\"summarized\":true}"@,
            forall|j: int| 0 <= j < k ==> kept@[j + 1] == t[j],
            forall|j: int| 0 <= j < rest@.len() ==> rest@[j] == t[k + j],
        decreases rest@.len(),
    {
        let x = rest.remove(0);
        kept.push(x);
        k = k + 1;
    }
    let res = Context { items: kept };
    assert(res.items@.subrange(1, 5) =~= t);
    res
}

// ---------------------------------------------------------------------------
// Running one task
// ---------------------------------------------------------------------------

/// The tool call for a task, when it names a tool; missing arguments are an
/// empty object.
pub fn task_tool_call(task: &TaskNode) -> (res: Option<ToolCall>)
    ensures
        match task.tool_name {
            Some(n) => (res matches Some(c) && c.name@ == n@ && c.arguments@ == match task.tool_args {
                Some(a) => a@,
                None => "{}"@,
            }),
            None => res is None,
        },
{
    match &task.tool_name {
        Some(n) => {
            let arguments = match &task.tool_args {
                Some(a) => a.clone(),
                None => owned("{}"),
            };
            Some(ToolCall { name: n.clone(), arguments })
        },
        None => None,
    }
}

/// Why a task produced no tool output.
pub enum TaskFailure {
    /// The task names no tool.
    NoTool,
    /// A middleware blocked the call.
    SafetyBlock(String),
    /// The security policy refused the tool.
    SecurityViolation(String),
    /// The tool ran and failed.
    ExecutionError(String),
    /// No tool of that name (or its alias) is registered.
    NotFound(String),
}

/// The text of a failed task's output.
pub open spec fn failure_text(f: TaskFailure) -> Seq<char> {
    match f {
        TaskFailure::NoTool => "Task failed: No tool specified"@,
        TaskFailure::SafetyBlock(e) => "Safety Block: "@ + e@,
        TaskFailure::SecurityViolation(e) => "Security Violation: "@ + e@,
        TaskFailure::ExecutionError(e) => "Execution Error: "@ + e@,
        TaskFailure::NotFound(n) => "Tool '"@ + n@ + "' not found"@,
    }
}

/// The result of a failed task: its output is the failure text as a JSON string.
pub fn failed_task_result(task_id: TaskId, failure: &TaskFailure) -> (res: ExecutionResult)
    ensures
        res.task_id@ == task_id@,
        res.output@ == json_quote_spec(failure_text(*failure)),
        !res.success,
{
    let text = match failure {
        TaskFailure::NoTool => owned("Task failed: No tool specified"),
        TaskFailure::SafetyBlock(e) => concat2("Safety Block: ", e.as_str()),
        TaskFailure::SecurityViolation(e) => concat2("Security Violation: ", e.as_str()),
        TaskFailure::ExecutionError(e) => concat2("Execution Error: ", e.as_str()),
        TaskFailure::NotFound(n) => concat3("Tool '", n.as_str(), "' not found"),
    };
    ExecutionResult { task_id, output: json_quote(text.as_str()), success: false }
}

/// The context item that records a task's result.
pub fn result_context_item(result: &ExecutionResult, timestamp: u64) -> (res: MemoryItem)
    ensures
        res.role == MemoryRole::Tool,
        res.content@ == "Tool result: "@ + result.output@,
        res.timestamp == timestamp,
        res.metadata@ == json_object_spec(seq![("task_id"@, json_quote_spec(result.task_id@))]),
{
    let mut entries: Vec<(String, String)> = Vec::new();
    entries.push((owned("task_id"), json_quote(result.task_id.0.as_str())));
    assert(entries@.map_values(|e: (String, String)| (e.0@, e.1@)) =~= seq![("task_id"@, json_quote_spec(result.task_id@))]);
    MemoryItem {
        role: MemoryRole::Tool,
        content: concat2("Tool result: ", result.output.as_str()),
        timestamp,
        metadata: json_object(&entries),
    }
}

// ---------------------------------------------------------------------------
// The loop's progress
// ---------------------------------------------------------------------------

/// What the loop's control depends on: the steps started, whether the run
/// is over, and the critique waiting for the next plan.
pub struct LoopState {
    pub step: nat,
    pub completed: bool,
    pub critique: Option<Seq<char>>,
}

/// An operation of the loop on its progress.
pub enum LoopOp {
    /// Try to start a step (`begin_step`); a plan is made only when it starts.
    Begin,
    /// Take the critique for the plan about to be made (`take_critique`).
    TakeCritique,
    /// Record a plan's text and usage (`record_plan`).
    RecordPlan,
    /// End the run (`finish`).
    Finish,
    /// Schedule a new plan against a critique (`schedule_replan`).
    Replan(Seq<char>),
}

/// The state of a run before its first step.
pub open spec fn initial_loop_state() -> LoopState {
    LoopState { step: 0, completed: false, critique: None }
}

/// Whether a step starts from `s` under a limit of `max_steps`.
pub open spec fn step_begins(s: LoopState, max_steps: nat) -> bool {
    s.step < max_steps && !s.completed
}

/// The state after one operation.
pub open spec fn apply_op(s: LoopState, op: LoopOp, max_steps: nat) -> LoopState {
    match op {
        LoopOp::Begin => if step_begins(s, max_steps) {
            LoopState { step: s.step + 1, ..s }
        } else {
            s
        },
        LoopOp::TakeCritique => LoopState { critique: None, ..s },
        LoopOp::RecordPlan => s,
        LoopOp::Finish => LoopState { completed: true, ..s },
        LoopOp::Replan(c) => LoopState { critique: Some(c), ..s },
    }
}

/// The state after a sequence of operations.
pub open spec fn run_ops(s: LoopState, ops: Seq<LoopOp>, max_steps: nat) -> LoopState
    decreases ops.len(),
{
    if ops.len() == 0 {
        s
    } else {
        apply_op(run_ops(s, ops.drop_last(), max_steps), ops.last(), max_steps)
    }
}

/// How many steps, and so plans, a sequence of operations starts.
pub open spec fn plans_started(s: LoopState, ops: Seq<LoopOp>, max_steps: nat) -> nat
    decreases ops.len(),
{
    if ops.len() == 0 {
        0
    } else {
        plans_started(s, ops.drop_last(), max_steps) + if ops.last() is Begin && step_begins(
            run_ops(s, ops.drop_last(), max_steps),
            max_steps,
        ) {
            1nat
        } else {
            0nat
        }
    }
}

proof fn lemma_plans_counted(s: LoopState, ops: Seq<LoopOp>, max_steps: nat)
    requires
        s.step <= max_steps,
    ensures
        run_ops(s, ops, max_steps).step == s.step + plans_started(s, ops, max_steps),
        run_ops(s, ops, max_steps).step <= max_steps,
    decreases ops.len(),
{
    if ops.len() > 0 {
        lemma_plans_counted(s, ops.drop_last(), max_steps);
    }
}

/// Law: whatever the loop does, a run starts at most `max_steps` steps, and
/// so asks for at most `max_steps` plans and critiques; with a limit of zero
/// it asks for none.
pub proof fn lemma_plans_bounded(ops: Seq<LoopOp>, max_steps: nat)
    ensures
        plans_started(initial_loop_state(), ops, max_steps) <= max_steps,
        plans_started(initial_loop_state(), ops, max_steps) == run_ops(initial_loop_state(), ops, max_steps).step,
{
    lemma_plans_counted(initial_loop_state(), ops, max_steps);
}

/// Law: once the run is over (the critic judged the goal reached, or a plan
/// was rejected), it stays over and no further step or plan is started.
pub proof fn lemma_finished_run_plans_nothing(s: LoopState, ops: Seq<LoopOp>, max_steps: nat)
    requires
        s.completed,
    ensures
        run_ops(s, ops, max_steps).completed,
        plans_started(s, ops, max_steps) == 0,
    decreases ops.len(),
{
    if ops.len() > 0 {
        lemma_finished_run_plans_nothing(s, ops.drop_last(), max_steps);
    }
}

/// Law: a critique scheduled for a new plan is what the next plan is made
/// against: until the critique is taken or replaced, it stays waiting.
pub proof fn lemma_critique_reaches_next_plan(s: LoopState, c: Seq<char>, ops: Seq<LoopOp>, max_steps: nat)
    requires
        forall|i: int| 0 <= i < ops.len() ==> !(#[trigger] ops[i] is TakeCritique) && !(ops[i] is Replan),
    ensures
        run_ops(apply_op(s, LoopOp::Replan(c), max_steps), ops, max_steps).critique == Some(c),
    decreases ops.len(),
{
    if ops.len() > 0 {
        let p = ops.drop_last();
        assert forall|i: int| 0 <= i < p.len() implies !(#[trigger] p[i] is TakeCritique) && !(p[i] is Replan) by {
            assert(p[i] == ops[i]);
        }
        lemma_critique_reaches_next_plan(s, c, p, max_steps);
        assert(!(ops[ops.len() - 1] is TakeCritique));
    }
}

/// How far a run has got.
pub struct RuntimeProgress {
    pub step: usize,
    pub completed: bool,
    pub critique: Option<String>,
    pub last_plan_content: String,
    pub total_input_tokens: usize,
    pub total_output_tokens: usize,
}

impl RuntimeProgress {
    /// The part of the progress the loop's control depends on.
    pub open spec fn loop_state(&self) -> LoopState {
        LoopState { step: self.step as nat, completed: self.completed, critique: opt_view(self.critique) }
    }

    pub fn new() -> (res: Self)
        ensures
            res.loop_state() == initial_loop_state(),
            res.step == 0,
            !res.completed,
            res.critique is None,
            res.last_plan_content@.len() == 0,
            res.total_input_tokens == 0,
            res.total_output_tokens == 0,
    {
        RuntimeProgress {
            step: 0,
            completed: false,
            critique: None,
            last_plan_content: String::new(),
            total_input_tokens: 0,
            total_output_tokens: 0,
        }
    }

    /// Starts the next step if the step limit allows it and the goal is not
    /// reached. Law: no more than `max_steps` steps ever start.
    pub fn begin_step(&mut self, limits: &ExecutionLimits) -> (res: bool)
        ensures
            res == step_begins(old(self).loop_state(), limits.max_steps as nat),
            final(self).loop_state() == apply_op(old(self).loop_state(), LoopOp::Begin, limits.max_steps as nat),
            res == (old(self).step < limits.max_steps && !old(self).completed),
            res ==> final(self).step == old(self).step + 1 && final(self).step <= limits.max_steps,
            !res ==> final(self).step == old(self).step,
            final(self).completed == old(self).completed,
            final(self).critique == old(self).critique,
            final(self).last_plan_content@ == old(self).last_plan_content@,
            final(self).total_input_tokens == old(self).total_input_tokens,
            final(self).total_output_tokens == old(self).total_output_tokens,
    {
        if self.step < limits.max_steps && !self.completed {
            self.step = self.step + 1;
            true
        } else {
            false
        }
    }

    /// The critique to plan against, taken so that it is used once.
    pub fn take_critique(&mut self) -> (res: Option<String>)
        ensures
            opt_view(res) == old(self).loop_state().critique,
            final(self).loop_state() == apply_op(old(self).loop_state(), LoopOp::TakeCritique, 0),
            res == old(self).critique,
            final(self).critique is None,
            final(self).step == old(self).step,
            final(self).completed == old(self).completed,
            final(self).last_plan_content@ == old(self).last_plan_content@,
            final(self).total_input_tokens == old(self).total_input_tokens,
            final(self).total_output_tokens == old(self).total_output_tokens,
    {
        let mut c: Option<String> = None;
        std::mem::swap(&mut c, &mut self.critique);
        c
    }

    /// Records a plan's text and token usage.
    pub fn record_plan(&mut self, content: &str, usage: Option<Usage>)
        requires
            usage matches Some(u) ==> old(self).total_input_tokens + u.prompt_tokens <= usize::MAX
                && old(self).total_output_tokens + u.completion_tokens <= usize::MAX,
        ensures
            final(self).loop_state() == apply_op(old(self).loop_state(), LoopOp::RecordPlan, 0),
            final(self).last_plan_content@ == content@,
            final(self).total_input_tokens == old(self).total_input_tokens + match usage { Some(u) => u.prompt_tokens as int, None => 0 },
            final(self).total_output_tokens == old(self).total_output_tokens + match usage { Some(u) => u.completion_tokens as int, None => 0 },
            final(self).step == old(self).step,
            final(self).completed == old(self).completed,
            final(self).critique == old(self).critique,
    {
        self.last_plan_content = owned(content);
        match usage {
            Some(u) => {
                self.total_input_tokens = self.total_input_tokens + u.prompt_tokens as usize;
                self.total_output_tokens = self.total_output_tokens + u.completion_tokens as usize;
            },
            None => {},
        }
    }

    /// Ends the run: the goal is reached or a plan was rejected.
    pub fn finish(&mut self)
        ensures
            final(self).loop_state() == apply_op(old(self).loop_state(), LoopOp::Finish, 0),
            final(self).completed,
            final(self).step == old(self).step,
            final(self).critique == old(self).critique,
            final(self).last_plan_content@ == old(self).last_plan_content@,
            final(self).total_input_tokens == old(self).total_input_tokens,
            final(self).total_output_tokens == old(self).total_output_tokens,
    {
        self.completed = true;
    }

    /// Schedules a new plan that takes the critique into account.
    pub fn schedule_replan(&mut self, critique: String)
        ensures
            final(self).loop_state() == apply_op(old(self).loop_state(), LoopOp::Replan(critique@), 0),
            final(self).critique == Some(critique),
            final(self).completed == old(self).completed,
            final(self).step == old(self).step,
            final(self).last_plan_content@ == old(self).last_plan_content@,
            final(self).total_input_tokens == old(self).total_input_tokens,
            final(self).total_output_tokens == old(self).total_output_tokens,
    {
        self.critique = Some(critique);
    }
}

/// The status line of a step's phase: "Step N" and the phase text.
pub fn step_status(step: usize, phase: &str) -> (res: String)
    ensures
        res@ == "Step "@ + decimal(step as nat) + phase@,
{
    let d = u64_to_decimal(step as u64);
    concat3("Step ", d.as_str(), phase)
}

/// Whether plan text is one of the planner's boilerplate messages.
pub fn is_boilerplate(content: &str, boilerplate: &Vec<String>) -> (res: bool)
    ensures
        res == exists|i: int| 0 <= i < boilerplate@.len() && boilerplate@[i]@ == content@,
{
    crate::text::contains_string(boilerplate, content)
}

/// Whether the last plan already answers the goal, so that no final summary
/// is asked for: it is not boilerplate and is longer than 150 bytes.
pub fn plan_answers_goal(last_plan_content: &str, boilerplate: &Vec<String>) -> (res: bool)
    ensures
        res == (last_plan_content@.len() > 0
            && !(exists|i: int| 0 <= i < boilerplate@.len() && boilerplate@[i]@ == last_plan_content@)
            && last_plan_content.len() > 150),
{
    let empty = crate::agent::str_is_empty(last_plan_content);
    let long = last_plan_content.len() > 150;
    !empty && !is_boilerplate(last_plan_content, boilerplate) && long
}

/// The prompt for the final answer to the user.
pub fn final_summary_prompt(goal: &str) -> (res: String)
    ensures
        res@ == "The user asked: '"@ + goal@
            + "'. \nBased on the steps we have taken and the information gathered in the context, provide a direct, helpful, and natural language response to the user's goal. DO NOT use JSON. Simply answer the question."@,
{
    concat3(
        "The user asked: '",
        goal,
        "'. \nBased on the steps we have taken and the information gathered in the context, provide a direct, helpful, and natural language response to the user's goal. DO NOT use JSON. Simply answer the question.",
    )
}

/// Whether the final answer is shown: it is not empty and differs, trimmed,
/// from the last plan's trimmed text.
pub fn should_emit_final(answer: &str, last_plan_content: &str) -> (res: bool)
    ensures
        res == (answer@.len() > 0 && trim(answer@) != trim(last_plan_content@)),
{
    if crate::agent::str_is_empty(answer) {
        return false;
    }
    let a = trim_exec(chars_of(answer).as_slice());
    let b = trim_exec(chars_of(last_plan_content).as_slice());
    let sa = string_from_chars(a.as_slice());
    let sb = string_from_chars(b.as_slice());
    !str_eq(sa.as_str(), sb.as_str())
}

/// Whether plan text goes to the user as a status rather than as answer text.
pub fn plan_text_is_status(content: &str, boilerplate: &Vec<String>) -> (res: bool)
    ensures
        res == exists|i: int| 0 <= i < boilerplate@.len() && boilerplate@[i]@ == content@,
{
    is_boilerplate(content, boilerplate)
}

/// The streaming loop's event for a plan without tasks: its text, or a
/// status that nothing more is planned.
pub fn stream_idle_event(content: String) -> (res: RuntimeEvent)
    ensures
        content@.len() > 0 ==> (res matches RuntimeEvent::TextChunk(c) && c@ == content@),
        content@.len() == 0 ==> (res matches RuntimeEvent::Status(s) && s@ == "No more tasks planned."@),
{
    if !crate::agent::str_is_empty(content.as_str()) {
        RuntimeEvent::TextChunk(content)
    } else {
        RuntimeEvent::Status(owned("No more tasks planned."))
    }
}

/// The streaming loop's status after a step.
pub fn stream_step_status(step: usize, critique: &str) -> (res: String)
    ensures
        res@ == "Step "@ + decimal(step as nat) + " complete: "@ + critique@,
{
    let d = u64_to_decimal(step as u64);
    let head = concat3("Step ", d.as_str(), " complete: ");
    concat2(head.as_str(), critique)
}

} // verus!
