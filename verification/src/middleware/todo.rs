//! Keeps the agent's TODO.md plan in its prompt.
use vstd::prelude::*;
use crate::context::{Request, Response, ToolCall};
use crate::json::{json_as_str, json_get, json_get_spec, json_str_spec};
use crate::text::{chars_of, concat2, contains_exec, occurs, owned, str_eq};

verus! {

/// What reading the plan file gave.
#[derive(Debug, Clone)]
pub enum TodoFile {
    /// The file does not exist.
    Missing,
    /// The file exists but could not be read.
    Unreadable,
    /// The file's text.
    Read(String),
}

/// The objectives text that goes into the prompt.
pub open spec fn todos_text(f: TodoFile) -> Seq<char> {
    match f {
        TodoFile::Missing => "No current objectives defined."@,
        TodoFile::Unreadable => "Error reading TODO.md"@,
        TodoFile::Read(s) => s@,
    }
}

/// The prompt with the objectives put in front of it.
pub open spec fn todo_prompt(todos: Seq<char>, prompt: Seq<char>) -> Seq<char> {
    "### CURRENT AGENT OBJECTIVES (from TODO.md) ###\n"@ + todos + "\n\n---\n\n"@ + prompt
}

/// The `path` argument of a call, when it is a JSON string.
pub open spec fn path_argument(arguments: Seq<char>) -> Option<Seq<char>> {
    match json_get_spec(arguments, "path"@) {
        Some(v) => json_str_spec(v),
        None => None,
    }
}

/// The `path` argument names TODO.md.
pub open spec fn targets_todo_file(arguments: Seq<char>) -> bool {
    match path_argument(arguments) {
        Some(p) => occurs(p, "TODO.md"@),
        None => false,
    }
}

/// A model's call that tries to change the plan: `update_todo` or
/// `write_file`, with a `path` that names TODO.md.
pub open spec fn is_plan_edit_attempt(name: Seq<char>, arguments: Seq<char>) -> bool {
    (name == "update_todo"@ || name == "write_file"@) && targets_todo_file(arguments)
}

/// A tool call that changed the plan: `update_todo`, or `write_file` with a
/// `path` that names TODO.md.
pub open spec fn is_plan_update(name: Seq<char>, arguments: Seq<char>) -> bool {
    name == "update_todo"@ || (name == "write_file"@ && targets_todo_file(arguments))
}

/// Puts the agent's objectives, read from a Markdown plan file, in front of
/// every prompt.
pub struct TodoMiddleware {
    pub todo_path: String,
}

/// Whether the `path` argument of `arguments` names TODO.md.
fn names_todo_file(arguments: &str) -> (res: bool)
    ensures
        res == targets_todo_file(arguments@),
{
    match json_get(arguments, "path") {
        Some(v) => match json_as_str(v.as_str()) {
            Some(p) => {
                let pc = chars_of(p.as_str());
                let t = chars_of("TODO.md");
                contains_exec(pc.as_slice(), t.as_slice())
            },
            None => false,
        },
        None => false,
    }
}

impl TodoMiddleware {
    pub fn new(todo_path: String) -> (res: Self)
        ensures
            res.todo_path@ == todo_path@,
    {
        TodoMiddleware { todo_path }
    }

    pub fn name(&self) -> (res: &'static str)
        ensures
            res@ == "Todo"@,
    {
        "Todo"
    }

    /// The objectives text for what reading the plan file gave.
    pub fn todos(file: &TodoFile) -> (res: String)
        ensures
            res@ == todos_text(*file),
    {
        match file {
            TodoFile::Missing => owned("No current objectives defined."),
            TodoFile::Unreadable => owned("Error reading TODO.md"),
            TodoFile::Read(s) => s.clone(),
        }
    }

    /// Puts the objectives in front of the request's prompt.
    pub fn before_ai_call(&self, req: &mut Request, file: &TodoFile)
        ensures
            final(req).prompt@ == todo_prompt(todos_text(*file), old(req).prompt@),
            final(req).tools@ == old(req).tools@,
            final(req).context == old(req).context,
    {
        let todos = Self::todos(file);
        let head = concat2("### CURRENT AGENT OBJECTIVES (from TODO.md) ###\n", todos.as_str());
        let head2 = concat2(head.as_str(), "\n\n---\n\n");
        let prompt = concat2(head2.as_str(), req.prompt.as_str());
        req.prompt = prompt;
    }

    /// Whether a model's answer tries to change the plan.
    pub fn after_ai_call(&self, res: &Response) -> (found: bool)
        ensures
            found == exists|i: int|
                0 <= i < res.tool_calls@.len() && is_plan_edit_attempt(
                    (#[trigger] res.tool_calls@[i]).name@,
                    res.tool_calls@[i].arguments@,
                ),
    {
        let mut i: usize = 0;
        while i < res.tool_calls.len()
            invariant
                i <= res.tool_calls@.len(),
                forall|j: int|
                    0 <= j < i ==> !is_plan_edit_attempt(
                        (#[trigger] res.tool_calls@[j]).name@,
                        res.tool_calls@[j].arguments@,
                    ),
            decreases res.tool_calls@.len() - i,
        {
            let t = &res.tool_calls[i];
            let named = str_eq(t.name.as_str(), "update_todo") || str_eq(t.name.as_str(), "write_file");
            if named && names_todo_file(t.arguments.as_str()) {
                return true;
            }
            i = i + 1;
        }
        false
    }

    /// Whether a finished tool call changed the plan, so that it is read again.
    pub fn after_tool_call(&self, tool: &ToolCall) -> (res: bool)
        ensures
            res == is_plan_update(tool.name@, tool.arguments@),
    {
        str_eq(tool.name.as_str(), "update_todo")
            || (str_eq(tool.name.as_str(), "write_file") && names_todo_file(tool.arguments.as_str()))
    }
}

} // verus!
