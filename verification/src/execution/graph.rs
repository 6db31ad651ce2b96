//! Plans, tasks and the dependency graph between them.
use vstd::prelude::*;
use crate::context::Usage;
use crate::text::{str_eq, clone_strings};

verus! {

/// The identifier of a task.
#[derive(Debug)]
pub struct TaskId(pub String);

impl View for TaskId {
    type V = Seq<char>;

    open spec fn view(&self) -> Seq<char> {
        self.0@
    }
}

impl Clone for TaskId {
    fn clone(&self) -> (res: Self)
        ensures
            res@ == self@,
    {
        TaskId(self.0.clone())
    }
}

impl TaskId {
    /// Whether two identifiers are equal.
    pub fn same(&self, other: &TaskId) -> (res: bool)
        ensures
            res == (self@ == other@),
    {
        str_eq(self.0.as_str(), other.0.as_str())
    }
}

/// The views of a list of identifiers.
pub open spec fn ids_view(ids: Seq<TaskId>) -> Seq<Seq<char>> {
    ids.map_values(|t: TaskId| t@)
}

/// Whether `ids` holds `id`.
pub fn contains_id(ids: &Vec<TaskId>, id: &TaskId) -> (res: bool)
    ensures
        res == ids_view(ids@).contains(id@),
{
    let mut i: usize = 0;
    while i < ids.len()
        invariant
            i <= ids.len(),
            forall|j: int| 0 <= j < i ==> ids@[j]@ != id@,
        decreases ids.len() - i,
    {
        if ids[i].same(id) {
            assert(ids_view(ids@)[i as int] == id@);
            return true;
        }
        i = i + 1;
    }
    assert forall|j: int| 0 <= j < ids_view(ids@).len() implies ids_view(ids@)[j] != id@ by {
        assert(ids_view(ids@)[j] == ids@[j]@);
    }
    false
}

/// Copies a list of identifiers.
pub fn clone_ids(ids: &Vec<TaskId>) -> (res: Vec<TaskId>)
    ensures
        ids_view(res@) == ids_view(ids@),
{
    let mut out: Vec<TaskId> = Vec::new();
    let mut i: usize = 0;
    while i < ids.len()
        invariant
            i <= ids.len(),
            out@.len() == i,
            forall|j: int| 0 <= j < i ==> out@[j]@ == ids@[j]@,
        decreases ids.len() - i,
    {
        out.push(ids[i].clone());
        i = i + 1;
    }
    assert(ids_view(out@) =~= ids_view(ids@));
    out
}

fn clone_opt_string(s: &Option<String>) -> (res: Option<String>)
    ensures
        match (s, res) {
            (Some(a), Some(b)) => a@ == b@,
            (None, None) => true,
            _ => false,
        },
{
    match s {
        Some(x) => Some(x.clone()),
        None => None,
    }
}

/// The view of an optional string.
pub open spec fn opt_view(s: Option<String>) -> Option<Seq<char>> {
    match s {
        Some(x) => Some(x@),
        None => None,
    }
}

/// A unit of work in a plan; `tool_args` and `metadata` are JSON text.
#[derive(Debug)]
pub struct TaskNode {
    pub id: TaskId,
    pub name: String,
    pub description: String,
    pub tool_name: Option<String>,
    pub tool_args: Option<String>,
    pub dependencies: Vec<TaskId>,
    pub metadata: String,
}

/// The mathematical content of a task.
pub struct TaskNodeView {
    pub id: Seq<char>,
    pub name: Seq<char>,
    pub description: Seq<char>,
    pub tool_name: Option<Seq<char>>,
    pub tool_args: Option<Seq<char>>,
    pub dependencies: Seq<Seq<char>>,
    pub metadata: Seq<char>,
}

impl View for TaskNode {
    type V = TaskNodeView;

    open spec fn view(&self) -> TaskNodeView {
        TaskNodeView {
            id: self.id@,
            name: self.name@,
            description: self.description@,
            tool_name: opt_view(self.tool_name),
            tool_args: opt_view(self.tool_args),
            dependencies: ids_view(self.dependencies@),
            metadata: self.metadata@,
        }
    }
}

impl Clone for TaskNode {
    fn clone(&self) -> (res: Self)
        ensures
            res@ == self@,
    {
        let tool_name = clone_opt_string(&self.tool_name);
        let tool_args = clone_opt_string(&self.tool_args);
        TaskNode {
            id: self.id.clone(),
            name: self.name.clone(),
            description: self.description.clone(),
            tool_name,
            tool_args,
            dependencies: clone_ids(&self.dependencies),
            metadata: self.metadata.clone(),
        }
    }
}

/// The views of a list of tasks.
pub open spec fn tasks_view(tasks: Seq<TaskNode>) -> Seq<TaskNodeView> {
    tasks.map_values(|t: TaskNode| t@)
}

/// The position of the first task with identifier `id`.
pub open spec fn index_of_task(tasks: Seq<TaskNodeView>, id: Seq<char>) -> Option<int>
    decreases tasks.len(),
{
    if tasks.len() == 0 {
        None
    } else if tasks.last().id == id && index_of_task(tasks.drop_last(), id) is None {
        Some(tasks.len() - 1)
    } else {
        index_of_task(tasks.drop_last(), id)
    }
}

pub proof fn lemma_index_of_task(tasks: Seq<TaskNodeView>, id: Seq<char>)
    ensures
        match index_of_task(tasks, id) {
            Some(i) => 0 <= i < tasks.len() && tasks[i].id == id && forall|j: int| 0 <= j < i ==> tasks[j].id != id,
            None => forall|j: int| 0 <= j < tasks.len() ==> tasks[j].id != id,
        },
    decreases tasks.len(),
{
    if tasks.len() > 0 {
        let p = tasks.drop_last();
        lemma_index_of_task(p, id);
        assert(forall|j: int| 0 <= j < p.len() ==> p[j] == tasks[j]);
    }
}

proof fn lemma_index_of_first_task(tasks: Seq<TaskNodeView>, id: Seq<char>, i: int)
    requires
        0 <= i < tasks.len(),
        tasks[i].id == id,
        forall|j: int| 0 <= j < i ==> tasks[j].id != id,
    ensures
        index_of_task(tasks, id) == Some(i),
{
    lemma_index_of_task(tasks, id);
    match index_of_task(tasks, id) {
        Some(k) => {
            if k < i {
                assert(tasks[k].id != id);
            } else if k > i {
                assert(tasks[i].id != id);
            }
        },
        None => {
            assert(tasks[i].id != id);
        },
    }
}

/// The tasks after adding `node`: a task with the same identifier is replaced
/// in place, otherwise the task is added at the end (map insertion).
pub open spec fn add_task_spec(tasks: Seq<TaskNodeView>, node: TaskNodeView) -> Seq<TaskNodeView> {
    match index_of_task(tasks, node.id) {
        Some(i) => tasks.update(i, node),
        None => tasks.push(node),
    }
}

/// No two tasks share an identifier.
pub open spec fn task_ids_unique(tasks: Seq<TaskNodeView>) -> bool {
    forall|i: int, j: int| 0 <= i < j < tasks.len() ==> tasks[i].id != tasks[j].id
}

/// Law: adding a task keeps task identifiers unique.
pub proof fn lemma_add_task_keeps_ids_unique(tasks: Seq<TaskNodeView>, node: TaskNodeView)
    requires
        task_ids_unique(tasks),
    ensures
        task_ids_unique(add_task_spec(tasks, node)),
{
    lemma_index_of_task(tasks, node.id);
}

/// Law: keeping the tasks that pass a test keeps task identifiers unique.
pub proof fn lemma_filter_keeps_ids_unique(tasks: Seq<TaskNodeView>, f: spec_fn(TaskNodeView) -> bool)
    requires
        task_ids_unique(tasks),
    ensures
        task_ids_unique(tasks.filter(f)),
    decreases tasks.len(),
{
    broadcast use vstd::seq_lib::group_filter_ensures;
    reveal_with_fuel(Seq::<_>::filter, 1);
    if tasks.len() > 0 {
        let p = tasks.drop_last();
        let x = tasks.last();
        assert(task_ids_unique(p));
        lemma_filter_keeps_ids_unique(p, f);
        if f(x) {
            let fp = p.filter(f);
            assert(tasks.filter(f) == fp.push(x));
            assert forall|i: int| 0 <= i < fp.len() implies fp[i].id != x.id by {
                assert(fp.contains(fp[i]));
                p.lemma_filter_contains_rev(f, fp[i]);
                let k = choose|k: int| 0 <= k < p.len() && p[k] == fp[i];
                assert(tasks[k] == p[k]);
                assert(tasks[tasks.len() - 1] == x);
                assert(k < tasks.len() - 1);
            }
        }
    }
}

/// A plan produced by a planner: its tasks, any text the planner produced,
/// and whether a user must approve it before it runs.
#[derive(Debug)]
pub struct ExecutionPlan {
    pub tasks: Vec<TaskNode>,
    pub content: String,
    pub requires_approval: bool,
    pub usage: Option<Usage>,
}

impl ExecutionPlan {
    /// The plan's invariant: no two tasks share an identifier, as in a map
    /// keyed by identifier.
    pub open spec fn wf(&self) -> bool {
        task_ids_unique(tasks_view(self.tasks@))
    }

    pub fn new() -> (res: Self)
        ensures
            res.wf(),
            res.tasks@.len() == 0,
            res.content@.len() == 0,
            !res.requires_approval,
            res.usage is None,
    {
        ExecutionPlan { tasks: Vec::new(), content: String::new(), requires_approval: false, usage: None }
    }

    /// The position of the task with identifier `id`.
    pub fn position(&self, id: &TaskId) -> (res: Option<usize>)
        ensures
            match res {
                Some(i) => index_of_task(tasks_view(self.tasks@), id@) == Some(i as int) && i < self.tasks@.len(),
                None => index_of_task(tasks_view(self.tasks@), id@) is None,
            },
    {
        let ghost tv = tasks_view(self.tasks@);
        proof {
            lemma_index_of_task(tv, id@);
        }
        let mut i: usize = 0;
        while i < self.tasks.len()
            invariant
                i <= self.tasks.len(),
                tv == tasks_view(self.tasks@),
                forall|j: int| 0 <= j < i ==> tv[j].id != id@,
            decreases self.tasks.len() - i,
        {
            if self.tasks[i].id.same(id) {
                proof {
                    lemma_index_of_first_task(tv, id@, i as int);
                }
                return Some(i);
            }
            i = i + 1;
        }
        proof {
            if let Some(k) = index_of_task(tv, id@) {
                assert(tv[k].id != id@);
            }
        }
        None
    }

    /// Adds a task; a task with the same identifier is replaced.
    pub fn add_task(&mut self, node: TaskNode)
        ensures
            tasks_view(final(self).tasks@) == add_task_spec(tasks_view(old(self).tasks@), node@),
            old(self).wf() ==> final(self).wf(),
            final(self).content@ == old(self).content@,
            final(self).requires_approval == old(self).requires_approval,
    {
        let ghost nv = node@;
        proof {
            if old(self).wf() {
                lemma_add_task_keeps_ids_unique(tasks_view(old(self).tasks@), nv);
            }
        }
        match self.position(&node.id) {
            Some(i) => {
                self.tasks.set(i, node);
                assert(tasks_view(self.tasks@) =~= tasks_view(old(self).tasks@).update(i as int, nv));
            },
            None => {
                self.tasks.push(node);
                assert(tasks_view(self.tasks@) =~= tasks_view(old(self).tasks@).push(nv));
            },
        }
    }
}

/// A task may start: it has not run yet and every dependency has completed.
pub open spec fn task_ready(t: TaskNodeView, done: Seq<Seq<char>>) -> bool {
    &&& !done.contains(t.id)
    &&& forall|i: int| 0 <= i < t.dependencies.len() ==> done.contains(#[trigger] t.dependencies[i])
}

/// The readiness test as a predicate on tasks.
pub open spec fn ready_pred(done: Seq<Seq<char>>) -> spec_fn(TaskNodeView) -> bool {
    |t: TaskNodeView| task_ready(t, done)
}

/// Every task of the plan has completed (an empty plan is complete).
pub open spec fn plan_complete(tasks: Seq<TaskNodeView>, done: Seq<Seq<char>>) -> bool {
    tasks.len() == 0 || forall|i: int| 0 <= i < tasks.len() ==> done.contains(#[trigger] tasks[i].id)
}

/// The dependency graph of a plan.
#[derive(Debug)]
pub struct TaskGraph {
    pub plan: ExecutionPlan,
}

impl TaskGraph {
    pub fn new(plan: ExecutionPlan) -> (res: Self)
        ensures
            tasks_view(res.plan.tasks@) == tasks_view(plan.tasks@),
            res.plan.wf() == plan.wf(),
            res.plan.content@ == plan.content@,
            res.plan.requires_approval == plan.requires_approval,
    {
        TaskGraph { plan }
    }

    /// The tasks of the graph as mathematical values.
    pub open spec fn tasks(&self) -> Seq<TaskNodeView> {
        tasks_view(self.plan.tasks@)
    }

    fn task_is_ready(t: &TaskNode, completed: &Vec<TaskId>) -> (res: bool)
        ensures
            res == task_ready(t@, ids_view(completed@)),
    {
        if contains_id(completed, &t.id) {
            return false;
        }
        let mut i: usize = 0;
        while i < t.dependencies.len()
            invariant
                i <= t.dependencies.len(),
                forall|j: int| 0 <= j < i ==> ids_view(completed@).contains(#[trigger] ids_view(t.dependencies@)[j]),
            decreases t.dependencies.len() - i,
        {
            if !contains_id(completed, &t.dependencies[i]) {
                assert(ids_view(t.dependencies@)[i as int] == t.dependencies@[i as int]@);
                assert(t@.dependencies[i as int] == t.dependencies@[i as int]@);
                assert(!ids_view(completed@).contains(t@.dependencies[i as int]));
                assert(!task_ready(t@, ids_view(completed@)));
                return false;
            }
            assert(ids_view(t.dependencies@)[i as int] == t.dependencies@[i as int]@);
            i = i + 1;
        }
        true
    }

    /// The tasks that have not completed and whose dependencies all have, in
    /// plan order.
    pub fn get_ready_tasks(&self, completed: &Vec<TaskId>) -> (res: Vec<TaskNode>)
        ensures
            tasks_view(res@) == self.tasks().filter(ready_pred(ids_view(completed@))),
            self.plan.wf() ==> task_ids_unique(tasks_view(res@)),
    {
        let ghost f = ready_pred(ids_view(completed@));
        let ghost all = self.tasks();
        let mut out: Vec<TaskNode> = Vec::new();
        let mut i: usize = 0;
        assert(all.take(0).filter(f) =~= Seq::<TaskNodeView>::empty()) by {
            reveal_with_fuel(Seq::<_>::filter, 1);
        }
        assert(tasks_view(out@) =~= all.take(0).filter(f));
        while i < self.plan.tasks.len()
            invariant
                i <= self.plan.tasks.len(),
                all == self.tasks(),
                f == ready_pred(ids_view(completed@)),
                tasks_view(out@) == all.take(i as int).filter(f),
            decreases self.plan.tasks.len() - i,
        {
            let t = &self.plan.tasks[i];
            let ghost item = all[i as int];
            assert(item == t@);
            proof {
                reveal_with_fuel(Seq::<_>::filter, 1);
                assert(all.take(i + 1).drop_last() =~= all.take(i as int));
                assert(all.take(i + 1).last() == item);
                assert(all.take(i + 1).filter(f) == if f(item) {
                    all.take(i as int).filter(f).push(item)
                } else {
                    all.take(i as int).filter(f)
                });
            }
            if Self::task_is_ready(t, completed) {
                out.push(t.clone());
                assert(tasks_view(out@) =~= all.take(i as int).filter(f).push(item));
            }
            i = i + 1;
        }
        assert(all.take(self.plan.tasks.len() as int) =~= all);
        proof {
            if self.plan.wf() {
                lemma_filter_keeps_ids_unique(all, f);
            }
        }
        out
    }

    /// Whether every task has completed; a graph without tasks is complete.
    pub fn is_complete(&self, completed: &Vec<TaskId>) -> (res: bool)
        ensures
            res == plan_complete(self.tasks(), ids_view(completed@)),
    {
        let ghost all = self.tasks();
        if self.plan.tasks.len() == 0 {
            return true;
        }
        let mut i: usize = 0;
        while i < self.plan.tasks.len()
            invariant
                i <= self.plan.tasks.len(),
                all == self.tasks(),
                forall|j: int| 0 <= j < i ==> ids_view(completed@).contains(#[trigger] all[j].id),
            decreases self.plan.tasks.len() - i,
        {
            if !contains_id(completed, &self.plan.tasks[i].id) {
                assert(all[i as int].id == self.plan.tasks@[i as int].id@);
                return false;
            }
            i = i + 1;
        }
        true
    }
}

} // verus!
