//! The round-by-round scheduler behind parallel plan execution.
//!
//! Each round starts every task that is ready (not yet completed, all
//! dependencies completed); the caller runs that round's tasks concurrently and
//! records each result. A plan whose remaining tasks can never become ready is
//! reported as deadlocked.
use vstd::prelude::*;
use crate::execution::graph::{
    contains_id, ids_view, plan_complete, ready_pred, task_ready, tasks_view, TaskGraph, TaskId,
    TaskNode, TaskNodeView,
};

verus! {

/// The outcome of running one task; `output` is JSON text.
#[derive(Debug)]
pub struct ExecutionResult {
    pub task_id: TaskId,
    pub output: String,
    pub success: bool,
}

/// What the scheduler asks for next.
pub enum RoundDecision {
    /// Every task has completed.
    Finished,
    /// These tasks are ready and should be run concurrently.
    Run(Vec<TaskNode>),
    /// Tasks remain but none of them can start.
    Deadlock,
}

/// The message of the error reported for a deadlocked plan.
pub fn deadlock_message() -> (res: String)
    ensures
        res@ == "Deadlock detected in TaskGraph (no ready tasks)"@,
{
    crate::text::owned("Deadlock detected in TaskGraph (no ready tasks)")
}

/// The task identifiers of a list of results.
pub open spec fn result_ids(results: Seq<ExecutionResult>) -> Seq<Seq<char>> {
    results.map_values(|r: ExecutionResult| r.task_id@)
}

/// The identifiers of the tasks of a plan.
pub open spec fn task_ids(tasks: Seq<TaskNodeView>) -> Seq<Seq<char>> {
    tasks.map_values(|t: TaskNodeView| t.id)
}

/// The identifiers of the tasks that have not completed.
pub open spec fn pending(tasks: Seq<TaskNodeView>, done: Seq<Seq<char>>) -> Set<Seq<char>> {
    task_ids(tasks).to_set().difference(done.to_set())
}

/// The completed identifiers after recording a result for `id`.
pub open spec fn record_done(done: Seq<Seq<char>>, id: Seq<char>) -> Seq<Seq<char>> {
    if done.contains(id) {
        done
    } else {
        done.push(id)
    }
}

/// The completed identifiers after recording results for `ids`, in order.
pub open spec fn record_all(done: Seq<Seq<char>>, ids: Seq<Seq<char>>) -> Seq<Seq<char>>
    decreases ids.len(),
{
    if ids.len() == 0 {
        done
    } else {
        record_done(record_all(done, ids.drop_last()), ids.last())
    }
}

/// Law: after recording results, in any order, the completed identifiers
/// are exactly those completed before and those of the results; so recording
/// the results of every task of a round gives the next state of a run.
pub proof fn lemma_record_all(done: Seq<Seq<char>>, ids: Seq<Seq<char>>, x: Seq<char>)
    ensures
        record_all(done, ids).contains(x) <==> (done.contains(x) || ids.contains(x)),
    decreases ids.len(),
{
    if ids.len() > 0 {
        let q = ids.drop_last();
        let l = ids.last();
        lemma_record_all(done, q, x);
        let p = record_all(done, q);
        assert(ids.contains(x) <==> (q.contains(x) || x == l)) by {
            if q.contains(x) {
                let k = choose|k: int| 0 <= k < q.len() && q[k] == x;
                assert(ids[k] == x);
            }
            if x == l {
                assert(ids[ids.len() - 1] == x);
            }
            if ids.contains(x) && x != l {
                let k = choose|k: int| 0 <= k < ids.len() && ids[k] == x;
                assert(k < ids.len() - 1);
                assert(q[k] == x);
            }
        }
        assert(record_done(p, l).contains(x) <==> (p.contains(x) || x == l)) by {
            if !p.contains(l) {
                let r = p.push(l);
                if x == l {
                    assert(r[p.len() as int] == x);
                }
                if p.contains(x) {
                    let k = choose|k: int| 0 <= k < p.len() && p[k] == x;
                    assert(r[k] == x);
                }
                if r.contains(x) && x != l {
                    let k = choose|k: int| 0 <= k < r.len() && r[k] == x;
                    assert(k < p.len());
                    assert(p[k] == x);
                }
            }
        }
    }
}

/// The state of a parallel run: the completed task identifiers and the result
/// recorded for each of them.
pub struct ParallelRun {
    pub completed: Vec<TaskId>,
    pub results: Vec<ExecutionResult>,
}

impl ParallelRun {
    /// Each completed task has exactly one result, in completion order, and no
    /// identifier is completed twice.
    pub open spec fn wf(&self) -> bool {
        &&& result_ids(self.results@) == ids_view(self.completed@)
        &&& ids_view(self.completed@).no_duplicates()
    }

    /// The completed identifiers.
    pub open spec fn done(&self) -> Seq<Seq<char>> {
        ids_view(self.completed@)
    }

    pub fn new() -> (res: Self)
        ensures
            res.wf(),
            res.done().len() == 0,
    {
        let res = ParallelRun { completed: Vec::new(), results: Vec::new() };
        assert(result_ids(res.results@) =~= ids_view(res.completed@));
        res
    }

    /// Decides the next round of `graph`.
    pub fn next_round(&self, graph: &TaskGraph) -> (res: RoundDecision)
        ensures
            match res {
                RoundDecision::Finished => plan_complete(graph.tasks(), self.done()),
                RoundDecision::Run(v) => {
                    &&& !plan_complete(graph.tasks(), self.done())
                    &&& tasks_view(v@) == graph.tasks().filter(ready_pred(self.done()))
                    &&& v@.len() > 0
                },
                RoundDecision::Deadlock => {
                    &&& !plan_complete(graph.tasks(), self.done())
                    &&& graph.tasks().filter(ready_pred(self.done())).len() == 0
                },
            },
    {
        if graph.is_complete(&self.completed) {
            return RoundDecision::Finished;
        }
        let ready = graph.get_ready_tasks(&self.completed);
        if ready.len() == 0 {
            RoundDecision::Deadlock
        } else {
            RoundDecision::Run(ready)
        }
    }

    /// Records the result of a task: its identifier becomes completed (once)
    /// and its result replaces any earlier result for the same identifier.
    pub fn record(&mut self, result: ExecutionResult)
        requires
            old(self).wf(),
        ensures
            final(self).wf(),
            final(self).done() == record_done(old(self).done(), result.task_id@),
    {
        let ghost rid = result.task_id@;
        let mut i: usize = 0;
        while i < self.results.len()
            invariant
                i <= self.results.len(),
                self.results@ == old(self).results@,
                self.completed@ == old(self).completed@,
                rid == result.task_id@,
                old(self).wf(),
                forall|j: int| 0 <= j < i ==> self.results@[j].task_id@ != rid,
            decreases self.results.len() - i,
        {
            if self.results[i].task_id.same(&result.task_id) {
                assert(result_ids(self.results@)[i as int] == rid);
                assert(old(self).done()[i as int] == rid);
                assert(old(self).done().contains(rid));
                self.results.set(i, result);
                assert(result_ids(self.results@) =~= result_ids(old(self).results@));
                return;
            }
            i = i + 1;
        }
        assert(!self.done().contains(rid)) by {
            assert forall|j: int| 0 <= j < self.done().len() implies self.done()[j] != rid by {
                assert(self.done()[j] == result_ids(self.results@)[j]);
            }
        }
        let id = result.task_id.clone();
        self.results.push(result);
        self.completed.push(id);
        assert(result_ids(self.results@) =~= result_ids(old(self).results@).push(rid));
        assert(ids_view(self.completed@) =~= ids_view(old(self).completed@).push(rid));
    }

    /// Records the results of a round, in the order given; afterwards the
    /// completed identifiers are exactly those completed before and those of
    /// the results.
    pub fn record_round(&mut self, results: Vec<ExecutionResult>)
        requires
            old(self).wf(),
        ensures
            final(self).wf(),
            final(self).done() == record_all(old(self).done(), result_ids(results@)),
            forall|x: Seq<char>| #[trigger] final(self).done().contains(x)
                <==> (old(self).done().contains(x) || result_ids(results@).contains(x)),
    {
        let ghost ids = result_ids(results@);
        let mut rest = results;
        let total = rest.len();
        let mut k: usize = 0;
        assert(ids.take(0) =~= Seq::<Seq<char>>::empty());
        while rest.len() > 0
            invariant
                self.wf(),
                k + rest.len() == total,
                ids.len() == total,
                result_ids(rest@) == ids.subrange(k as int, total as int),
                self.done() == record_all(old(self).done(), ids.take(k as int)),
            decreases rest.len(),
        {
            let ghost before = rest@;
            let r = rest.remove(0);
            assert(r.task_id@ == ids[k as int]) by {
                assert(result_ids(before)[0] == ids.subrange(k as int, total as int)[0]);
            }
            self.record(r);
            assert(ids.take(k + 1).drop_last() =~= ids.take(k as int));
            assert(result_ids(rest@) =~= ids.subrange(k + 1, total as int)) by {
                assert forall|i: int| 0 <= i < rest@.len() implies result_ids(rest@)[i] == ids.subrange(k + 1, total as int)[i] by {
                    assert(rest@[i] == before[i + 1]);
                    assert(result_ids(before)[i + 1] == ids.subrange(k as int, total as int)[i + 1]);
                }
            }
            k = k + 1;
        }
        assert(ids.take(total as int) =~= ids);
        assert forall|x: Seq<char>| #[trigger] self.done().contains(x)
            <==> (old(self).done().contains(x) || ids.contains(x)) by {
            lemma_record_all(old(self).done(), ids, x);
        }
    }

    /// The recorded results.
    pub fn into_results(self) -> (res: Vec<ExecutionResult>)
        requires
            self.wf(),
        ensures
            result_ids(res@) == self.done(),
    {
        self.results
    }
}

/// Law: every task started in a round is ready: it has not completed and all
/// of its dependencies have.
pub proof fn lemma_round_tasks_are_ready(tasks: Seq<TaskNodeView>, done: Seq<Seq<char>>, i: int)
    requires
        0 <= i < tasks.filter(ready_pred(done)).len(),
    ensures
        task_ready(tasks.filter(ready_pred(done))[i], done),
        tasks.contains(tasks.filter(ready_pred(done))[i]),
{
    broadcast use vstd::seq_lib::group_filter_ensures;
    let f = tasks.filter(ready_pred(done));
    assert(ready_pred(done)(f[i]));
    assert(f.contains(f[i]));
    tasks.lemma_filter_contains_rev(ready_pred(done), f[i]);
}

/// Law: a plan is complete exactly when no task identifier is pending.
pub proof fn lemma_complete_iff_nothing_pending(tasks: Seq<TaskNodeView>, done: Seq<Seq<char>>)
    ensures
        plan_complete(tasks, done) <==> pending(tasks, done).len() == 0,
        pending(tasks, done).finite(),
{
    let ids = task_ids(tasks);
    let p = pending(tasks, done);
    ids.lemma_cardinality_of_set();
    vstd::set_lib::lemma_len_subset(p, ids.to_set());
    if plan_complete(tasks, done) {
        assert(p =~= Set::<Seq<char>>::empty()) by {
            assert forall|x: Seq<char>| !p.contains(x) by {
                if p.contains(x) {
                    let k = choose|k: int| 0 <= k < ids.len() && ids[k] == x;
                    assert(done.contains(tasks[k].id));
                    assert(done.to_set().contains(x));
                }
            }
        }
    } else {
        let k = choose|k: int| 0 <= k < tasks.len() && !done.contains(#[trigger] tasks[k].id);
        assert(ids[k] == tasks[k].id);
        assert(ids.to_set().contains(ids[k]));
        assert(p.contains(tasks[k].id));
        vstd::set_lib::lemma_set_empty_equivalency_len(p);
    }
}

/// Law (progress): once the results of a non-empty round are recorded, fewer
/// task identifiers are pending than before, so a run finishes or reports a
/// deadlock after at most as many rounds as the plan has task identifiers.
pub proof fn lemma_round_progress(
    tasks: Seq<TaskNodeView>,
    done: Seq<Seq<char>>,
    after: Seq<Seq<char>>,
)
    requires
        tasks.filter(ready_pred(done)).len() > 0,
        forall|x: Seq<char>| done.contains(x) ==> after.contains(x),
        forall|i: int| 0 <= i < tasks.filter(ready_pred(done)).len()
            ==> after.contains(#[trigger] tasks.filter(ready_pred(done))[i].id),
    ensures
        pending(tasks, after).len() < pending(tasks, done).len(),
{
    let ran = tasks.filter(ready_pred(done));
    lemma_round_tasks_are_ready(tasks, done, 0);
    let t = ran[0];
    let k = choose|k: int| 0 <= k < tasks.len() && tasks[k] == t;
    let ids = task_ids(tasks);
    assert(ids[k] == t.id);
    assert(ids.to_set().contains(t.id));
    let p1 = pending(tasks, done);
    let p2 = pending(tasks, after);
    lemma_complete_iff_nothing_pending(tasks, done);
    assert(p1.contains(t.id));
    assert(!p2.contains(t.id)) by {
        assert(after.contains(ran[0].id));
    }
    assert(p2.subset_of(p1.remove(t.id)));
    vstd::set_lib::lemma_len_subset(p2, p1.remove(t.id));
}

/// The plan's dependencies can be ranked: each dependency names a task of
/// the plan whose rank is below the rank of the task that depends on it (the
/// dependency graph is acyclic and has no dangling edges).
pub open spec fn ranked(tasks: Seq<TaskNodeView>, rank: spec_fn(Seq<char>) -> nat) -> bool {
    forall|i: int, k: int|
        0 <= i < tasks.len() && 0 <= k < tasks[i].dependencies.len() ==> {
            &&& exists|j: int| 0 <= j < tasks.len() && tasks[j].id == #[trigger] tasks[i].dependencies[k]
            &&& rank(tasks[i].dependencies[k]) < rank(tasks[i].id)
        }
}

proof fn lemma_ready_at_or_below(
    tasks: Seq<TaskNodeView>,
    done: Seq<Seq<char>>,
    rank: spec_fn(Seq<char>) -> nat,
    i: int,
    r: nat,
)
    requires
        ranked(tasks, rank),
        0 <= i < tasks.len(),
        !done.contains(tasks[i].id),
        rank(tasks[i].id) <= r,
    ensures
        exists|j: int| 0 <= j < tasks.len() && task_ready(#[trigger] tasks[j], done),
    decreases r,
{
    if task_ready(tasks[i], done) {
        assert(task_ready(tasks[i], done));
    } else {
        let deps = tasks[i].dependencies;
        let k = choose|k: int| 0 <= k < deps.len() && !done.contains(#[trigger] deps[k]);
        let d = deps[k];
        assert(exists|j: int| 0 <= j < tasks.len() && tasks[j].id == tasks[i].dependencies[k]);
        let j = choose|j: int| 0 <= j < tasks.len() && tasks[j].id == d;
        assert(rank(d) < rank(tasks[i].id));
        lemma_ready_at_or_below(tasks, done, rank, j, (r - 1) as nat);
    }
}

/// Law: a plan whose dependencies can be ranked never deadlocks: while it is
/// not complete, some task is ready, so every round starts at least one task.
pub proof fn lemma_ranked_plan_never_deadlocks(
    tasks: Seq<TaskNodeView>,
    done: Seq<Seq<char>>,
    rank: spec_fn(Seq<char>) -> nat,
)
    requires
        ranked(tasks, rank),
        !plan_complete(tasks, done),
    ensures
        tasks.filter(ready_pred(done)).len() > 0,
{
    broadcast use vstd::seq_lib::group_filter_ensures;
    let i = choose|i: int| 0 <= i < tasks.len() && !done.contains(#[trigger] tasks[i].id);
    lemma_ready_at_or_below(tasks, done, rank, i, rank(tasks[i].id));
    let j = choose|j: int| 0 <= j < tasks.len() && task_ready(#[trigger] tasks[j], done);
    assert(ready_pred(done)(tasks[j]));
    assert(tasks.contains(tasks[j]));
    let f = tasks.filter(ready_pred(done));
    assert(f.contains(tasks[j]));
}

/// The tasks a round starts when `done` have completed: every ready task, in
/// plan order.
pub open spec fn round_tasks(tasks: Seq<TaskNodeView>, done: Seq<Seq<char>>) -> Seq<TaskNodeView> {
    tasks.filter(ready_pred(done))
}

/// A run of rounds over a plan: `ds[k]` lists the identifiers completed
/// before round `k`; the run starts with none, each round starts at least one
/// task, and after a round exactly the identifiers completed before it and
/// those of the tasks it started are completed.
pub open spec fn valid_run(tasks: Seq<TaskNodeView>, ds: Seq<Seq<Seq<char>>>) -> bool {
    &&& ds.len() > 0
    &&& ds[0].len() == 0
    &&& forall|k: int| 0 <= k < ds.len() - 1 ==> (#[trigger] round_tasks(tasks, ds[k])).len() > 0
    &&& forall|k: int, x: Seq<char>| 0 <= k < ds.len() - 1 ==> (#[trigger] ds[k + 1].contains(x) <==> (ds[k].contains(x)
        || task_ids(round_tasks(tasks, ds[k])).contains(x)))
}

/// Task `id` was started in one of the first `k` rounds of the run.
pub open spec fn started_before(tasks: Seq<TaskNodeView>, ds: Seq<Seq<Seq<char>>>, k: int, id: Seq<char>) -> bool {
    exists|r: int| 0 <= r < k && #[trigger] task_ids(round_tasks(tasks, ds[r])).contains(id)
}

proof fn lemma_completed_are_started(tasks: Seq<TaskNodeView>, ds: Seq<Seq<Seq<char>>>, k: int, x: Seq<char>)
    requires
        valid_run(tasks, ds),
        0 <= k < ds.len(),
    ensures
        ds[k].contains(x) <==> started_before(tasks, ds, k, x),
    decreases k,
{
    if k > 0 {
        lemma_completed_are_started(tasks, ds, k - 1, x);
        let j = k - 1;
        assert(ds[j + 1].contains(x) <==> (ds[j].contains(x) || task_ids(round_tasks(tasks, ds[j])).contains(x)));
        assert(ds[j + 1] == ds[k]);
        if started_before(tasks, ds, k, x) {
            let r = choose|r: int| 0 <= r < k && #[trigger] task_ids(round_tasks(tasks, ds[r])).contains(x);
            if r < k - 1 {
                assert(started_before(tasks, ds, k - 1, x));
            }
        }
    }
}

/// Law (a whole parallel run): in a run of rounds over a plan, no task
/// identifier is started in two rounds; every task starts only after each of
/// its dependencies was started in an earlier round and completed; and when
/// the plan's dependencies can be ranked (acyclic, no dangling edges) and the
/// run stops because no task is ready, the plan is complete and every task of
/// the plan was started in some round. So each task runs exactly once, after
/// its dependencies.
pub proof fn lemma_parallel_run(
    tasks: Seq<TaskNodeView>,
    ds: Seq<Seq<Seq<char>>>,
    rank: spec_fn(Seq<char>) -> nat,
)
    requires
        valid_run(tasks, ds),
    ensures
        forall|k1: int, k2: int, i1: int, i2: int|
            0 <= k1 < k2 < ds.len() && 0 <= i1 < round_tasks(tasks, ds[k1]).len() && 0 <= i2 < round_tasks(tasks, ds[k2]).len()
            ==> #[trigger] round_tasks(tasks, ds[k1])[i1].id != #[trigger] round_tasks(tasks, ds[k2])[i2].id,
        forall|k: int, i: int, d: int|
            0 <= k < ds.len() && 0 <= i < round_tasks(tasks, ds[k]).len() && 0 <= d < round_tasks(tasks, ds[k])[i].dependencies.len()
            ==> ds[k].contains(#[trigger] round_tasks(tasks, ds[k])[i].dependencies[d])
                && started_before(tasks, ds, k, round_tasks(tasks, ds[k])[i].dependencies[d]),
        ranked(tasks, rank) && round_tasks(tasks, ds.last()).len() == 0 ==> {
            &&& plan_complete(tasks, ds.last())
            &&& forall|j: int| 0 <= j < tasks.len() ==> started_before(tasks, ds, ds.len() - 1, #[trigger] tasks[j].id)
        },
{
    broadcast use vstd::seq_lib::group_filter_ensures;
    assert forall|k1: int, k2: int, i1: int, i2: int|
        0 <= k1 < k2 < ds.len() && 0 <= i1 < round_tasks(tasks, ds[k1]).len() && 0 <= i2 < round_tasks(tasks, ds[k2]).len()
        implies #[trigger] round_tasks(tasks, ds[k1])[i1].id != #[trigger] round_tasks(tasks, ds[k2])[i2].id by {
        let t1 = round_tasks(tasks, ds[k1])[i1];
        let t2 = round_tasks(tasks, ds[k2])[i2];
        let ids1 = task_ids(round_tasks(tasks, ds[k1]));
        assert(ids1.len() == round_tasks(tasks, ds[k1]).len());
        assert(ids1[i1] == t1.id);
        assert(ids1.contains(t1.id));
        assert(started_before(tasks, ds, k2, t1.id));
        lemma_completed_are_started(tasks, ds, k2, t1.id);
        lemma_round_tasks_are_ready(tasks, ds[k2], i2);
    }
    assert forall|k: int, i: int, d: int|
        0 <= k < ds.len() && 0 <= i < round_tasks(tasks, ds[k]).len() && 0 <= d < round_tasks(tasks, ds[k])[i].dependencies.len()
        implies ds[k].contains(#[trigger] round_tasks(tasks, ds[k])[i].dependencies[d])
            && started_before(tasks, ds, k, round_tasks(tasks, ds[k])[i].dependencies[d]) by {
        lemma_round_tasks_are_ready(tasks, ds[k], i);
        lemma_completed_are_started(tasks, ds, k, round_tasks(tasks, ds[k])[i].dependencies[d]);
    }
    if ranked(tasks, rank) && round_tasks(tasks, ds.last()).len() == 0 {
        if !plan_complete(tasks, ds.last()) {
            lemma_ranked_plan_never_deadlocks(tasks, ds.last(), rank);
        }
        assert forall|j: int| 0 <= j < tasks.len() implies started_before(tasks, ds, ds.len() - 1, #[trigger] tasks[j].id) by {
            assert(ds.last().contains(tasks[j].id));
            lemma_completed_are_started(tasks, ds, ds.len() - 1, tasks[j].id);
        }
    }
}

} // verus!
