//! The goal and state of one agent run.
use vstd::prelude::*;
use crate::context::Context;
use crate::text::owned;

verus! {

/// What the user asked for.
#[derive(Debug, Clone)]
pub struct Goal {
    pub description: String,
}

/// The state of a run: its goal, the context so far, and whether it is done.
#[derive(Debug, Clone)]
pub struct AgentState {
    pub goal: Goal,
    pub context: Context,
    pub is_complete: bool,
}

impl AgentState {
    pub fn new(goal: &str, context: Context) -> (res: Self)
        ensures
            res.goal.description@ == goal@,
            res.context.items@ == context.items@,
            !res.is_complete,
    {
        AgentState { goal: Goal { description: owned(goal) }, context, is_complete: false }
    }
}

} // verus!
