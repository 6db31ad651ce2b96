//! A registry-backed executor interface for applications that register the
//! tools of each server in one place, and the execution modes they name.
use vstd::prelude::*;
use crate::tools::registry::{register_spec, ToolRegistry};
use crate::text::owned;

verus! {

/// How such applications name an execution mode.
#[derive(Debug, Clone)]
pub enum ExecutionMode {
    Local,
    Docker { image: String },
    Wasm { module: String, mount_root: bool, env_vars: Vec<(String, String)> },
}

/// Tools gathered from several servers into one registry.
pub struct MultiExecutor<T> {
    pub registry: ToolRegistry<T>,
}

impl<T> MultiExecutor<T> {
    /// An executor with no tools.
    pub fn new() -> (res: Self)
        ensures
            res.registry@.len() == 0,
    {
        MultiExecutor { registry: ToolRegistry::new() }
    }

    /// Registers one tool under its name and source.
    pub fn add_tool(&mut self, name: String, source: String, tool: T)
        ensures
            final(self).registry@ == register_spec(old(self).registry@, name@, source@, tool),
    {
        self.registry.register(name, source, tool);
    }

    /// Registers the tools a server listed, in order, as `(name, source, tool)`.
    pub fn add_executor(&mut self, tools: Vec<(String, String, T)>)
        ensures
            final(self).registry@ == registered_all(old(self).registry@, tools@),
    {
        let ghost start = self.registry@;
        let ghost all = tools@;
        let n = tools.len();
        assert(all.len() == n);
        let mut rest = tools;
        let mut k: usize = 0;
        while rest.len() > 0
            invariant
                k + rest@.len() == all.len(),
                all.len() <= usize::MAX,
                rest@ == all.subrange(k as int, all.len() as int),
                self.registry@ == registered_all(start, all.subrange(0, k as int)),
            decreases rest@.len(),
        {
            let (name, source, tool) = rest.remove(0);
            proof {
                assert(all.subrange(0, k as int + 1).drop_last() =~= all.subrange(0, k as int));
                assert(all.subrange(0, k as int + 1).last() == (name, source, tool));
            }
            self.registry.register(name, source, tool);
            proof {
                assert(rest@ =~= all.subrange(k as int + 1, all.len() as int));
            }
            k = k + 1;
        }
        assert(all.subrange(0, all.len() as int) =~= all);
    }

    /// The executors as such applications list them: one running filesystem
    /// server.
    pub fn list_executors(&self) -> (res: Vec<(String, bool, String)>)
        ensures
            res@.len() == 1,
            res@[0].0@ == "mcp:filesystem"@,
            res@[0].1,
            res@[0].2@ == "Running"@,
    {
        vec![(owned("mcp:filesystem"), true, owned("Running"))]
    }
}

/// The registry after registering `tools` one after the other.
pub open spec fn registered_all<T>(s: Seq<(Seq<char>, Seq<char>, T)>, tools: Seq<(String, String, T)>) -> Seq<(Seq<char>, Seq<char>, T)>
    decreases tools.len(),
{
    if tools.len() == 0 {
        s
    } else {
        let last = tools.last();
        register_spec(registered_all(s, tools.drop_last()), last.0@, last.1@, last.2)
    }
}

} // verus!
