//! Middlewares: the ordered chain they run in, and the middlewares whose
//! decisions are pure (safety gate, argument redaction, plan tracking).
use vstd::prelude::*;
use crate::context::{Request, ToolCall, ToolDefinition};
use crate::tools::ToolSchema;
use crate::text::{chars_of, concat3, contains_exec, contains_string, lowercase_spec, occurs, owned, to_lowercase};

pub mod todo;

verus! {

/// The priority a middleware runs at unless it says otherwise; lower runs first.
pub const DEFAULT_PRIORITY: i32 = 10;

/// The first position at or after `i` whose priority is above `p`.
pub open spec fn first_above<M>(s: Seq<(i32, M)>, p: i32, i: int) -> int
    decreases s.len() - i,
{
    if i < 0 || i >= s.len() {
        s.len() as int
    } else if s[i].0 > p {
        i
    } else {
        first_above(s, p, i + 1)
    }
}

/// Priorities never decrease along the chain.
pub open spec fn sorted_by_priority<M>(s: Seq<(i32, M)>) -> bool {
    forall|i: int, j: int| 0 <= i <= j < s.len() ==> s[i].0 <= s[j].0
}

pub proof fn lemma_first_above<M>(s: Seq<(i32, M)>, p: i32, i: int)
    requires
        0 <= i <= s.len(),
    ensures
        i <= first_above(s, p, i) <= s.len(),
        forall|j: int| i <= j < first_above(s, p, i) ==> s[j].0 <= p,
        first_above(s, p, i) < s.len() ==> s[first_above(s, p, i)].0 > p,
    decreases s.len() - i,
{
    if i < s.len() && s[i].0 <= p {
        lemma_first_above(s, p, i + 1);
    }
}

/// Law: adding a middleware keeps the chain sorted by priority, and the new
/// middleware runs after every middleware of equal or lower priority that was
/// added before it and before every one of higher priority.
pub proof fn lemma_add_keeps_order<M>(s: Seq<(i32, M)>, p: i32, m: M)
    requires
        sorted_by_priority(s),
    ensures
        sorted_by_priority(s.insert(first_above(s, p, 0), (p, m))),
        forall|j: int| 0 <= j < first_above(s, p, 0) ==> s[j].0 <= p,
        forall|j: int| first_above(s, p, 0) <= j < s.len() ==> s[j].0 > p,
{
    lemma_first_above(s, p, 0);
    let k = first_above(s, p, 0);
    let r = s.insert(k, (p, m));
    assert forall|j: int| k <= j < s.len() implies s[j].0 > p by {
        assert(s[k].0 <= s[j].0);
    }
    assert forall|i: int, j: int| 0 <= i <= j < r.len() implies r[i].0 <= r[j].0 by {
        if i < k {
            if j < k {
            } else if j == k {
            } else {
                assert(r[j] == s[j - 1]);
            }
        } else if i == k {
            if j > k {
                assert(r[j] == s[j - 1]);
            }
        } else {
            assert(r[i] == s[i - 1] && r[j] == s[j - 1]);
        }
    }
}

/// Middlewares ordered by priority; equal priorities keep the order in which
/// they were added (pushing and then sorting stably by priority).
pub struct MiddlewareChain<M> {
    pub entries: Vec<(i32, M)>,
}

impl<M> View for MiddlewareChain<M> {
    type V = Seq<(i32, M)>;

    open spec fn view(&self) -> Seq<(i32, M)> {
        self.entries@
    }
}

impl<M> MiddlewareChain<M> {
    pub fn new() -> (res: Self)
        ensures
            res@.len() == 0,
    {
        MiddlewareChain { entries: Vec::new() }
    }

    /// Adds `middleware` at its place in priority order.
    pub fn add(&mut self, priority: i32, middleware: M)
        ensures
            final(self)@ == old(self)@.insert(first_above(old(self)@, priority, 0), (priority, middleware)),
    {
        let mut i: usize = 0;
        while i < self.entries.len() && self.entries[i].0 <= priority
            invariant
                i <= self.entries.len(),
                self.entries@ == old(self).entries@,
                first_above(old(self)@, priority, 0) == first_above(old(self)@, priority, i as int),
            decreases self.entries.len() - i,
        {
            i = i + 1;
        }
        self.entries.insert(i, (priority, middleware));
    }

    /// The number of middlewares.
    pub fn len(&self) -> (res: usize)
        ensures
            res == self@.len(),
    {
        self.entries.len()
    }

    /// The middleware at position `i` in running order.
    pub fn get(&self, i: usize) -> (res: &M)
        requires
            i < self@.len(),
        ensures
            *res == self@[i as int].1,
    {
        &self.entries[i].1
    }
}

/// Blocks the tools it names.
pub struct SafetyMiddleware {
    pub forbidden_tools: Vec<String>,
}

/// The message for a tool blocked by the safety middleware.
pub open spec fn forbidden_message(name: Seq<char>) -> Seq<char> {
    "Security: Tool '"@ + name + "' is forbidden by SafetyMiddleware."@
}

impl SafetyMiddleware {
    pub fn new(forbidden: Vec<String>) -> (res: Self)
        ensures
            res.forbidden_tools@ == forbidden@,
    {
        SafetyMiddleware { forbidden_tools: forbidden }
    }

    pub fn name(&self) -> (res: &'static str)
        ensures
            res@ == "Safety"@,
    {
        "Safety"
    }

    /// Refuses a call of a forbidden tool.
    pub fn before_tool_call(&self, tool: &ToolCall) -> (res: Result<(), String>)
        ensures
            res is Err <==> exists|i: int| 0 <= i < self.forbidden_tools@.len() && self.forbidden_tools@[i]@ == tool.name@,
            res matches Err(m) ==> m@ == forbidden_message(tool.name@),
    {
        if contains_string(&self.forbidden_tools, tool.name.as_str()) {
            Err(concat3("Security: Tool '", tool.name.as_str(), "' is forbidden by SafetyMiddleware."))
        } else {
            Ok(())
        }
    }
}

/// Logs model and tool traffic; never critical.
pub struct LoggingMiddleware;

/// The key fragments whose arguments are redacted in logs.
pub open spec fn sensitive_fragments() -> Seq<Seq<char>> {
    seq!["key"@, "token"@, "secret"@, "password"@, "auth"@, "credential"@, "api_key"@]
}

/// A key is sensitive when its lowercase form holds one of the fragments.
pub open spec fn is_sensitive_key(key: Seq<char>) -> bool {
    exists|i: int| 0 <= i < sensitive_fragments().len() && occurs(lowercase_spec(key), #[trigger] sensitive_fragments()[i])
}

/// The JSON text that replaces a redacted argument.
pub open spec fn redacted_value() -> Seq<char> {
    "\"[REDACTED]\""@
}

impl LoggingMiddleware {
    pub fn name(&self) -> (res: &'static str)
        ensures
            res@ == "Logging"@,
    {
        "Logging"
    }

    pub fn is_critical(&self) -> (res: bool)
        ensures
            !res,
    {
        false
    }

    /// Whether an argument key must be hidden in logs.
    pub fn is_sensitive_key(key: &str) -> (res: bool)
        ensures
            res == is_sensitive_key(key@),
    {
        let lower = to_lowercase(key);
        let l = chars_of(lower.as_str());
        let frags: [&str; 7] = ["key", "token", "secret", "password", "auth", "credential", "api_key"];
        let mut i: usize = 0;
        while i < 7
            invariant
                i <= 7,
                l@ == lowercase_spec(key@),
                forall|j: int| 0 <= j < 7 ==> frags@[j]@ == #[trigger] sensitive_fragments()[j],
                forall|j: int| 0 <= j < i ==> !occurs(lowercase_spec(key@), #[trigger] sensitive_fragments()[j]),
            decreases 7 - i,
        {
            let f = chars_of(frags[i]);
            if contains_exec(l.as_slice(), f.as_slice()) {
                assert(f@ == sensitive_fragments()[i as int]);
                assert(occurs(lowercase_spec(key@), sensitive_fragments()[i as int]));
                return true;
            }
            i = i + 1;
        }
        false
    }

    /// The tool arguments as logged: every member with a sensitive key has its
    /// value replaced by the string "[REDACTED]". Members are JSON text.
    pub fn redact_arguments(entries: &Vec<(String, String)>) -> (res: Vec<(String, String)>)
        ensures
            res@.len() == entries@.len(),
            forall|i: int| 0 <= i < entries@.len() ==> {
                &&& (#[trigger] res@[i]).0@ == entries@[i].0@
                &&& res@[i].1@ == if is_sensitive_key(entries@[i].0@) {
                    redacted_value()
                } else {
                    entries@[i].1@
                }
            },
    {
        let mut out: Vec<(String, String)> = Vec::new();
        let mut i: usize = 0;
        while i < entries.len()
            invariant
                i <= entries.len(),
                out@.len() == i,
                forall|j: int| 0 <= j < i ==> {
                    &&& (#[trigger] out@[j]).0@ == entries@[j].0@
                    &&& out@[j].1@ == if is_sensitive_key(entries@[j].0@) {
                        redacted_value()
                    } else {
                        entries@[j].1@
                    }
                },
            decreases entries.len() - i,
        {
            let key = entries[i].0.clone();
            let value = if Self::is_sensitive_key(key.as_str()) {
                owned("\"[REDACTED]\"")
            } else {
                entries[i].1.clone()
            };
            out.push((key, value));
            i = i + 1;
        }
        out
    }
}

/// Offers the registered tools to the model on every call.
pub struct ToolDiscoveryMiddleware<R> {
    pub tools: R,
}

impl<R> ToolDiscoveryMiddleware<R> {
    pub fn new(tools: R) -> (res: Self)
        ensures
            res.tools == tools,
    {
        ToolDiscoveryMiddleware { tools }
    }

    pub fn name(&self) -> (res: &'static str)
        ensures
            res@ == "ToolDiscovery"@,
    {
        "ToolDiscovery"
    }

    pub fn is_critical(&self) -> (res: bool)
        ensures
            !res,
    {
        false
    }

    /// Appends the schemas of the registered tools to the request's tools.
    pub fn before_ai_call(&self, req: &mut Request, schemas: Vec<ToolSchema>)
        ensures
            final(req).prompt == old(req).prompt,
            final(req).context == old(req).context,
            final(req).tools@.len() == old(req).tools@.len() + schemas@.len(),
            forall|i: int| 0 <= i < old(req).tools@.len() ==> final(req).tools@[i] == old(req).tools@[i],
            forall|i: int| 0 <= i < schemas@.len() ==> {
                let d = #[trigger] final(req).tools@[old(req).tools@.len() + i];
                &&& d.name == schemas@[i].name
                &&& d.description == schemas@[i].description
                &&& d.parameters == schemas@[i].parameters
            },
    {
        let ghost start = req.tools@;
        let ghost sv = schemas@;
        let n = schemas.len();
        assert(sv.len() == n);
        let mut rest = schemas;
        let mut k: usize = 0;
        while rest.len() > 0
            invariant
                k + rest@.len() == sv.len(),
                sv.len() <= usize::MAX,
                rest@ == sv.subrange(k as int, sv.len() as int),
                req.prompt == old(req).prompt,
                req.context == old(req).context,
                req.tools@.len() == start.len() + k,
                start == old(req).tools@,
                forall|i: int| 0 <= i < start.len() ==> req.tools@[i] == start[i],
                forall|i: int| 0 <= i < k ==> {
                    let d = #[trigger] req.tools@[start.len() + i];
                    &&& d.name == sv[i].name
                    &&& d.description == sv[i].description
                    &&& d.parameters == sv[i].parameters
                },
            decreases rest@.len(),
        {
            let t = rest.remove(0);
            assert(t == sv[k as int]);
            req.tools.push(ToolDefinition { name: t.name, description: t.description, parameters: t.parameters });
            proof {
                assert(rest@ =~= sv.subrange(k as int + 1, sv.len() as int));
            }
            k = k + 1;
        }
    }
}

} // verus!
