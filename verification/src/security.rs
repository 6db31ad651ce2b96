//! Prompt sanitisation and the tool allowlist.
use vstd::prelude::*;
use crate::text::{chars_of, concat3, contains_string, has_char, lemma_replace_absent, lemma_replace_from_no_occurrence, occurs, replace_all, replace_all_exec, string_from_chars};

verus! {

/// A capability that a policy can grant.
#[derive(Debug, Clone, Copy, PartialEq, Eq, Structural)]
pub enum Capability {
    FileRead,
    FileWrite,
    Network,
    ShellRestricted,
}

impl Default for Capability {
    fn default() -> (res: Self)
        ensures
            res == Capability::FileRead,
    {
        Capability::FileRead
    }
}

/// The capabilities and tools that an agent may use.
#[derive(Debug, Clone)]
pub struct Policy {
    pub allowed_capabilities: Vec<Capability>,
    pub tool_allowlist: Vec<String>,
}

impl Default for Policy {
    fn default() -> (res: Self)
        ensures
            res.allowed_capabilities@.len() == 0,
            res.tool_allowlist@.len() == 0,
    {
        Policy { allowed_capabilities: Vec::new(), tool_allowlist: Vec::new() }
    }
}

impl Policy {
    pub fn new(allowed_capabilities: Vec<Capability>, tool_allowlist: Vec<String>) -> (res: Self)
        ensures
            res.allowed_capabilities@ == allowed_capabilities@,
            res.tool_allowlist@ == tool_allowlist@,
    {
        Policy { allowed_capabilities, tool_allowlist }
    }

    /// The names of the allowed tools.
    pub open spec fn allowlist_view(&self) -> Seq<Seq<char>> {
        self.tool_allowlist@.map_values(|t: String| t@)
    }
}

/// The first phrase that prompt sanitisation removes.
pub open spec fn override_phrase() -> Seq<char> {
    "ignore previous instructions"@
}

/// The second phrase that prompt sanitisation removes.
pub open spec fn system_override_phrase() -> Seq<char> {
    "system override"@
}

/// What a removed phrase is replaced by.
pub open spec fn redaction_marker() -> Seq<char> {
    "[REDACTED]"@
}

/// The sanitised form of a prompt.
pub open spec fn sanitize_spec(prompt: Seq<char>) -> Seq<char> {
    replace_all(
        replace_all(prompt, override_phrase(), redaction_marker()),
        system_override_phrase(),
        redaction_marker(),
    )
}

/// Whether a tool may be called under an allowlist: only the tools it names
/// may be called, so an empty list allows none.
pub open spec fn tool_allowed(allowlist: Seq<Seq<char>>, name: Seq<char>) -> bool {
    allowlist.contains(name)
}

/// The message for a tool refused by the allowlist.
pub open spec fn not_allowlisted_message(name: Seq<char>) -> Seq<char> {
    "Security: Tool '"@ + name + "' is not in the allowlist."@
}

/// Enforces a policy on prompts and tool calls.
pub struct SecurityEngine {
    pub policy: Policy,
}

proof fn lemma_phrase_facts()
    ensures
        override_phrase().len() == 28,
        system_override_phrase().len() == 15,
        redaction_marker().len() == 10,
        redaction_marker()[0] == '[',
        redaction_marker().last() == ']',
        !has_char(override_phrase(), '['),
        !has_char(override_phrase(), ']'),
        !has_char(system_override_phrase(), '['),
        !has_char(system_override_phrase(), ']'),
        !occurs(redaction_marker(), override_phrase()),
        !occurs(redaction_marker(), system_override_phrase()),
{
    reveal_strlit("ignore previous instructions");
    reveal_strlit("system override");
    reveal_strlit("[REDACTED]");
    assert(!has_char(override_phrase(), '['));
    assert(!has_char(override_phrase(), ']'));
    assert(!has_char(system_override_phrase(), '['));
    assert(!has_char(system_override_phrase(), ']'));
}

/// Law: a sanitised prompt holds neither of the phrases that sanitisation
/// removes, whatever the prompt was.
pub proof fn lemma_sanitized_prompt_is_clean(prompt: Seq<char>)
    ensures
        !occurs(sanitize_spec(prompt), override_phrase()),
        !occurs(sanitize_spec(prompt), system_override_phrase()),
{
    lemma_phrase_facts();
    let t1 = replace_all(prompt, override_phrase(), redaction_marker());
    lemma_replace_from_no_occurrence(prompt, override_phrase(), redaction_marker(), override_phrase(), 0);
    lemma_replace_from_no_occurrence(t1, system_override_phrase(), redaction_marker(), system_override_phrase(), 0);
    lemma_replace_from_no_occurrence(t1, system_override_phrase(), redaction_marker(), override_phrase(), 0);
}

/// Law: a prompt that holds neither phrase passes sanitisation unchanged.
pub proof fn lemma_clean_prompt_unchanged(prompt: Seq<char>)
    requires
        !occurs(prompt, override_phrase()),
        !occurs(prompt, system_override_phrase()),
    ensures
        sanitize_spec(prompt) == prompt,
{
    lemma_phrase_facts();
    lemma_replace_absent(prompt, override_phrase(), redaction_marker());
    lemma_replace_absent(prompt, system_override_phrase(), redaction_marker());
}

/// Law: sanitising twice gives the same text as sanitising once.
pub proof fn lemma_sanitize_idempotent(prompt: Seq<char>)
    ensures
        sanitize_spec(sanitize_spec(prompt)) == sanitize_spec(prompt),
{
    lemma_sanitized_prompt_is_clean(prompt);
    lemma_clean_prompt_unchanged(sanitize_spec(prompt));
}

impl SecurityEngine {
    pub fn new(policy: Policy) -> (res: Self)
        ensures
            res.policy.allowed_capabilities@ == policy.allowed_capabilities@,
            res.policy.tool_allowlist@ == policy.tool_allowlist@,
    {
        SecurityEngine { policy }
    }

    /// Replaces the phrases "ignore previous instructions" and then
    /// "system override" by "[REDACTED]".
    pub fn sanitize_prompt(&self, prompt: &str) -> (res: String)
        ensures
            res@ == sanitize_spec(prompt@),
    {
        let p = chars_of(prompt);
        let p1 = chars_of("ignore previous instructions");
        let p2 = chars_of("system override");
        let r = chars_of("[REDACTED]");
        proof {
            lemma_phrase_facts();
        }
        let t1 = replace_all_exec(p.as_slice(), p1.as_slice(), r.as_slice());
        let t2 = replace_all_exec(t1.as_slice(), p2.as_slice(), r.as_slice());
        string_from_chars(t2.as_slice())
    }

    /// Refuses a tool that the allowlist does not name.
    pub fn validate_tool_call(&self, tool_name: &str) -> (res: Result<(), String>)
        ensures
            res is Ok <==> tool_allowed(self.policy.allowlist_view(), tool_name@),
            res matches Err(msg) ==> msg@ == not_allowlisted_message(tool_name@),
    {
        let listed = contains_string(&self.policy.tool_allowlist, tool_name);
        proof {
            let v = self.policy.allowlist_view();
            if listed {
                let i = choose|i: int| 0 <= i < self.policy.tool_allowlist@.len() && self.policy.tool_allowlist@[i]@ == tool_name@;
                assert(v[i] == tool_name@);
            } else {
                assert forall|i: int| 0 <= i < v.len() implies v[i] != tool_name@ by {
                    assert(v[i] == self.policy.tool_allowlist@[i]@);
                }
            }
        }
        if !listed {
            return Err(concat3("Security: Tool '", tool_name, "' is not in the allowlist."));
        }
        Ok(())
    }
}

} // verus!
