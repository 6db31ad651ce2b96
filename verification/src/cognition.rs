//! Planning and judging: the critic's prompt and the reading of its answer.
//! The planner and the critic are traits whose implementations call models;
//! a critic's verdict carries a floating-point score and is read outside.
use vstd::prelude::*;
use crate::text::{chars_of, concat2, find_exec, find_spec, owned, push_str, slice_chars, string_from_chars};

verus! {

/// The critic that calls a model of type `P` to judge the results.
pub struct LlmCritic<P> {
    pub provider: P,
}

impl<P> LlmCritic<P> {
    pub fn new(provider: P) -> (res: Self)
        ensures
            res.provider == provider,
    {
        LlmCritic { provider }
    }
}

/// The critic that accepts every result.
pub struct DefaultCritic;

/// The critic's verdict text when every result is accepted.
pub fn default_critique() -> (res: String)
    ensures
        res@ == "Success"@,
{
    owned("Success")
}

/// The prompt that asks a model to judge whether the goal is reached;
/// `context_json` and `results_json` are the context and the results as
/// indented JSON.
pub open spec fn critic_prompt_spec(goal: Seq<char>, context_json: Seq<char>, results_json: Seq<char>) -> Seq<char> {
    "You are the Critic Module of a Cognitive Agent.\nYour task is to evaluate if the high-level user goal has been fully achieved based on the execution results of the planned tasks.\n\n### GOAL ###\n"@ + goal + "\n\n### CONTEXT ###\n"@ + context_json + "\n\n### EXECUTION RESULTS ###\n"@ + results_json + "\n\n### INSTRUCTIONS ###\n1. Assess if the user's explicit goal is fully met.\n2. DECISIVENESS: If the goal is to \"research\" or \"find\" something, and the results are present in the context, the goal is ACHIEVED. DO NOT suggest a retry just for \"more details\" unless the user explicitly asked for them.\n3. NO PEDANTRY: If the user asked for a list and you have a list, the goal is achieved.\n4. If most tasks succeeded and the core objective is met, give a high score (0.95-1.0).\n5. Output your response as a SINGLE JSON OBJECT matching the schema below.\n\nREQUIRED SCHEMA:\n{\n  \"score\": float,\n  \"critique\": \"string\",\n  \"suggests_retry\": boolean\n}\n\nJSON OUTPUT:\n"@
}

/// The prompt that asks a model to judge whether the goal is reached.
pub fn critic_prompt(goal: &str, context_json: &str, results_json: &str) -> (res: String)
    ensures
        res@ == critic_prompt_spec(goal@, context_json@, results_json@),
{
    let mut v: Vec<char> = Vec::new();
    push_str(&mut v, "You are the Critic Module of a Cognitive Agent.\nYour task is to evaluate if the high-level user goal has been fully achieved based on the execution results of the planned tasks.\n\n### GOAL ###\n");
    push_str(&mut v, goal);
    push_str(&mut v, "\n\n### CONTEXT ###\n");
    push_str(&mut v, context_json);
    push_str(&mut v, "\n\n### EXECUTION RESULTS ###\n");
    push_str(&mut v, results_json);
    push_str(&mut v, "\n\n### INSTRUCTIONS ###\n1. Assess if the user's explicit goal is fully met.\n2. DECISIVENESS: If the goal is to \"research\" or \"find\" something, and the results are present in the context, the goal is ACHIEVED. DO NOT suggest a retry just for \"more details\" unless the user explicitly asked for them.\n3. NO PEDANTRY: If the user asked for a list and you have a list, the goal is achieved.\n4. If most tasks succeeded and the core objective is met, give a high score (0.95-1.0).\n5. Output your response as a SINGLE JSON OBJECT matching the schema below.\n\nREQUIRED SCHEMA:\n{\n  \"score\": float,\n  \"critique\": \"string\",\n  \"suggests_retry\": boolean\n}\n\nJSON OUTPUT:\n");
    string_from_chars(v.as_slice())
}

/// The position of the last `c` in `s`.
pub open spec fn last_index_of(s: Seq<char>, c: char) -> Option<int>
    decreases s.len(),
{
    if s.len() == 0 {
        None
    } else if s.last() == c {
        Some(s.len() - 1)
    } else {
        last_index_of(s.drop_last(), c)
    }
}

proof fn lemma_last_index_of(s: Seq<char>, c: char)
    ensures
        match last_index_of(s, c) {
            Some(i) => 0 <= i < s.len() && s[i] == c && forall|j: int| i < j < s.len() ==> s[j] != c,
            None => forall|j: int| 0 <= j < s.len() ==> s[j] != c,
        },
    decreases s.len(),
{
    if s.len() > 0 && s.last() != c {
        let p = s.drop_last();
        lemma_last_index_of(p, c);
        assert forall|j: int| 0 <= j < p.len() implies p[j] == s[j] by {}
    }
}

fn last_index_exec(s: &[char], c: char) -> (res: Option<usize>)
    ensures
        match res {
            Some(i) => last_index_of(s@, c) == Some(i as int),
            None => last_index_of(s@, c) is None,
        },
{
    let mut k: usize = s.len();
    assert(s@.subrange(0, k as int) =~= s@);
    while k > 0
        invariant
            k <= s.len(),
            last_index_of(s@, c) == last_index_of(s@.subrange(0, k as int), c),
        decreases k,
    {
        assert(s@.subrange(0, k as int).drop_last() =~= s@.subrange(0, k as int - 1));
        if s[k - 1] == c {
            return Some(k - 1);
        }
        k = k - 1;
    }
    None
}

/// The part of the critic's answer read as JSON: from the first `{` to the
/// last `}`, or to the end when there is no `}`; the whole answer when
/// there is no `{`.
pub open spec fn critic_json_span_spec(content: Seq<char>) -> Seq<char> {
    match find_spec(content, seq!['{']) {
        None => content,
        Some(start) => match last_index_of(content, '}') {
            Some(end) => content.subrange(start, end + 1),
            None => content.subrange(start, content.len() as int),
        },
    }
}

/// The answer cannot be cut: its last `}` comes before its first `{`.
pub open spec fn span_is_reversed(content: Seq<char>) -> bool {
    match (find_spec(content, seq!['{']), last_index_of(content, '}')) {
        (Some(start), Some(end)) => end < start,
        _ => false,
    }
}

/// The part of the critic's answer read as JSON.
pub fn critic_json_span(content: &str) -> (res: String)
    requires
        !span_is_reversed(content@),
    ensures
        res@ == critic_json_span_spec(content@),
{
    let c = chars_of(content);
    let open: [char; 1] = ['{'];
    proof {
        assert(open@ =~= seq!['{']);
    }
    match find_exec(c.as_slice(), open.as_slice()) {
        None => owned(content),
        Some(start) => {
            proof {
                crate::text::lemma_find_from(c@, seq!['{'], 0);
                lemma_last_index_of(c@, '}');
            }
            match last_index_exec(c.as_slice(), '}') {
                Some(end) => {
                    let s = slice_chars(c.as_slice(), start, end + 1);
                    string_from_chars(s.as_slice())
                },
                None => {
                    let s = slice_chars(c.as_slice(), start, c.len());
                    string_from_chars(s.as_slice())
                },
            }
        },
    }
}

/// The critique when the answer cannot be read as a verdict.
pub fn unreadable_critique(content: &str) -> (res: String)
    ensures
        res@ == "Failed to parse critic response: "@ + content@,
{
    concat2("Failed to parse critic response: ", content)
}

/// The critique when the answer is an empty map of verdicts.
pub fn empty_map_critique() -> (res: String)
    ensures
        res@ == "Empty feedback map received"@,
{
    owned("Empty feedback map received")
}

} // verus!
