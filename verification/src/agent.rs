//! The decisions of the deep-reasoning agent loop: repairing streamed tool
//! arguments, recovering tool calls written as text, limits on turns and tool
//! calls, and how tool errors are classified and retried.
use vstd::prelude::*;
use vstd::arithmetic::power2::{lemma2_to64, lemma2_to64_rest, lemma_pow2_strictly_increases, lemma_pow2_unfold, pow2};
use crate::context::{Context, MemoryItem, MemoryRole, ToolCall, ToolCallDelta};
use crate::executor::ToolError;
use crate::json::{
    json_as_str, json_entries_spec, json_get, json_get_spec, json_object, json_object_entries, json_object_spec,
    json_parse, json_parse_spec, json_quote, json_quote_spec, json_str_spec,
};
use crate::text::{
    chars_of, concat2, concat3, concat5, count_char, count_char_exec, decimal, find_from, find_from_exec,
    find_spec, lemma_count_char_concat, lemma_count_char_repeat, lemma_find_from, lowercase_spec, occurs,
    occurs_at, owned, repeat_char, slice_chars, string_from_chars, to_lowercase, trim, trim_exec,
    u64_to_decimal, contains_exec,
};

verus! {

// ---------------------------------------------------------------------------
// Repairing streamed tool arguments
// ---------------------------------------------------------------------------

/// `s` with its last character removed when that character is a comma.
pub open spec fn drop_trailing_comma(t: Seq<char>) -> Seq<char> {
    if t.len() > 0 && t.last() == ',' { t.drop_last() } else { t }
}

/// `a` with as many closing characters `close` appended as `open` outnumbers them.
pub open spec fn close_unbalanced(a: Seq<char>, open: char, close: char) -> Seq<char> {
    if count_char(a, open) > count_char(a, close) {
        a + repeat_char(close, (count_char(a, open) - count_char(a, close)) as nat)
    } else {
        a
    }
}

/// The repaired form of streamed tool arguments: trimmed ("{}" when empty),
/// without a trailing comma, with missing `}` and then missing `]` appended.
pub open spec fn fix_json_spec(s: Seq<char>) -> Seq<char> {
    let t = trim(s);
    if t.len() == 0 {
        "{}"@
    } else {
        close_unbalanced(close_unbalanced(drop_trailing_comma(t), '{', '}'), '[', ']')
    }
}

proof fn lemma_close_unbalanced(a: Seq<char>, open: char, close: char, other: char)
    requires
        open != close,
        other != close,
    ensures
        count_char(close_unbalanced(a, open, close), open) == count_char(a, open),
        count_char(close_unbalanced(a, open, close), other) == count_char(a, other),
        count_char(close_unbalanced(a, open, close), open) <= count_char(close_unbalanced(a, open, close), close),
        count_char(a, close) <= count_char(close_unbalanced(a, open, close), close),
{
    if count_char(a, open) > count_char(a, close) {
        let n = (count_char(a, open) - count_char(a, close)) as nat;
        lemma_count_char_concat(a, repeat_char(close, n), open);
        lemma_count_char_concat(a, repeat_char(close, n), close);
        lemma_count_char_concat(a, repeat_char(close, n), other);
        lemma_count_char_repeat(close, n, open);
        lemma_count_char_repeat(close, n, close);
        lemma_count_char_repeat(close, n, other);
    }
}

/// Repairs streamed tool arguments (see `fix_json_spec`). Law: in the result
/// no `{` or `[` is left without a matching count of `}` or `]`.
pub fn fix_json(s: &str) -> (res: String)
    ensures
        res@ == fix_json_spec(s@),
        count_char(res@, '{') <= count_char(res@, '}'),
        count_char(res@, '[') <= count_char(res@, ']'),
{
    let t = trim_exec(chars_of(s).as_slice());
    if t.len() == 0 {
        proof {
            reveal_strlit("{}");
            reveal_with_fuel(count_char, 3);
            let e = Seq::<char>::empty();
            let one = seq!['{'];
            let two = "{}"@;
            assert(one.drop_last() =~= e);
            assert(count_char(one, '{') == 1);
            assert(count_char(one, '}') == 0);
            assert(count_char(one, '[') == 0);
            assert(count_char(one, ']') == 0);
            assert(two =~= seq!['{', '}']);
            assert(two.drop_last() =~= one);
            assert(two.last() == '}');
            assert(count_char(two, '{') == 1);
            assert(count_char(two, '}') == 1);
            assert(count_char(two, '[') == 0);
            assert(count_char(two, ']') == 0);
        }
        return owned("{}");
    }
    let mut fixed = t;
    if fixed[fixed.len() - 1] == ',' {
        fixed.pop();
    }
    let ghost a = fixed@;
    let ob = count_char_exec(fixed.as_slice(), '{');
    let cb = count_char_exec(fixed.as_slice(), '}');
    if ob > cb {
        let mut k: usize = 0;
        while k < ob - cb
            invariant
                k <= ob - cb,
                fixed@ == a + repeat_char('}', k as nat),
            decreases ob - cb - k,
        {
            fixed.push('}');
            k = k + 1;
            assert(fixed@ =~= a + repeat_char('}', k as nat));
        }
    }
    let ghost b = fixed@;
    assert(b == close_unbalanced(a, '{', '}'));
    let ok = count_char_exec(fixed.as_slice(), '[');
    let ck = count_char_exec(fixed.as_slice(), ']');
    if ok > ck {
        let mut k: usize = 0;
        while k < ok - ck
            invariant
                k <= ok - ck,
                fixed@ == b + repeat_char(']', k as nat),
            decreases ok - ck - k,
        {
            fixed.push(']');
            k = k + 1;
            assert(fixed@ =~= b + repeat_char(']', k as nat));
        }
    }
    assert(fixed@ == close_unbalanced(b, '[', ']'));
    proof {
        lemma_close_unbalanced(a, '{', '}', '[');
        lemma_close_unbalanced(a, '{', '}', ']');
        lemma_close_unbalanced(b, '[', ']', '{');
        lemma_close_unbalanced(b, '[', ']', '}');
    }
    string_from_chars(fixed.as_slice())
}

// ---------------------------------------------------------------------------
// Tool calls written as text
// ---------------------------------------------------------------------------

/// The tool call a JSON text describes: an object with a string "name" and an
/// object "arguments"; the arguments are kept as JSON text.
pub open spec fn tool_call_from_json(text: Seq<char>) -> Option<(Seq<char>, Seq<char>)> {
    match json_parse_spec(text) {
        Err(_) => None,
        Ok(v) => match (json_get_spec(v, "name"@), json_get_spec(v, "arguments"@)) {
            (Some(n), Some(a)) => match (json_str_spec(n), json_entries_spec(a)) {
                (Some(name), Some(_)) => Some((name, a)),
                _ => None,
            },
            _ => None,
        },
    }
}

/// The opening and closing tool-call tags and the code fences.
pub open spec fn open_tag() -> Seq<char> { "<tool_call>"@ }
pub open spec fn close_tag() -> Seq<char> { "</tool_call>"@ }
pub open spec fn json_fence() -> Seq<char> { "```json"@ }
pub open spec fn fence() -> Seq<char> { "```"@ }

/// A tool call inside `<tool_call>...</tool_call>` tags.
pub open spec fn tagged_call(c: Seq<char>) -> Option<(Seq<char>, Seq<char>)> {
    match find_spec(c, open_tag()) {
        Some(start) => match find_from(c, close_tag(), start) {
            Some(end) => tool_call_from_json(c.subrange(start + 11, end)),
            None => None,
        },
        None => None,
    }
}

/// A tool call inside a fenced code block: a "```json" fence if there is one,
/// otherwise the first "```" fence.
pub open spec fn fenced_call(c: Seq<char>) -> Option<(Seq<char>, Seq<char>)> {
    match find_spec(c, json_fence()) {
        Some(start) => match find_from(c, fence(), start + 7) {
            Some(end) => tool_call_from_json(trim(c.subrange(start + 7, end))),
            None => None,
        },
        None => match find_spec(c, fence()) {
            Some(start) => match find_from(c, fence(), start + 3) {
                Some(end) => tool_call_from_json(trim(c.subrange(start + 3, end))),
                None => None,
            },
            None => None,
        },
    }
}

/// The tool call recovered from model text: tagged, then fenced, then the
/// whole trimmed text as JSON.
pub open spec fn text_tool_call(c: Seq<char>) -> Option<(Seq<char>, Seq<char>)> {
    if tagged_call(c) is Some {
        tagged_call(c)
    } else if fenced_call(c) is Some {
        fenced_call(c)
    } else {
        tool_call_from_json(trim(c))
    }
}

/// The view of a tool call.
pub open spec fn call_view(t: ToolCall) -> (Seq<char>, Seq<char>) {
    (t.name@, t.arguments@)
}

fn tool_call_from_json_exec(text: &str) -> (res: Option<ToolCall>)
    ensures
        match res {
            Some(t) => tool_call_from_json(text@) == Some(call_view(t)),
            None => tool_call_from_json(text@) is None,
        },
{
    let v = match json_parse(text) {
        Ok(v) => v,
        Err(_) => return None,
    };
    let n = match json_get(v.as_str(), "name") {
        Some(n) => n,
        None => return None,
    };
    let a = match json_get(v.as_str(), "arguments") {
        Some(a) => a,
        None => return None,
    };
    let name = match json_as_str(n.as_str()) {
        Some(s) => s,
        None => return None,
    };
    match json_object_entries(a.as_str()) {
        Some(_) => Some(ToolCall { name, arguments: a }),
        None => None,
    }
}

proof fn lemma_close_tag_after_open(c: Seq<char>, start: int)
    requires
        occurs_at(c, open_tag(), start),
    ensures
        match find_from(c, close_tag(), start) {
            Some(end) => start + 11 <= end,
            None => true,
        },
{
    reveal_strlit("<tool_call>");
    reveal_strlit("</tool_call>");
    lemma_find_from(c, close_tag(), start);
    if let Some(end) = find_from(c, close_tag(), start) {
        if end < start + 11 {
            assert(occurs_at(c, close_tag(), end));
            let j = end - start;
            if j == 0 {
                assert(c.subrange(start, start + 11)[1] == open_tag()[1]);
                assert(c.subrange(end, end + 12)[1] == close_tag()[1]);
            } else {
                assert(c.subrange(start, start + 11)[j] == open_tag()[j]);
                assert(c.subrange(end, end + 12)[0] == close_tag()[0]);
            }
        }
    }
}

/// Recovers one tool call that a model wrote as text instead of as a native
/// tool call: within `<tool_call>` tags, within a fenced code block, or as the
/// whole text.
pub fn parse_tool_call_from_text(content: &str) -> (res: Option<ToolCall>)
    ensures
        match res {
            Some(t) => text_tool_call(content@) == Some(call_view(t)),
            None => text_tool_call(content@) is None,
        },
{
    let c = chars_of(content);
    let open = chars_of("<tool_call>");
    let close = chars_of("</tool_call>");
    let jf = chars_of("```json");
    let f = chars_of("```");
    proof {
        reveal_strlit("<tool_call>");
        reveal_strlit("</tool_call>");
        reveal_strlit("```json");
        reveal_strlit("```");
        lemma_find_from(c@, open@, 0);
    }
    // 1. <tool_call> ... </tool_call>
    match find_from_exec(c.as_slice(), open.as_slice(), 0) {
        Some(start) => {
            proof {
                lemma_close_tag_after_open(c@, start as int);
                lemma_find_from(c@, close@, start as int);
            }
            match find_from_exec(c.as_slice(), close.as_slice(), start) {
                Some(end) => {
                    let body = slice_chars(c.as_slice(), start + 11, end);
                    let text = string_from_chars(body.as_slice());
                    match tool_call_from_json_exec(text.as_str()) {
                        Some(t) => return Some(t),
                        None => {},
                    }
                },
                None => {},
            }
        },
        None => {},
    }
    assert(tagged_call(c@) is None);
    // 2. fenced code blocks
    proof {
        lemma_find_from(c@, jf@, 0);
        lemma_find_from(c@, f@, 0);
    }
    match find_from_exec(c.as_slice(), jf.as_slice(), 0) {
        Some(start) => {
            proof {
                lemma_find_from(c@, f@, start + 7);
            }
            match find_from_exec(c.as_slice(), f.as_slice(), start + 7) {
                Some(end) => {
                    let body = trim_exec(slice_chars(c.as_slice(), start + 7, end).as_slice());
                    let text = string_from_chars(body.as_slice());
                    match tool_call_from_json_exec(text.as_str()) {
                        Some(t) => return Some(t),
                        None => {},
                    }
                },
                None => {},
            }
        },
        None => {
            match find_from_exec(c.as_slice(), f.as_slice(), 0) {
                Some(start) => {
                    proof {
                        lemma_find_from(c@, f@, start + 3);
                    }
                    match find_from_exec(c.as_slice(), f.as_slice(), start + 3) {
                        Some(end) => {
                            let body = trim_exec(slice_chars(c.as_slice(), start + 3, end).as_slice());
                            let text = string_from_chars(body.as_slice());
                            match tool_call_from_json_exec(text.as_str()) {
                                Some(t) => return Some(t),
                                None => {},
                            }
                        },
                        None => {},
                    }
                },
                None => {},
            }
        },
    }
    assert(fenced_call(c@) is None);
    // 3. the whole text
    let whole = trim_exec(c.as_slice());
    let text = string_from_chars(whole.as_slice());
    tool_call_from_json_exec(text.as_str())
}


// ---------------------------------------------------------------------------
// Accumulating streamed tool calls
// ---------------------------------------------------------------------------

/// The state of tool-call accumulation: the name and argument text of the
/// call being streamed, and the calls completed so far.
pub type AccumulatorView = (Seq<char>, Seq<char>, Seq<(Seq<char>, Seq<char>)>);

/// When a new tool name arrives, the call being streamed is completed if its
/// repaired arguments parse, and dropped otherwise.
pub open spec fn flush_spec(st: AccumulatorView) -> AccumulatorView {
    if st.0.len() > 0 {
        match json_parse_spec(fix_json_spec(st.1)) {
            Ok(v) => (Seq::empty(), Seq::empty(), st.2.push((st.0, v))),
            Err(_) => (Seq::empty(), Seq::empty(), st.2),
        }
    } else {
        st
    }
}

/// The state after a streamed tool-call fragment.
pub open spec fn delta_spec(st: AccumulatorView, name: Option<Seq<char>>, args: Option<Seq<char>>) -> AccumulatorView {
    let st1 = match name {
        Some(n) => {
            let f = flush_spec(st);
            (f.0 + n, f.1, f.2)
        },
        None => st,
    };
    match args {
        Some(a) => (st1.0, st1.1 + a, st1.2),
        None => st1,
    }
}

/// The message of the error for final tool arguments that do not parse.
pub open spec fn argument_parse_message(error: Seq<char>, fixed: Seq<char>) -> Seq<char> {
    "Tool argument JSON parse error: "@ + error + " for args: "@ + fixed
}

/// Collects the tool calls of one streamed model answer.
pub struct ToolCallAccumulator {
    pub current_name: String,
    pub current_args: String,
    pub calls: Vec<ToolCall>,
}

impl View for ToolCallAccumulator {
    type V = AccumulatorView;

    open spec fn view(&self) -> AccumulatorView {
        (self.current_name@, self.current_args@, self.calls@.map_values(|t: ToolCall| call_view(t)))
    }
}

impl ToolCallAccumulator {
    pub fn new() -> (res: Self)
        ensures
            res@ == (Seq::<char>::empty(), Seq::<char>::empty(), Seq::<(Seq<char>, Seq<char>)>::empty()),
    {
        let res = ToolCallAccumulator { current_name: String::new(), current_args: String::new(), calls: Vec::new() };
        assert(res.calls@.map_values(|t: ToolCall| call_view(t)) =~= Seq::<(Seq<char>, Seq<char>)>::empty());
        res
    }

    fn flush(&mut self)
        ensures
            final(self)@ == flush_spec(old(self)@),
    {
        if !str_is_empty(self.current_name.as_str()) {
            let fixed = fix_json(self.current_args.as_str());
            let ghost before = self.calls@;
            match json_parse(fixed.as_str()) {
                Ok(v) => {
                    let mut name = String::new();
                    std::mem::swap(&mut name, &mut self.current_name);
                    self.calls.push(ToolCall { name, arguments: v });
                    self.current_args = String::new();
                    assert(self.calls@.map_values(|t: ToolCall| call_view(t)) =~= before.map_values(|t: ToolCall| call_view(t)).push((old(self).current_name@, json_parse_spec(fix_json_spec(old(self).current_args@))->Ok_0)));
                },
                Err(_) => {
                    self.current_name = String::new();
                    self.current_args = String::new();
                },
            }
        }
    }

    /// Takes one streamed fragment of a tool call.
    pub fn on_delta(&mut self, delta: &ToolCallDelta)
        ensures
            final(self)@ == delta_spec(old(self)@, crate::execution::graph::opt_view(delta.name),
                crate::execution::graph::opt_view(delta.arguments_delta)),
    {
        match &delta.name {
            Some(n) => {
                self.flush();
                let joined = concat2(self.current_name.as_str(), n.as_str());
                self.current_name = joined;
            },
            None => {},
        }
        match &delta.arguments_delta {
            Some(a) => {
                let joined = concat2(self.current_args.as_str(), a.as_str());
                self.current_args = joined;
            },
            None => {},
        }
    }

    /// At the end of a chunk: on the final chunk the call being streamed is
    /// completed, or the stream fails if its repaired arguments do not parse.
    pub fn on_chunk_end(&mut self, is_final: bool) -> (res: Result<(), String>)
        ensures
            !(is_final && old(self)@.0.len() > 0) ==> res is Ok && final(self)@ == old(self)@,
            is_final && old(self)@.0.len() > 0 ==> match json_parse_spec(fix_json_spec(old(self)@.1)) {
                Ok(v) => res is Ok && final(self)@ == (Seq::<char>::empty(), Seq::<char>::empty(), old(self)@.2.push((old(self)@.0, v))),
                Err(e) => (res matches Err(m) && m@ == argument_parse_message(e, fix_json_spec(old(self)@.1)))
                    && final(self)@ == old(self)@,
            },
    {
        if !is_final {
            return Ok(());
        }
        let empty = str_is_empty(self.current_name.as_str());
        if empty {
            return Ok(());
        }
        let fixed = fix_json(self.current_args.as_str());
        match json_parse(fixed.as_str()) {
            Ok(v) => {
                let ghost before = self.calls@;
                let mut name = String::new();
                std::mem::swap(&mut name, &mut self.current_name);
                self.calls.push(ToolCall { name, arguments: v });
                self.current_args = String::new();
                assert(self.calls@.map_values(|t: ToolCall| call_view(t)) =~= before.map_values(|t: ToolCall| call_view(t)).push((old(self).current_name@, v@)));
                Ok(())
            },
            Err(e) => {
                proof {
                    reveal_strlit("");
                }
                let m = crate::text::concat5("Tool argument JSON parse error: ", e.as_str(), " for args: ", fixed.as_str(), "");
                assert(m@ =~= argument_parse_message(e@, fixed@));
                Err(m)
            },
        }
    }
}

/// Whether a string slice is empty.
pub fn str_is_empty(s: &str) -> (res: bool)
    ensures
        res == (s@.len() == 0),
{
    let c = chars_of(s);
    c.len() == 0
}

/// The tool calls of a turn: the native ones, or else one recovered from the
/// answer text, in which case the text is not shown as an answer.
pub fn resolve_turn_calls(calls: Vec<ToolCall>, content: String) -> (res: (Vec<ToolCall>, String))
    ensures
        calls@.len() == 0 && content@.len() > 0 && text_tool_call(content@) is Some ==> {
            &&& res.0@.len() == 1
            &&& call_view(res.0@[0]) == text_tool_call(content@)->0
            &&& res.1@.len() == 0
        },
        !(calls@.len() == 0 && content@.len() > 0 && text_tool_call(content@) is Some) ==> {
            &&& res.0@ == calls@
            &&& res.1@ == content@
        },
{
    if calls.len() == 0 && !str_is_empty(content.as_str()) {
        match parse_tool_call_from_text(content.as_str()) {
            Some(t) => {
                let mut v: Vec<ToolCall> = Vec::new();
                v.push(t);
                return (v, String::new());
            },
            None => {},
        }
    }
    (calls, content)
}

// ---------------------------------------------------------------------------
// Tool errors and retries
// ---------------------------------------------------------------------------

/// The kind of failure of a tool call.
#[derive(Debug, Clone, Copy, PartialEq, Eq, Structural)]
pub enum ErrorCategory {
    TransientTimeout,
    ToolNotFound,
    PermissionDenied,
    ExecutionFailed,
    ResourceLimit,
    SecurityViolation,
    InternalError,
    Unknown,
}

/// The category name recorded with a failed tool result.
pub open spec fn category_name(c: ErrorCategory) -> Seq<char> {
    match c {
        ErrorCategory::TransientTimeout => "transient_timeout"@,
        ErrorCategory::ToolNotFound => "tool_not_found"@,
        ErrorCategory::PermissionDenied => "permission_denied"@,
        ErrorCategory::ExecutionFailed => "execution_failed"@,
        ErrorCategory::ResourceLimit => "resource_limit"@,
        ErrorCategory::SecurityViolation => "security_violation"@,
        ErrorCategory::InternalError => "internal_error"@,
        ErrorCategory::Unknown => "unknown"@,
    }
}

impl ErrorCategory {
    pub fn as_str(&self) -> (res: &'static str)
        ensures
            res@ == category_name(*self),
    {
        match self {
            ErrorCategory::TransientTimeout => "transient_timeout",
            ErrorCategory::ToolNotFound => "tool_not_found",
            ErrorCategory::PermissionDenied => "permission_denied",
            ErrorCategory::ExecutionFailed => "execution_failed",
            ErrorCategory::ResourceLimit => "resource_limit",
            ErrorCategory::SecurityViolation => "security_violation",
            ErrorCategory::InternalError => "internal_error",
            ErrorCategory::Unknown => "unknown",
        }
    }
}

/// The category of a structured tool error.
pub open spec fn tool_error_category(e: ToolError) -> ErrorCategory {
    match e {
        ToolError::Transient(_) => ErrorCategory::TransientTimeout,
        ToolError::NotFound(_) => ErrorCategory::ToolNotFound,
        ToolError::PermissionDenied(_) => ErrorCategory::PermissionDenied,
        ToolError::ExecutionFailed(_) => ErrorCategory::ExecutionFailed,
        ToolError::ResourceLimitExceeded(_) => ErrorCategory::ResourceLimit,
        ToolError::SecurityViolation(_) => ErrorCategory::SecurityViolation,
        _ => ErrorCategory::InternalError,
    }
}

/// The category of any other error, judged by its lowercase message.
pub open spec fn message_category(msg: Seq<char>) -> ErrorCategory {
    let l = lowercase_spec(msg);
    if occurs(l, "timeout"@) {
        ErrorCategory::TransientTimeout
    } else if occurs(l, "not found"@) {
        ErrorCategory::ToolNotFound
    } else if occurs(l, "permission"@) || occurs(l, "denied"@) {
        ErrorCategory::PermissionDenied
    } else {
        ErrorCategory::Unknown
    }
}

/// `text` holds `word` somewhere.
pub open spec fn mentions(text: Seq<char>, word: Seq<char>) -> bool {
    exists|i: int| 0 <= i && i + word.len() <= text.len() && #[trigger] text.subrange(i, i + word.len()) == word
}

proof fn lemma_mentions_occurs(text: Seq<char>, word: Seq<char>)
    ensures
        mentions(text, word) <==> occurs(text, word),
{
    if mentions(text, word) {
        let i = choose|i: int| 0 <= i && i + word.len() <= text.len() && #[trigger] text.subrange(i, i + word.len()) == word;
        assert(occurs_at(text, word, i));
    }
    if occurs(text, word) {
        let i = choose|i: int| occurs_at(text, word, i);
        assert(text.subrange(i, i + word.len()) == word);
    }
}

/// Law: how an error message is classified, by what its lowercase form
/// mentions: "timeout" makes it a transient timeout; otherwise "not found"
/// a missing tool; otherwise "permission" or "denied" a refused permission;
/// a message that mentions none of these is of unknown kind.
pub proof fn lemma_message_categories(msg: Seq<char>)
    ensures
        mentions(lowercase_spec(msg), "timeout"@) ==> message_category(msg) == ErrorCategory::TransientTimeout,
        !mentions(lowercase_spec(msg), "timeout"@) && mentions(lowercase_spec(msg), "not found"@)
            ==> message_category(msg) == ErrorCategory::ToolNotFound,
        !mentions(lowercase_spec(msg), "timeout"@) && !mentions(lowercase_spec(msg), "not found"@)
            && (mentions(lowercase_spec(msg), "permission"@) || mentions(lowercase_spec(msg), "denied"@))
            ==> message_category(msg) == ErrorCategory::PermissionDenied,
        !mentions(lowercase_spec(msg), "timeout"@) && !mentions(lowercase_spec(msg), "not found"@)
            && !mentions(lowercase_spec(msg), "permission"@) && !mentions(lowercase_spec(msg), "denied"@)
            ==> message_category(msg) == ErrorCategory::Unknown,
{
    let l = lowercase_spec(msg);
    lemma_mentions_occurs(l, "timeout"@);
    lemma_mentions_occurs(l, "not found"@);
    lemma_mentions_occurs(l, "permission"@);
    lemma_mentions_occurs(l, "denied"@);
}

/// Classifies a structured tool error.
pub fn categorize_tool_error(e: &ToolError) -> (res: ErrorCategory)
    ensures
        res == tool_error_category(*e),
{
    match e {
        ToolError::Transient(_) => ErrorCategory::TransientTimeout,
        ToolError::NotFound(_) => ErrorCategory::ToolNotFound,
        ToolError::PermissionDenied(_) => ErrorCategory::PermissionDenied,
        ToolError::ExecutionFailed(_) => ErrorCategory::ExecutionFailed,
        ToolError::ResourceLimitExceeded(_) => ErrorCategory::ResourceLimit,
        ToolError::SecurityViolation(_) => ErrorCategory::SecurityViolation,
        _ => ErrorCategory::InternalError,
    }
}

/// Classifies an error that is not a structured tool error by its message.
pub fn categorize_message(msg: &str) -> (res: ErrorCategory)
    ensures
        res == message_category(msg@),
{
    let lower = to_lowercase(msg);
    let l = chars_of(lower.as_str());
    if contains_exec(l.as_slice(), chars_of("timeout").as_slice()) {
        ErrorCategory::TransientTimeout
    } else if contains_exec(l.as_slice(), chars_of("not found").as_slice()) {
        ErrorCategory::ToolNotFound
    } else if contains_exec(l.as_slice(), chars_of("permission").as_slice())
        || contains_exec(l.as_slice(), chars_of("denied").as_slice()) {
        ErrorCategory::PermissionDenied
    } else {
        ErrorCategory::Unknown
    }
}

/// After a failed attempt: the seconds to wait before the next attempt, when
/// the failure is transient and retries remain (exponential back-off).
pub fn retry_backoff(category: ErrorCategory, retry_count: usize, max_retries: usize) -> (res: Option<u64>)
    requires
        retry_count < 63,
    ensures
        category == ErrorCategory::TransientTimeout && retry_count < max_retries ==> res == Some(pow2((retry_count + 1) as nat) as u64),
        !(category == ErrorCategory::TransientTimeout && retry_count < max_retries) ==> res is None,
{
    if category == ErrorCategory::TransientTimeout && retry_count < max_retries {
        let n = retry_count + 1;
        let mut p: u64 = 1;
        let mut k: usize = 0;
        proof {
            lemma2_to64();
        }
        while k < n
            invariant
                k <= n,
                n <= 63,
                p == pow2(k as nat),
            decreases n - k,
        {
            proof {
                lemma2_to64();
                lemma2_to64_rest();
                if k < 62 {
                    lemma_pow2_strictly_increases(k as nat, 62);
                }
                lemma_pow2_unfold((k + 1) as nat);
                assert(pow2(62) == 0x4000000000000000nat);
                assert(p <= 0x4000000000000000u64);
            }
            p = p * 2;
            k = k + 1;
        }
        Some(p)
    } else {
        None
    }
}

// ---------------------------------------------------------------------------
// Turn limits
// ---------------------------------------------------------------------------

/// What happens at the start of a turn.
pub enum TurnGate {
    /// The turn runs.
    Proceed,
    /// The turn limit is reached; the loop stops with this status.
    Stop(String),
    /// The turn limit is reached and the configuration makes that an error.
    Fail(String),
}

/// The status when the turn limit is reached.
pub open spec fn turn_limit_message(max_turns: nat) -> Seq<char> {
    "Turn limit ("@ + decimal(max_turns) + ") reached. Stopping."@
}

/// Whether turn number `turn` (counting from one) may run.
pub fn turn_gate(turn: usize, config: &crate::config::AgentConfig) -> (res: TurnGate)
    ensures
        turn <= config.max_turns ==> res is Proceed,
        turn > config.max_turns && config.fail_on_limit ==> (res matches TurnGate::Fail(m) && m@ == turn_limit_message(config.max_turns as nat)),
        turn > config.max_turns && !config.fail_on_limit ==> (res matches TurnGate::Stop(m) && m@ == turn_limit_message(config.max_turns as nat)),
{
    if turn > config.max_turns {
        let d = u64_to_decimal(config.max_turns as u64);
        let msg = concat3("Turn limit (", d.as_str(), ") reached. Stopping.");
        if config.fail_on_limit {
            TurnGate::Fail(msg)
        } else {
            TurnGate::Stop(msg)
        }
    } else {
        TurnGate::Proceed
    }
}

/// Whether the context has outgrown its limit and should be optimized.
pub fn needs_context_optimization(items: usize, config: &crate::config::AgentConfig) -> (res: bool)
    ensures
        res == (items > config.max_context_items),
{
    items > config.max_context_items
}

/// The error when a step has run longer than allowed.
pub fn step_timeout(elapsed_secs: u64, config: &crate::config::AgentConfig) -> (res: Option<String>)
    ensures
        elapsed_secs > config.timeout_seconds <==> res is Some,
        res matches Some(m) ==> m@ == "Agent step timeout after "@ + decimal(config.timeout_seconds as nat) + "s"@,
{
    if elapsed_secs > config.timeout_seconds {
        let d = u64_to_decimal(config.timeout_seconds);
        Some(concat3("Agent step timeout after ", d.as_str(), "s"))
    } else {
        None
    }
}

/// The prompt of a turn: the user's input first, "Continue" afterwards.
pub fn turn_prompt(turn: usize, user_input: &str) -> (res: String)
    ensures
        res@ == if turn == 1 { user_input@ } else { "Continue"@ },
{
    if turn == 1 { owned(user_input) } else { owned("Continue") }
}

/// Whether the `count`-th tool call of a turn exceeds the limit.
pub fn tool_chain_exceeded(count: usize, config: &crate::config::AgentConfig) -> (res: bool)
    ensures
        res == (count > config.max_tool_calls_per_turn),
{
    count > config.max_tool_calls_per_turn
}

/// The message logged when a turn calls too many tools.
pub fn tool_chain_message(config: &crate::config::AgentConfig) -> (res: String)
    ensures
        res@ == "Security: Infinite tool chain detected (> "@ + decimal(config.max_tool_calls_per_turn as nat)
            + " calls in one turn). Aborting turn."@,
{
    let d = u64_to_decimal(config.max_tool_calls_per_turn as u64);
    concat3("Security: Infinite tool chain detected (> ", d.as_str(), " calls in one turn). Aborting turn.")
}

/// The status shown when a transient failure is retried.
pub fn retry_status(category: ErrorCategory, backoff: u64, attempt: usize, max_retries: usize) -> (res: String)
    ensures
        res@ == "Transient error detected ("@ + category_name(category) + "). Retrying in "@ + decimal(backoff as nat)
            + "s (Attempt "@ + decimal(attempt as nat) + "/"@ + decimal(max_retries as nat) + ")"@,
{
    let b = u64_to_decimal(backoff);
    let a = u64_to_decimal(attempt as u64);
    let m = u64_to_decimal(max_retries as u64);
    let first = concat5("Transient error detected (", category.as_str(), "). Retrying in ", b.as_str(), "s (Attempt ");
    concat5(first.as_str(), a.as_str(), "/", m.as_str(), ")")
}

/// The status text of a tool call that failed for good.
pub fn tool_error_text(error: &str) -> (res: String)
    ensures
        res@ == "Tool error: "@ + error@,
{
    concat2("Tool error: ", error)
}

/// The context item that records a tool's output, tagged with the tool's name.
pub fn tool_output_item(tool_name: &str, output: String, timestamp: u64) -> (res: MemoryItem)
    ensures
        res.role == MemoryRole::Tool,
        res.content@ == output@,
        res.timestamp == timestamp,
        res.metadata@ == json_object_spec(seq![("tool"@, json_quote_spec(tool_name@))]),
{
    let mut entries: Vec<(String, String)> = Vec::new();
    entries.push((owned("tool"), json_quote(tool_name)));
    assert(entries@.map_values(|e: (String, String)| (e.0@, e.1@)) =~= seq![("tool"@, json_quote_spec(tool_name@))]);
    MemoryItem { role: MemoryRole::Tool, content: output, timestamp, metadata: json_object(&entries) }
}

/// The metadata of a failed tool call's context item: the tool, an error
/// flag and the failure's category.
pub open spec fn failure_metadata(tool_name: Seq<char>, category: ErrorCategory) -> Seq<char> {
    json_object_spec(seq![
        ("tool"@, json_quote_spec(tool_name)),
        ("error"@, "true"@),
        ("error_category"@, json_quote_spec(category_name(category))),
    ])
}

/// The context item that records a tool call that failed for good: its
/// error text, tagged with the tool's name, an error flag and the category.
pub fn tool_failure_item(tool_name: &str, error_text: String, category: ErrorCategory, timestamp: u64) -> (res: MemoryItem)
    ensures
        res.role == MemoryRole::Tool,
        res.content@ == error_text@,
        res.timestamp == timestamp,
        res.metadata@ == failure_metadata(tool_name@, category),
{
    let mut entries: Vec<(String, String)> = Vec::new();
    entries.push((owned("tool"), json_quote(tool_name)));
    entries.push((owned("error"), owned("true")));
    entries.push((owned("error_category"), json_quote(category.as_str())));
    assert(entries@.map_values(|e: (String, String)| (e.0@, e.1@)) =~= seq![
        ("tool"@, json_quote_spec(tool_name@)),
        ("error"@, "true"@),
        ("error_category"@, json_quote_spec(category_name(category))),
    ]);
    MemoryItem { role: MemoryRole::Tool, content: error_text, timestamp, metadata: json_object(&entries) }
}

/// What a reasoning step reports as it runs.
#[derive(Debug, Clone)]
pub enum AgentStepEvent {
    TextChunk(String),
    ToolStarted(String),
    ToolFinished(String, String),
    Status(String),
}

/// The persistent state of an agent session.
#[derive(Debug, Clone)]
pub struct DeepAgentState {
    pub session_id: String,
    pub context: Context,
    pub sandbox_root: String,
}

impl DeepAgentState {
    /// The name of the file the session is saved in.
    pub fn session_file_name(&self) -> (res: String)
        ensures
            res@ == "session_"@ + self.session_id@ + ".session"@,
    {
        concat3("session_", self.session_id.as_str(), ".session")
    }

    /// The name of the temporary file a save goes through.
    pub fn temp_file_name(&self) -> (res: String)
        ensures
            res@ == ".session_"@ + self.session_id@ + ".tmp"@,
    {
        concat3(".session_", self.session_id.as_str(), ".tmp")
    }
}

/// The directory sessions are saved in.
pub fn sessions_dir() -> (res: &'static str)
    ensures
        res@ == ".agent/sessions"@,
{
    ".agent/sessions"
}
} // verus!
