//! The command-line tool runner built for the WebAssembly sandbox: which
//! command a call names, and the text statistics it reports. Listing,
//! reading and writing files is I/O.
use vstd::prelude::*;
use crate::text::{chars_of, concat2, count_char, count_char_exec, decimal, is_ws, is_ws_exec, owned, push_str, str_eq, string_from_chars, u64_to_decimal};

verus! {

/// The runner's commands.
#[derive(Debug, Clone, Copy, PartialEq, Eq, Structural)]
pub enum ToolCommand {
    /// `ls [dir]`: lists a directory.
    List,
    /// `cat <file>`: prints a file.
    Read,
    /// `write <file> <content...>`: writes a file.
    Write,
    /// `stats <text>`: counts bytes, words and lines.
    Stats,
}

/// The command a name selects.
pub open spec fn command_spec(name: Seq<char>) -> Option<ToolCommand> {
    if name == "ls"@ {
        Some(ToolCommand::List)
    } else if name == "cat"@ {
        Some(ToolCommand::Read)
    } else if name == "write"@ {
        Some(ToolCommand::Write)
    } else if name == "stats"@ {
        Some(ToolCommand::Stats)
    } else {
        None
    }
}

/// The command a name selects.
pub fn parse_command(name: &str) -> (res: Option<ToolCommand>)
    ensures
        res == command_spec(name@),
{
    if str_eq(name, "ls") {
        Some(ToolCommand::List)
    } else if str_eq(name, "cat") {
        Some(ToolCommand::Read)
    } else if str_eq(name, "write") {
        Some(ToolCommand::Write)
    } else if str_eq(name, "stats") {
        Some(ToolCommand::Stats)
    } else {
        None
    }
}

/// The directory listed when none is given.
pub fn default_list_dir() -> (res: &'static str)
    ensures
        res@ == "/sandbox"@,
{
    "/sandbox"
}

/// The number of maximal runs of characters that are not white space.
pub open spec fn word_count(s: Seq<char>) -> nat
    decreases s.len(),
{
    if s.len() == 0 {
        0
    } else {
        word_count(s.drop_last()) + if !is_ws(s.last()) && (s.len() == 1 || is_ws(s[s.len() - 2])) {
            1nat
        } else {
            0nat
        }
    }
}

/// The number of lines: the line breaks, and one more when the text does not
/// end with one.
pub open spec fn line_count(s: Seq<char>) -> nat {
    count_char(s, '\n') + if s.len() > 0 && s.last() != '\n' { 1nat } else { 0nat }
}

proof fn lemma_word_count_bound(s: Seq<char>)
    ensures
        word_count(s) <= s.len(),
    decreases s.len(),
{
    if s.len() > 0 {
        lemma_word_count_bound(s.drop_last());
    }
}

/// The number of words, as `str::split_whitespace` counts them.
pub fn count_words(text: &str) -> (res: usize)
    ensures
        res == word_count(text@),
{
    let c = chars_of(text);
    let mut n: usize = 0;
    let mut i: usize = 0;
    while i < c.len()
        invariant
            i <= c.len(),
            c@ == text@,
            n == word_count(c@.subrange(0, i as int)),
        decreases c.len() - i,
    {
        let ghost p = c@.subrange(0, i as int + 1);
        proof {
            assert(p.drop_last() =~= c@.subrange(0, i as int));
            lemma_word_count_bound(c@.subrange(0, i as int));
        }
        if !is_ws_exec(c[i]) && (i == 0 || is_ws_exec(c[i - 1])) {
            n = n + 1;
        }
        i = i + 1;
    }
    assert(c@.subrange(0, c@.len() as int) =~= c@);
    n
}

/// The number of lines, as `str::lines` counts them.
pub fn count_lines(text: &str) -> (res: usize)
    ensures
        res == line_count(text@),
{
    let c = chars_of(text);
    let breaks = count_char_exec(c.as_slice(), '\n');
    if c.len() > 0 && c[c.len() - 1] != '\n' {
        proof {
            crate::text::lemma_count_char_bound(c@, '\n');
        }
        breaks + 1
    } else {
        breaks
    }
}

/// The line printed for `stats`: bytes, words and lines.
pub open spec fn stats_line_spec(text: &str) -> Seq<char> {
    "Chars: "@ + decimal(text.len() as nat) + ", Words: "@ + decimal(word_count(text@)) + ", Lines: "@
        + decimal(line_count(text@))
}

/// The line printed for `stats`.
pub fn text_stats(text: &str) -> (res: String)
    ensures
        res@ == stats_line_spec(text),
{
    let bytes = text.len();
    let words = count_words(text);
    let lines = count_lines(text);
    let b = u64_to_decimal(bytes as u64);
    let w = u64_to_decimal(words as u64);
    let l = u64_to_decimal(lines as u64);
    let mut v: Vec<char> = Vec::new();
    push_str(&mut v, "Chars: ");
    push_str(&mut v, b.as_str());
    push_str(&mut v, ", Words: ");
    push_str(&mut v, w.as_str());
    push_str(&mut v, ", Lines: ");
    push_str(&mut v, l.as_str());
    string_from_chars(v.as_slice())
}

/// The arguments after the first, joined with single spaces.
pub open spec fn joined_rest(args: Seq<Seq<char>>) -> Seq<char>
    decreases args.len(),
{
    if args.len() <= 1 {
        Seq::empty()
    } else if args.len() == 2 {
        args[1]
    } else {
        joined_rest(args.drop_last()) + " "@ + args.last()
    }
}

/// The content `write` puts in the file: the arguments after the path,
/// joined with single spaces.
pub fn write_content(args: &Vec<String>) -> (res: String)
    requires
        args@.len() >= 2,
    ensures
        res@ == joined_rest(args@.map_values(|a: String| a@)),
{
    let ghost av = args@.map_values(|a: String| a@);
    let mut v: Vec<char> = Vec::new();
    push_str(&mut v, args[1].as_str());
    let mut i: usize = 2;
    while i < args.len()
        invariant
            2 <= i <= args.len(),
            av == args@.map_values(|a: String| a@),
            v@ == joined_rest(av.subrange(0, i as int)),
        decreases args.len() - i,
    {
        proof {
            let p = av.subrange(0, i as int + 1);
            assert(p.drop_last() =~= av.subrange(0, i as int));
            assert(p.last() == args@[i as int]@);
            if i == 2 {
                assert(av.subrange(0, 2)[1] == args@[1]@);
            }
        }
        push_str(&mut v, " ");
        push_str(&mut v, args[i].as_str());
        i = i + 1;
    }
    assert(av.subrange(0, args@.len() as int) =~= av);
    string_from_chars(v.as_slice())
}

/// The usage text printed when no command is given.
pub fn usage_lines() -> (res: (&'static str, &'static str))
    ensures
        res.0@ == "Usage: tool_runner <command> [args]"@,
        res.1@ == "Available commands: ls, cat, write, stats"@,
{
    ("Usage: tool_runner <command> [args]", "Available commands: ls, cat, write, stats")
}

/// The error for an unknown command.
pub fn unknown_command_message(name: &str) -> (res: String)
    ensures
        res@ == "Unknown command: "@ + name@,
{
    concat2("Unknown command: ", name)
}

} // verus!
