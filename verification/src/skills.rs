//! Skills: directories holding a SKILL.md (YAML front matter, then
//! instructions) and optionally a script to run. This module reads SKILL.md
//! text, keeps the loaded skills by name and makes the decisions of running
//! one; reading directories and starting scripts is I/O.
use vstd::prelude::*;
use crate::context::ToolDefinition;
use crate::executor::{debug_quote, debug_quote_spec, path_starts_with, path_starts_with_spec, CommandValidator};
use crate::text::{
    chars_of, concat2, concat3, find_from, find_from_exec, has_prefix, owned, slice_chars, starts_with_exec, str_eq,
    string_from_chars, trim, trim_exec,
};

verus! {

/// The front matter of a SKILL.md. `extra` holds the other members as
/// (key, YAML text).
#[derive(Debug, Clone)]
pub struct SkillMetadata {
    pub name: String,
    pub description: String,
    pub version: Option<String>,
    pub author: Option<String>,
    pub extra: Vec<(String, String)>,
}

/// A loaded skill: its directory, front matter and instructions.
#[derive(Debug, Clone)]
pub struct Skill {
    pub path: String,
    pub metadata: SkillMetadata,
    pub instructions: String,
}

/// How SKILL.md text splits into front matter and trimmed instructions: it
/// must start with "---", a second "---" must close the front matter, and
/// the front matter must not be blank.
pub open spec fn skill_sections(content: Seq<char>) -> Result<(Seq<char>, Seq<char>), Seq<char>> {
    if !has_prefix(content, "---"@) {
        Err("SKILL.md must start with --- for frontmatter"@)
    } else {
        match find_from(content, "---"@, 3) {
            None => Err("Invalid SKILL.md frontmatter separator"@),
            Some(k) => if trim(content.subrange(3, k)).len() == 0 {
                Err("Empty frontmatter in SKILL.md"@)
            } else {
                Ok((content.subrange(3, k), trim(content.subrange(k + 3, content.len() as int))))
            },
        }
    }
}

/// Splits SKILL.md text into its front matter and its trimmed instructions.
pub fn split_skill_file(content: &str) -> (res: Result<(String, String), String>)
    ensures
        match res {
            Ok((f, i)) => skill_sections(content@) == Ok::<(Seq<char>, Seq<char>), Seq<char>>((f@, i@)),
            Err(e) => skill_sections(content@) == Err::<(Seq<char>, Seq<char>), Seq<char>>(e@),
        },
{
    let c = chars_of(content);
    let sep = chars_of("---");
    proof {
        reveal_strlit("---");
    }
    if !starts_with_exec(c.as_slice(), sep.as_slice()) {
        return Err(owned("SKILL.md must start with --- for frontmatter"));
    }
    let k = match find_from_exec(c.as_slice(), sep.as_slice(), 3) {
        Some(k) => k,
        None => return Err(owned("Invalid SKILL.md frontmatter separator")),
    };
    proof {
        crate::text::lemma_find_from(c@, sep@, 3);
    }
    let front = slice_chars(c.as_slice(), 3, k);
    let tf = trim_exec(front.as_slice());
    if tf.len() == 0 {
        return Err(owned("Empty frontmatter in SKILL.md"));
    }
    let rest = slice_chars(c.as_slice(), k + 3, c.len());
    let body = trim_exec(rest.as_slice());
    Ok((string_from_chars(front.as_slice()), string_from_chars(body.as_slice())))
}

/// The error for front matter that is not valid YAML for a skill.
pub fn frontmatter_error_message() -> (res: String)
    ensures
        res@ == "Failed to parse SKILL.md frontmatter"@,
{
    owned("Failed to parse SKILL.md frontmatter")
}

/// A skill from its directory, its parsed front matter and instructions;
/// its name and description must not be empty.
pub fn finish_skill(path: String, metadata: SkillMetadata, instructions: String) -> (res: Result<Skill, String>)
    ensures
        metadata.name@.len() == 0 ==> (res matches Err(e) && e@ == "Skill name is required"@),
        metadata.name@.len() > 0 && metadata.description@.len() == 0 ==> (res matches Err(e)
            && e@ == "Skill description is required"@),
        metadata.name@.len() > 0 && metadata.description@.len() > 0 ==> (res matches Ok(s) && s.path == path
            && s.metadata == metadata && s.instructions == instructions),
{
    if crate::agent::str_is_empty(metadata.name.as_str()) {
        return Err(owned("Skill name is required"));
    }
    if crate::agent::str_is_empty(metadata.description.as_str()) {
        return Err(owned("Skill description is required"));
    }
    Ok(Skill { path, metadata, instructions })
}

/// `char::is_alphanumeric`: the character is alphabetic or numeric in Unicode.
pub uninterp spec fn alphanumeric_spec(c: char) -> bool;

/// `char::is_alphanumeric`.
#[verifier::external_body]
fn is_alphanumeric(c: char) -> (res: bool)
    ensures
        res == alphanumeric_spec(c),
{
    c.is_alphanumeric()
}

/// An ASCII letter or digit.
pub open spec fn ascii_alphanumeric(c: char) -> bool {
    ('a' <= c && c <= 'z') || ('A' <= c && c <= 'Z') || ('0' <= c && c <= '9')
}

/// A character allowed in a skill name: alphanumeric, '_' or '-'. Among
/// ASCII characters the alphanumeric ones are exactly the letters and
/// digits (`char::is_alphanumeric`), so those are tested directly; other
/// characters go by `char::is_alphanumeric`.
pub open spec fn skill_name_char(c: char) -> bool {
    if (c as u32) < 128 {
        ascii_alphanumeric(c) || c == '_' || c == '-'
    } else {
        alphanumeric_spec(c)
    }
}

/// A skill name holds only letters, digits, '_' and '-'.
pub open spec fn valid_skill_name(name: Seq<char>) -> bool {
    forall|i: int| 0 <= i < name.len() ==> skill_name_char(#[trigger] name[i])
}

/// Law: a name made of ASCII letters (either case), digits, '_' and '-' is
/// a valid skill name, and an ASCII name holding any other character is not.
pub proof fn lemma_ascii_skill_names(name: Seq<char>)
    ensures
        (forall|i: int| 0 <= i < name.len() ==> {
            let c = #[trigger] name[i];
            ('a' <= c && c <= 'z') || ('A' <= c && c <= 'Z') || ('0' <= c && c <= '9') || c == '_' || c == '-'
        }) ==> valid_skill_name(name),
        (exists|i: int| 0 <= i < name.len() && {
            let c = #[trigger] name[i];
            (c as u32) < 128 && !(('a' <= c && c <= 'z') || ('A' <= c && c <= 'Z') || ('0' <= c && c <= '9') || c == '_' || c == '-')
        }) ==> !valid_skill_name(name),
{
    assert forall|c: char| ('a' <= c && c <= 'z') || ('A' <= c && c <= 'Z') || ('0' <= c && c <= '9') || c == '_' || c == '-'
        implies #[trigger] skill_name_char(c) by {
        assert((c as u32) < 128) by {
            assert(('a' <= c && c <= 'z') ==> (c as u32) <= 122);
        }
    }
}

/// Whether `name` may name a skill.
pub fn is_valid_skill_name(name: &str) -> (res: bool)
    ensures
        res == valid_skill_name(name@),
{
    let c = chars_of(name);
    let mut i: usize = 0;
    while i < c.len()
        invariant
            i <= c.len(),
            c@ == name@,
            forall|j: int| 0 <= j < i ==> skill_name_char(#[trigger] name@[j]),
        decreases c.len() - i,
    {
        let ch = c[i];
        let allowed = if (ch as u32) < 128 {
            ('a' <= ch && ch <= 'z') || ('A' <= ch && ch <= 'Z') || ('0' <= ch && ch <= '9') || ch == '_' || ch == '-'
        } else {
            is_alphanumeric(ch)
        };
        if !allowed {
            return false;
        }
        i = i + 1;
    }
    true
}

/// The position of the skill named `name`.
pub open spec fn skill_index(s: Seq<Skill>, name: Seq<char>) -> Option<int>
    decreases s.len(),
{
    if s.len() == 0 {
        None
    } else {
        match skill_index(s.drop_last(), name) {
            Some(i) => Some(i),
            None => if s.last().metadata.name@ == name { Some(s.len() - 1) } else { None },
        }
    }
}

pub proof fn lemma_skill_index(s: Seq<Skill>, name: Seq<char>)
    ensures
        match skill_index(s, name) {
            Some(i) => 0 <= i < s.len() && s[i].metadata.name@ == name
                && forall|j: int| 0 <= j < i ==> s[j].metadata.name@ != name,
            None => forall|j: int| 0 <= j < s.len() ==> s[j].metadata.name@ != name,
        },
    decreases s.len(),
{
    if s.len() > 0 {
        let p = s.drop_last();
        lemma_skill_index(p, name);
        assert forall|j: int| 0 <= j < p.len() implies p[j] == s[j] by {}
    }
}

/// The skills after loading `k`: a skill of the same name is replaced in
/// place, otherwise `k` is added.
pub open spec fn put_skill(s: Seq<Skill>, k: Skill) -> Seq<Skill> {
    match skill_index(s, k.metadata.name@) {
        Some(i) => s.update(i, k),
        None => s.push(k),
    }
}

/// The skills kept from a list loaded in order: one per name, the one
/// loaded last.
pub open spec fn kept_skills(loaded: Seq<Skill>) -> Seq<Skill>
    decreases loaded.len(),
{
    if loaded.len() == 0 {
        Seq::empty()
    } else {
        put_skill(kept_skills(loaded.drop_last()), loaded.last())
    }
}

/// No two skills share a name.
pub open spec fn skill_names_unique(s: Seq<Skill>) -> bool {
    forall|i: int, j: int| 0 <= i < j < s.len() ==> s[i].metadata.name@ != s[j].metadata.name@
}

/// The skill named `name` in a list, if any.
pub open spec fn skill_named(s: Seq<Skill>, name: Seq<char>) -> Option<Skill> {
    match skill_index(s, name) {
        Some(i) => Some(s[i]),
        None => None,
    }
}

/// The last skill named `name` in a list of loaded skills, if any.
pub open spec fn last_loaded(loaded: Seq<Skill>, name: Seq<char>) -> Option<Skill>
    decreases loaded.len(),
{
    if loaded.len() == 0 {
        None
    } else if loaded.last().metadata.name@ == name {
        Some(loaded.last())
    } else {
        last_loaded(loaded.drop_last(), name)
    }
}

proof fn lemma_put_skill(s: Seq<Skill>, k: Skill, name: Seq<char>)
    requires
        skill_names_unique(s),
    ensures
        skill_names_unique(put_skill(s, k)),
        skill_named(put_skill(s, k), name) == if k.metadata.name@ == name { Some(k) } else { skill_named(s, name) },
{
    lemma_skill_index(s, k.metadata.name@);
    lemma_skill_index(s, name);
    let r = put_skill(s, k);
    lemma_skill_index(r, name);
    match skill_index(s, k.metadata.name@) {
        Some(i) => {
            assert(r.len() == s.len());
            if k.metadata.name@ == name {
                assert(r[i] == k);
                assert forall|j: int| 0 <= j < i implies r[j] == s[j] by {}
                assert(skill_index(r, name) == Some(i));
            } else {
                match skill_index(s, name) {
                    Some(m) => {
                        assert(r[m] == s[m]);
                    },
                    None => {},
                }
            }
        },
        None => {
            if k.metadata.name@ != name {
                match skill_index(s, name) {
                    Some(m) => {
                        assert(r[m] == s[m]);
                    },
                    None => {},
                }
            }
        },
    }
}

/// Law: the kept skills have distinct names, and the skill kept under a name
/// is the one loaded last under that name.
pub proof fn lemma_kept_skills(loaded: Seq<Skill>, name: Seq<char>)
    ensures
        skill_names_unique(kept_skills(loaded)),
        skill_named(kept_skills(loaded), name) == last_loaded(loaded, name),
    decreases loaded.len(),
{
    if loaded.len() > 0 {
        lemma_kept_skills(loaded.drop_last(), name);
        lemma_put_skill(kept_skills(loaded.drop_last()), loaded.last(), name);
    }
}

/// How long a skill's script may run, in seconds.
pub const SKILL_SCRIPT_TIMEOUT_SECS: u64 = 30;

/// The skills found under a root directory, and the validator that checks
/// the arguments handed to their scripts.
pub struct SkillExecutor {
    pub skills_root: String,
    pub skills: Vec<Skill>,
    pub validator: CommandValidator,
}

/// The schema every skill takes: an object with a string `input`.
pub open spec fn skill_parameters() -> Seq<char> {
    "{\"properties\":{\"input\":{\"type\":\"string\"}},\"type\":\"object\"}"@
}

/// The scripts a skill may run, in the order they are looked for.
pub open spec fn skill_scripts_spec() -> Seq<Seq<char>> {
    seq!["run.sh"@, "run.py"@, "run.js"@]
}

/// The interpreter for a script, by its suffix.
pub open spec fn interpreter_spec(script: Seq<char>) -> Option<Seq<char>> {
    if has_suffix(script, ".sh"@) {
        Some("bash"@)
    } else if has_suffix(script, ".py"@) {
        Some("python"@)
    } else if has_suffix(script, ".js"@) {
        Some("node"@)
    } else {
        None
    }
}

/// `s` ends with `t`.
pub open spec fn has_suffix(s: Seq<char>, t: Seq<char>) -> bool {
    t.len() <= s.len() && s.subrange(s.len() - t.len(), s.len() as int) =~= t
}

fn ends_with(s: &str, t: &str) -> (res: bool)
    ensures
        res == has_suffix(s@, t@),
{
    let a = chars_of(s);
    let b = chars_of(t);
    if b.len() > a.len() {
        return false;
    }
    let tail = slice_chars(a.as_slice(), a.len() - b.len(), a.len());
    let mut i: usize = 0;
    while i < b.len()
        invariant
            i <= b.len(),
            tail@.len() == b@.len(),
            a@ == s@,
            b@ == t@,
            tail@ == a@.subrange(a@.len() - b@.len(), a@.len() as int),
            forall|j: int| 0 <= j < i ==> tail@[j] == b@[j],
        decreases b.len() - i,
    {
        if tail[i] != b[i] {
            assert(tail@[i as int] != b@[i as int]);
            return false;
        }
        i = i + 1;
    }
    assert(tail@ =~= b@);
    true
}

impl SkillExecutor {
    /// The executor's invariant: no two loaded skills share a name, as in a
    /// map keyed by name.
    pub open spec fn wf(&self) -> bool {
        skill_names_unique(self.skills@)
    }

    /// An executor over `skills_root` with no skills loaded and the default
    /// command validator.
    pub fn new(skills_root: String) -> (res: Self)
        ensures
            res.wf(),
            res.skills_root@ == skills_root@,
            res.skills@.len() == 0,
            res.validator.allowed() == crate::executor::default_validator_commands(),
    {
        SkillExecutor { skills_root, skills: Vec::new(), validator: CommandValidator::new_default() }
    }

    /// Replaces the skills with those loaded, one per name: the one loaded
    /// last.
    pub fn replace_skills(&mut self, loaded: Vec<Skill>)
        ensures
            final(self).skills@ == kept_skills(loaded@),
            final(self).wf(),
            final(self).skills_root@ == old(self).skills_root@,
    {
        let ghost all = loaded@;
        let mut rest = loaded;
        let mut kept: Vec<Skill> = Vec::new();
        while rest.len() > 0
            invariant
                rest@.len() <= all.len(),
                rest@ == all.subrange(all.len() - rest@.len(), all.len() as int),
                kept@ == kept_skills(all.subrange(0, all.len() - rest@.len())),
            decreases rest@.len(),
        {
            let ghost done = all.len() - rest@.len();
            let k = rest.remove(0);
            assert(k == all[done]);
            match self.find_in(&kept, k.metadata.name.as_str()) {
                Some(j) => {
                    kept.set(j, k);
                },
                None => {
                    kept.push(k);
                },
            }
            proof {
                assert(all.subrange(0, done + 1).drop_last() =~= all.subrange(0, done));
                assert(rest@ =~= all.subrange(all.len() - rest@.len(), all.len() as int));
            }
        }
        assert(all.subrange(0, all.len() as int) =~= all);
        proof {
            lemma_kept_skills(all, Seq::empty());
        }
        self.skills = kept;
    }

    fn find_in(&self, list: &Vec<Skill>, name: &str) -> (res: Option<usize>)
        ensures
            match res {
                Some(i) => skill_index(list@, name@) == Some(i as int) && i < list@.len(),
                None => skill_index(list@, name@) is None,
            },
    {
        proof {
            lemma_skill_index(list@, name@);
        }
        let mut i: usize = 0;
        while i < list.len()
            invariant
                i <= list.len(),
                forall|j: int| 0 <= j < i ==> list@[j].metadata.name@ != name@,
            decreases list.len() - i,
        {
            if str_eq(list[i].metadata.name.as_str(), name) {
                proof {
                    lemma_skill_index(list@, name@);
                }
                return Some(i);
            }
            i = i + 1;
        }
        None
    }

    /// The skill named `name`.
    pub fn get(&self, name: &str) -> (res: Option<&Skill>)
        ensures
            match res {
                Some(k) => skill_named(self.skills@, name@) == Some(*k),
                None => skill_named(self.skills@, name@) is None,
            },
    {
        match self.find_in(&self.skills, name) {
            Some(i) => Some(&self.skills[i]),
            None => None,
        }
    }

    /// The skill a call runs: the name must be valid and loaded.
    pub fn resolve(&self, name: &str) -> (res: Result<&Skill, String>)
        ensures
            !valid_skill_name(name@) ==> (res matches Err(e)
                && e@ == "Invalid skill name: "@ + name@ + " (only alphanumeric, _, - allowed)"@),
            valid_skill_name(name@) ==> match skill_named(self.skills@, name@) {
                Some(k) => res matches Ok(r) && *r == k,
                None => res matches Err(e) && e@ == "Skill '"@ + name@ + "' not found"@,
            },
    {
        if !is_valid_skill_name(name) {
            return Err(concat3("Invalid skill name: ", name, " (only alphanumeric, _, - allowed)"));
        }
        match self.get(name) {
            Some(k) => Ok(k),
            None => Err(concat3("Skill '", name, "' not found")),
        }
    }

    /// The tool definitions of the loaded skills.
    pub fn definitions(&self) -> (res: Vec<ToolDefinition>)
        ensures
            res@.len() == self.skills@.len(),
            forall|i: int| 0 <= i < res@.len() ==> {
                &&& (#[trigger] res@[i]).name@ == self.skills@[i].metadata.name@
                &&& res@[i].description@ == self.skills@[i].metadata.description@
                &&& res@[i].parameters@ == skill_parameters()
            },
    {
        let mut out: Vec<ToolDefinition> = Vec::new();
        let mut i: usize = 0;
        while i < self.skills.len()
            invariant
                i <= self.skills@.len(),
                out@.len() == i,
                forall|j: int| 0 <= j < i ==> {
                    &&& (#[trigger] out@[j]).name@ == self.skills@[j].metadata.name@
                    &&& out@[j].description@ == self.skills@[j].metadata.description@
                    &&& out@[j].parameters@ == skill_parameters()
                },
            decreases self.skills@.len() - i,
        {
            let k = &self.skills[i];
            out.push(ToolDefinition {
                name: k.metadata.name.clone(),
                description: k.metadata.description.clone(),
                parameters: owned("{\"properties\":{\"input\":{\"type\":\"string\"}},\"type\":\"object\"}"),
            });
            i = i + 1;
        }
        out
    }

    /// The scripts a skill may run, in the order they are looked for.
    pub fn scripts() -> (res: [&'static str; 3])
        ensures
            res@.map_values(|s: &str| s@) == skill_scripts_spec(),
    {
        let res: [&'static str; 3] = ["run.sh", "run.py", "run.js"];
        assert(res@.map_values(|s: &str| s@) =~= skill_scripts_spec());
        res
    }

    /// The interpreter that runs `script`.
    pub fn interpreter(script: &str) -> (res: Option<&'static str>)
        ensures
            match res {
                Some(i) => interpreter_spec(script@) == Some(i@),
                None => interpreter_spec(script@) is None,
            },
    {
        if ends_with(script, ".sh") {
            Some("bash")
        } else if ends_with(script, ".py") {
            Some("python")
        } else if ends_with(script, ".js") {
            Some("node")
        } else {
            None
        }
    }

    /// The answer when a skill has no scripts directory.
    pub fn activated_message(name: &str) -> (res: String)
        ensures
            res@ == "Skill '"@ + name@ + "' activated. Instructions loaded into context."@,
    {
        concat3("Skill '", name, "' activated. Instructions loaded into context.")
    }

    /// The error when a skill's directory lies outside the skills root.
    pub fn escape_message() -> (res: String)
        ensures
            res@ == "Skill path escapes skills directory"@,
    {
        owned("Skill path escapes skills directory")
    }

    /// Checks that a skill's directory lies under the skills root, both given
    /// in canonical form: the escape error when it does not.
    pub fn check_within_root(skill_path: &str, root: &str) -> (res: Result<(), String>)
        ensures
            path_starts_with_spec(skill_path@, root@) <==> res is Ok,
            res matches Err(e) ==> e@ == "Skill path escapes skills directory"@,
    {
        if path_starts_with(skill_path, root) {
            Ok(())
        } else {
            Err(Self::escape_message())
        }
    }

    /// The error when a script may not be executed.
    pub fn not_executable_message(script: &str) -> (res: String)
        ensures
            res@ == "Skill script "@ + debug_quote_spec(script@) + " is not executable. Please run 'chmod +x' on it."@,
    {
        let q = debug_quote(script);
        concat3("Skill script ", q.as_str(), " is not executable. Please run 'chmod +x' on it.")
    }

    /// The error when a script runs too long.
    pub fn timeout_message() -> (res: String)
        ensures
            res@ == "Skill script execution timed out after 30s"@,
    {
        owned("Skill script execution timed out after 30s")
    }

    /// The error when a script fails, with what it wrote to stderr.
    pub fn failed_message(stderr: &str) -> (res: String)
        ensures
            res@ == "Skill script failed: "@ + stderr@,
    {
        concat2("Skill script failed: ", stderr)
    }

    /// The error when no script could be run from `scripts_dir`.
    pub fn no_script_message(scripts_dir: &str) -> (res: String)
        ensures
            res@ == "No executable script found in "@ + debug_quote_spec(scripts_dir@)
                + ". Looked for: [\"run.sh\", \"run.py\", \"run.js\"]"@,
    {
        let q = debug_quote(scripts_dir);
        concat3("No executable script found in ", q.as_str(), ". Looked for: [\"run.sh\", \"run.py\", \"run.js\"]")
    }
}

} // verus!
