//! A registry of tools keyed by name, each tagged with the source it came from.
use vstd::prelude::*;
use crate::text::str_eq;

verus! {

/// One registered tool.
pub struct RegisteredTool<T> {
    pub name: String,
    pub source: String,
    pub tool: T,
}

/// The position of the first entry named `name`.
pub open spec fn index_of_name<T>(s: Seq<(Seq<char>, Seq<char>, T)>, name: Seq<char>) -> Option<int>
    decreases s.len(),
{
    if s.len() == 0 {
        None
    } else if s.last().0 == name && index_of_name(s.drop_last(), name) is None {
        Some(s.len() - 1)
    } else {
        index_of_name(s.drop_last(), name)
    }
}

/// The entries after registering `tool` under `name`: an entry with that name
/// is replaced in place, otherwise the tool is added at the end.
pub open spec fn register_spec<T>(
    s: Seq<(Seq<char>, Seq<char>, T)>,
    name: Seq<char>,
    source: Seq<char>,
    tool: T,
) -> Seq<(Seq<char>, Seq<char>, T)> {
    match index_of_name(s, name) {
        Some(i) => s.update(i, (name, source, tool)),
        None => s.push((name, source, tool)),
    }
}

/// The tool registered under `name`, if any.
pub open spec fn lookup_spec<T>(s: Seq<(Seq<char>, Seq<char>, T)>, name: Seq<char>) -> Option<T> {
    match index_of_name(s, name) {
        Some(i) => Some(s[i].2),
        None => None,
    }
}

/// No two entries share a name.
pub open spec fn names_unique<T>(s: Seq<(Seq<char>, Seq<char>, T)>) -> bool {
    forall|i: int, j: int| 0 <= i < j < s.len() ==> s[i].0 != s[j].0
}

pub proof fn lemma_index_of_name<T>(s: Seq<(Seq<char>, Seq<char>, T)>, name: Seq<char>)
    ensures
        match index_of_name(s, name) {
            Some(i) => 0 <= i < s.len() && s[i].0 == name && forall|j: int| 0 <= j < i ==> s[j].0 != name,
            None => forall|j: int| 0 <= j < s.len() ==> s[j].0 != name,
        },
    decreases s.len(),
{
    if s.len() > 0 {
        let p = s.drop_last();
        lemma_index_of_name(p, name);
        assert(forall|j: int| 0 <= j < p.len() ==> p[j] == s[j]);
    }
}

pub proof fn lemma_index_of_first<T>(s: Seq<(Seq<char>, Seq<char>, T)>, name: Seq<char>, i: int)
    requires
        0 <= i < s.len(),
        s[i].0 == name,
        forall|j: int| 0 <= j < i ==> s[j].0 != name,
    ensures
        index_of_name(s, name) == Some(i),
{
    lemma_index_of_name(s, name);
    match index_of_name(s, name) {
        Some(k) => {
            if k < i {
                assert(s[k].0 != name);
            } else if k > i {
                assert(s[i].0 != name);
            }
        },
        None => {
            assert(s[i].0 != name);
        },
    }
}

/// Law: a tool read back by its name after it was registered is the tool that
/// was registered, and tools under other names are unaffected.
pub proof fn lemma_lookup_after_register<T>(
    s: Seq<(Seq<char>, Seq<char>, T)>,
    name: Seq<char>,
    source: Seq<char>,
    tool: T,
    other: Seq<char>,
)
    ensures
        lookup_spec(register_spec(s, name, source, tool), name) == Some(tool),
        other != name ==> lookup_spec(register_spec(s, name, source, tool), other) == lookup_spec(s, other),
{
    let r = register_spec(s, name, source, tool);
    lemma_index_of_name(s, name);
    lemma_index_of_name(s, other);
    match index_of_name(s, name) {
        Some(i) => {
            lemma_index_of_first(r, name, i);
            if other != name {
                match index_of_name(s, other) {
                    Some(k) => {
                        lemma_index_of_first(r, other, k);
                    },
                    None => {
                        lemma_index_of_name(r, other);
                        if let Some(k) = index_of_name(r, other) {
                            assert(r[k].0 == s[k].0);
                        }
                    },
                }
            }
        },
        None => {
            lemma_index_of_first(r, name, s.len() as int);
            if other != name {
                match index_of_name(s, other) {
                    Some(k) => {
                        lemma_index_of_first(r, other, k);
                    },
                    None => {
                        lemma_index_of_name(r, other);
                        if let Some(k) = index_of_name(r, other) {
                            assert(k < s.len());
                            assert(r[k].0 == s[k].0);
                        }
                    },
                }
            }
        },
    }
}

/// Law: registering keeps names unique.
pub proof fn lemma_register_keeps_names_unique<T>(
    s: Seq<(Seq<char>, Seq<char>, T)>,
    name: Seq<char>,
    source: Seq<char>,
    tool: T,
)
    requires
        names_unique(s),
    ensures
        names_unique(register_spec(s, name, source, tool)),
{
    lemma_index_of_name(s, name);
}

/// Law: keeping the entries that pass a test keeps names unique.
pub proof fn lemma_filter_keeps_names_unique<T>(
    s: Seq<(Seq<char>, Seq<char>, T)>,
    f: spec_fn((Seq<char>, Seq<char>, T)) -> bool,
)
    requires
        names_unique(s),
    ensures
        names_unique(s.filter(f)),
    decreases s.len(),
{
    broadcast use vstd::seq_lib::group_filter_ensures;
    reveal_with_fuel(Seq::<_>::filter, 1);
    if s.len() > 0 {
        let p = s.drop_last();
        let x = s.last();
        assert(names_unique(p));
        lemma_filter_keeps_names_unique(p, f);
        if f(x) {
            let fp = p.filter(f);
            assert(s.filter(f) == fp.push(x));
            assert forall|i: int| 0 <= i < fp.len() implies fp[i].0 != x.0 by {
                assert(fp.contains(fp[i]));
                p.lemma_filter_contains_rev(f, fp[i]);
                let k = choose|k: int| 0 <= k < p.len() && p[k] == fp[i];
                assert(s[k] == p[k]);
                assert(s[s.len() - 1] == x);
                assert(k < s.len() - 1);
            }
        }
    }
}

/// The entries that remain after removing those of `source`.
pub open spec fn without_source<T>(s: Seq<(Seq<char>, Seq<char>, T)>, source: Seq<char>) -> Seq<(Seq<char>, Seq<char>, T)> {
    s.filter(other_source::<T>(source))
}

/// The entries of a source other than `source`.
pub open spec fn other_source<T>(source: Seq<char>) -> spec_fn((Seq<char>, Seq<char>, T)) -> bool {
    |e: (Seq<char>, Seq<char>, T)| e.1 != source
}

/// Law: after removing the tools of a source, none of that source is left and
/// every tool of another source is still there.
pub proof fn lemma_unregister_removes_source<T>(s: Seq<(Seq<char>, Seq<char>, T)>, source: Seq<char>)
    ensures
        forall|i: int| 0 <= i < without_source(s, source).len()
            ==> #[trigger] without_source(s, source)[i].1 != source,
        forall|i: int| 0 <= i < s.len() && s[i].1 != source
            ==> without_source(s, source).contains(#[trigger] s[i]),
{
    broadcast use vstd::seq_lib::group_filter_ensures;
    let f = other_source::<T>(source);
    assert forall|i: int| 0 <= i < s.filter(f).len() implies #[trigger] s.filter(f)[i].1 != source by {
        assert(f(s.filter(f)[i]));
    }
    assert forall|i: int| 0 <= i < s.len() && s[i].1 != source implies s.filter(f).contains(#[trigger] s[i]) by {
        assert(f(s[i]));
    }
}

/// Tools by name. Registering a name that is already present replaces that
/// tool; the order of the other tools is kept.
pub struct ToolRegistry<T> {
    pub tools: Vec<RegisteredTool<T>>,
}

impl<T> View for ToolRegistry<T> {
    type V = Seq<(Seq<char>, Seq<char>, T)>;

    open spec fn view(&self) -> Seq<(Seq<char>, Seq<char>, T)> {
        self.tools@.map_values(|e: RegisteredTool<T>| (e.name@, e.source@, e.tool))
    }
}

impl<T> ToolRegistry<T> {
    /// The registry's invariant: no two tools share a name, as in a map keyed
    /// by name.
    pub open spec fn wf(&self) -> bool {
        names_unique(self@)
    }

    pub fn new() -> (res: Self)
        ensures
            res.wf(),
            res@ == Seq::<(Seq<char>, Seq<char>, T)>::empty(),
    {
        ToolRegistry { tools: Vec::new() }
    }

    /// The position of the tool named `name`.
    pub fn position(&self, name: &str) -> (res: Option<usize>)
        ensures
            match res {
                Some(i) => index_of_name(self@, name@) == Some(i as int) && i < self@.len(),
                None => index_of_name(self@, name@) is None,
            },
    {
        proof {
            lemma_index_of_name(self@, name@);
        }
        let mut i: usize = 0;
        while i < self.tools.len()
            invariant
                i <= self.tools.len(),
                forall|j: int| 0 <= j < i ==> self@[j].0 != name@,
            decreases self.tools.len() - i,
        {
            if str_eq(self.tools[i].name.as_str(), name) {
                proof {
                    lemma_index_of_first(self@, name@, i as int);
                }
                return Some(i);
            }
            i = i + 1;
        }
        proof {
            lemma_index_of_name(self@, name@);
            if let Some(k) = index_of_name(self@, name@) {
                assert(self@[k].0 != name@);
            }
        }
        None
    }

    /// Registers `tool` under `name` with its source.
    pub fn register(&mut self, name: String, source: String, tool: T)
        ensures
            final(self)@ == register_spec(old(self)@, name@, source@, tool),
            old(self).wf() ==> final(self).wf(),
    {
        proof {
            if old(self).wf() {
                lemma_register_keeps_names_unique(old(self)@, name@, source@, tool);
            }
        }
        let pos = self.position(name.as_str());
        let ghost n = name@;
        let ghost src = source@;
        match pos {
            Some(i) => {
                self.tools.set(i, RegisteredTool { name, source, tool });
                assert(self@ =~= old(self)@.update(i as int, (n, src, tool)));
            },
            None => {
                self.tools.push(RegisteredTool { name, source, tool });
                assert(self@ =~= old(self)@.push((n, src, tool)));
            },
        }
    }

    /// The tool registered under `name`.
    pub fn get(&self, name: &str) -> (res: Option<&T>)
        ensures
            match res {
                Some(t) => lookup_spec(self@, name@) == Some(*t),
                None => lookup_spec(self@, name@) is None,
            },
    {
        match self.position(name) {
            Some(i) => Some(&self.tools[i].tool),
            None => None,
        }
    }

    /// Names and sources of the registered tools, in registry order.
    pub fn list_tools(&self) -> (res: Vec<(String, String)>)
        ensures
            res@.len() == self@.len(),
            forall|i: int| 0 <= i < self@.len() ==> res@[i].0@ == self@[i].0 && res@[i].1@ == self@[i].1,
    {
        let mut out: Vec<(String, String)> = Vec::new();
        let mut i: usize = 0;
        while i < self.tools.len()
            invariant
                i <= self.tools.len(),
                out@.len() == i,
                forall|j: int| 0 <= j < i ==> out@[j].0@ == self@[j].0 && out@[j].1@ == self@[j].1,
            decreases self.tools.len() - i,
        {
            out.push((self.tools[i].name.clone(), self.tools[i].source.clone()));
            i = i + 1;
        }
        out
    }

    /// Removes every tool whose source equals `prefix`.
    pub fn unregister_by_prefix(&mut self, prefix: &str)
        ensures
            final(self)@ == without_source(old(self)@, prefix@),
            old(self).wf() ==> final(self).wf(),
    {
        proof {
            if old(self).wf() {
                lemma_filter_keeps_names_unique(old(self)@, other_source::<T>(prefix@));
            }
        }
        let ghost f = other_source::<T>(prefix@);
        let mut rest: Vec<RegisteredTool<T>> = Vec::new();
        std::mem::swap(&mut self.tools, &mut rest);
        let ghost orig = rest@.map_values(|e: RegisteredTool<T>| (e.name@, e.source@, e.tool));
        assert(orig == old(self)@);
        let mut k: usize = 0;
        let total = rest.len();
        assert(self@ =~= orig.take(0).filter(f));
        while rest.len() > 0
            invariant
                k + rest.len() == total,
                total == orig.len(),
                f == other_source::<T>(prefix@),
                forall|j: int| 0 <= j < rest.len() ==> (#[trigger] rest@[j]).name@ == orig[k + j].0
                    && rest@[j].source@ == orig[k + j].1 && rest@[j].tool == orig[k + j].2,
                self@ == orig.take(k as int).filter(f),
            decreases rest.len(),
        {
            let e = rest.remove(0);
            let keep = !str_eq(e.source.as_str(), prefix);
            let ghost item = orig[k as int];
            assert(orig.take(k + 1) =~= orig.take(k as int).push(item));
            proof {
                reveal_with_fuel(Seq::<_>::filter, 1);
                assert(orig.take(k + 1).drop_last() =~= orig.take(k as int));
                assert(orig.take(k + 1).last() == item);
                assert(f(item) == (item.1 != prefix@));
                assert(orig.take(k + 1).filter(f) == if f(item) {
                    orig.take(k as int).filter(f).push(item)
                } else {
                    orig.take(k as int).filter(f)
                });
            }
            assert(e.name@ == item.0 && e.source@ == item.1 && e.tool == item.2);
            assert(forall|j: int| 0 <= j < rest.len() ==> (#[trigger] rest@[j]).name@ == orig[k + 1 + j].0
                && rest@[j].source@ == orig[k + 1 + j].1 && rest@[j].tool == orig[k + 1 + j].2);
            if keep {
                self.tools.push(e);
                assert(self@ =~= orig.take(k as int).filter(f).push(item));
            }
            k = k + 1;
        }
        assert(orig.take(total as int) =~= orig);
    }
}

} // verus!
