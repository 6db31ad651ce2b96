//! Character-level text utilities with their mathematical specifications.
//!
//! Strings are handled through their views (`Seq<char>`); the executable
//! functions work on `Vec<char>` and are proved equal to the spec functions.
use vstd::prelude::*;

verus! {

// ---------------------------------------------------------------------------
// Specifications
// ---------------------------------------------------------------------------

/// `pat` occurs in `s` starting at position `i`.
pub open spec fn occurs_at(s: Seq<char>, pat: Seq<char>, i: int) -> bool {
    0 <= i && i + pat.len() <= s.len() && s.subrange(i, i + pat.len()) =~= pat
}

/// `pat` occurs somewhere in `s`.
pub open spec fn occurs(s: Seq<char>, pat: Seq<char>) -> bool {
    exists|i: int| occurs_at(s, pat, i)
}

/// The first position at or after `i` where `pat` occurs in `s`.
pub open spec fn find_from(s: Seq<char>, pat: Seq<char>, i: int) -> Option<int>
    decreases s.len() - i,
{
    if i < 0 || i + pat.len() > s.len() {
        None
    } else if occurs_at(s, pat, i) {
        Some(i)
    } else {
        find_from(s, pat, i + 1)
    }
}

/// The first position where `pat` occurs in `s` (`str::find`).
pub open spec fn find_spec(s: Seq<char>, pat: Seq<char>) -> Option<int> {
    find_from(s, pat, 0)
}

/// Replaces, from position `i` on, every leftmost non-overlapping occurrence
/// of `pat` by `rep` (`str::replace` for a non-empty pattern).
pub open spec fn replace_from(s: Seq<char>, pat: Seq<char>, rep: Seq<char>, i: int) -> Seq<char>
    recommends
        pat.len() > 0,
    decreases s.len() - i,
{
    if pat.len() == 0 || i < 0 || i > s.len() {
        s.subrange(0, 0)
    } else {
        match find_from(s, pat, i) {
            None => s.subrange(i, s.len() as int),
            Some(k) => if k >= i && k + pat.len() <= s.len() {
                s.subrange(i, k) + rep + replace_from(s, pat, rep, k + pat.len())
            } else {
                s.subrange(0, 0)
            },
        }
    }
}

/// `s` with every leftmost non-overlapping occurrence of `pat` replaced by `rep`.
pub open spec fn replace_all(s: Seq<char>, pat: Seq<char>, rep: Seq<char>) -> Seq<char> {
    replace_from(s, pat, rep, 0)
}

/// Unicode `White_Space` (what `char::is_whitespace` tests).
pub open spec fn is_ws(c: char) -> bool {
    ||| ('\u{9}' <= c && c <= '\u{d}')
    ||| c == ' '
    ||| c == '\u{85}'
    ||| c == '\u{a0}'
    ||| c == '\u{1680}'
    ||| ('\u{2000}' <= c && c <= '\u{200a}')
    ||| c == '\u{2028}'
    ||| c == '\u{2029}'
    ||| c == '\u{202f}'
    ||| c == '\u{205f}'
    ||| c == '\u{3000}'
}

/// `s` without its leading whitespace.
pub open spec fn trim_start(s: Seq<char>) -> Seq<char>
    decreases s.len(),
{
    if s.len() > 0 && is_ws(s[0]) {
        trim_start(s.drop_first())
    } else {
        s
    }
}

/// `s` without its trailing whitespace.
pub open spec fn trim_end(s: Seq<char>) -> Seq<char>
    decreases s.len(),
{
    if s.len() > 0 && is_ws(s.last()) {
        trim_end(s.drop_last())
    } else {
        s
    }
}

/// `s` without leading and trailing whitespace (`str::trim`).
pub open spec fn trim(s: Seq<char>) -> Seq<char> {
    trim_end(trim_start(s))
}

/// Number of occurrences of the character `c` in `s`.
pub open spec fn count_char(s: Seq<char>, c: char) -> nat
    decreases s.len(),
{
    if s.len() == 0 {
        0
    } else {
        count_char(s.drop_last(), c) + if s.last() == c { 1nat } else { 0nat }
    }
}

/// `n` copies of `c`.
pub open spec fn repeat_char(c: char, n: nat) -> Seq<char> {
    Seq::new(n, |i: int| c)
}

/// `p` is a prefix of `s`.
pub open spec fn has_prefix(s: Seq<char>, p: Seq<char>) -> bool {
    p.len() <= s.len() && s.subrange(0, p.len() as int) =~= p
}

/// `s` holds the character `c`.
pub open spec fn has_char(s: Seq<char>, c: char) -> bool {
    exists|i: int| 0 <= i < s.len() && s[i] == c
}

/// Decimal digits of a natural number (the `Display` form of unsigned integers).
pub open spec fn decimal(n: nat) -> Seq<char>
    decreases n,
{
    if n < 10 {
        seq![digit_char(n)]
    } else {
        decimal(n / 10) + seq![digit_char(n % 10)]
    }
}

/// The ASCII digit for `d < 10`.
pub open spec fn digit_char(d: nat) -> char {
    if d == 0 { '0' }
    else if d == 1 { '1' }
    else if d == 2 { '2' }
    else if d == 3 { '3' }
    else if d == 4 { '4' }
    else if d == 5 { '5' }
    else if d == 6 { '6' }
    else if d == 7 { '7' }
    else if d == 8 { '8' }
    else { '9' }
}

/// Decimal form of a signed integer (`Display` for signed integers).
pub open spec fn signed_decimal(n: int) -> Seq<char> {
    if n < 0 {
        seq!['-'] + decimal((-n) as nat)
    } else {
        decimal(n as nat)
    }
}

// ---------------------------------------------------------------------------
// Lemmas
// ---------------------------------------------------------------------------

/// `find_from` returns the first occurrence at or after `i`.
pub proof fn lemma_find_from(s: Seq<char>, pat: Seq<char>, i: int)
    requires
        0 <= i,
    ensures
        match find_from(s, pat, i) {
            Some(k) => i <= k && occurs_at(s, pat, k) && forall|j: int|
                i <= j < k ==> !occurs_at(s, pat, j),
            None => forall|j: int| i <= j ==> !occurs_at(s, pat, j),
        },
    decreases s.len() - i,
{
    if i + pat.len() > s.len() {
    } else if occurs_at(s, pat, i) {
    } else {
        lemma_find_from(s, pat, i + 1);
    }
}

/// The exact characterisation of `find_from` by the first occurrence.
pub proof fn lemma_find_from_is_first(s: Seq<char>, pat: Seq<char>, i: int, k: int)
    requires
        0 <= i <= k,
        occurs_at(s, pat, k),
        forall|j: int| i <= j < k ==> !occurs_at(s, pat, j),
    ensures
        find_from(s, pat, i) == Some(k),
    decreases k - i,
{
    if i < k {
        lemma_find_from_is_first(s, pat, i + 1, k);
    }
}

/// No occurrence of `q` in a concatenation when neither part holds one and
/// the characters at the seam cannot be part of `q`.
pub proof fn lemma_no_occurrence_concat(x: Seq<char>, y: Seq<char>, q: Seq<char>)
    requires
        q.len() > 0,
        !occurs(x, q),
        !occurs(y, q),
        (x.len() > 0 && !has_char(q, x.last())) || (y.len() > 0 && !has_char(q, y[0]))
            || x.len() == 0 || y.len() == 0,
    ensures
        !occurs(x + y, q),
{
    let xy = x + y;
    assert forall|j: int| !occurs_at(xy, q, j) by {
        if occurs_at(xy, q, j) {
            if j + q.len() <= x.len() {
                assert(xy.subrange(j, j + q.len()) =~= x.subrange(j, j + q.len()));
                assert(occurs_at(x, q, j));
            } else if j >= x.len() {
                assert(xy.subrange(j, j + q.len()) =~= y.subrange(j - x.len(), j - x.len() + q.len()));
                assert(occurs_at(y, q, j - x.len()));
            } else {
                // the window crosses the seam
                if x.len() > 0 && !has_char(q, x.last()) {
                    let k = x.len() - 1 - j;
                    assert(xy.subrange(j, j + q.len())[k] == q[k]);
                    assert(q[k] == x.last());
                } else {
                    let k = x.len() - j;
                    assert(xy.subrange(j, j + q.len())[k] == q[k]);
                    assert(q[k] == y[0]);
                }
            }
        }
    }
}

/// An occurrence inside a slice is an occurrence in the whole sequence.
pub proof fn lemma_occurs_in_slice(s: Seq<char>, q: Seq<char>, lo: int, hi: int, j: int)
    requires
        0 <= lo <= hi <= s.len(),
        occurs_at(s.subrange(lo, hi), q, j),
    ensures
        occurs_at(s, q, lo + j),
{
    assert(s.subrange(lo, hi).subrange(j, j + q.len()) =~= s.subrange(lo + j, lo + j + q.len()));
}

/// Replacement keeps every pattern `q` out of the result when `q` is absent
/// from the input (or is the replaced pattern itself), absent from `rep`, and
/// the first and last characters of `rep` are not characters of `q`.
pub proof fn lemma_replace_from_no_occurrence(
    s: Seq<char>,
    pat: Seq<char>,
    rep: Seq<char>,
    q: Seq<char>,
    i: int,
)
    requires
        pat.len() > 0,
        q.len() > 0,
        0 <= i <= s.len(),
        q == pat || !occurs(s, q),
        rep.len() > 0,
        !occurs(rep, q),
        !has_char(q, rep[0]),
        !has_char(q, rep.last()),
    ensures
        !occurs(replace_from(s, pat, rep, i), q),
    decreases s.len() - i,
{
    lemma_find_from(s, pat, i);
    match find_from(s, pat, i) {
        None => {
            let a = s.subrange(i, s.len() as int);
            assert forall|j: int| !occurs_at(a, q, j) by {
                if occurs_at(a, q, j) {
                    lemma_occurs_in_slice(s, q, i, s.len() as int, j);
                }
            }
        },
        Some(k) => {
            let a = s.subrange(i, k);
            assert forall|j: int| !occurs_at(a, q, j) by {
                if occurs_at(a, q, j) {
                    lemma_occurs_in_slice(s, q, i, k, j);
                }
            }
            lemma_replace_from_no_occurrence(s, pat, rep, q, k + pat.len());
            let b = replace_from(s, pat, rep, k + pat.len());
            lemma_no_occurrence_concat(rep, b, q);
            lemma_no_occurrence_concat(a, rep + b, q);
            assert(a + rep + b =~= a + (rep + b));
        },
    }
}

/// A text without `pat` is left unchanged by replacement.
pub proof fn lemma_replace_absent(s: Seq<char>, pat: Seq<char>, rep: Seq<char>)
    requires
        pat.len() > 0,
        !occurs(s, pat),
    ensures
        replace_all(s, pat, rep) == s,
{
    lemma_find_from(s, pat, 0);
    if let Some(k) = find_from(s, pat, 0) {
        assert(occurs_at(s, pat, k));
    }
    assert(s.subrange(0, s.len() as int) =~= s);
}

// ---------------------------------------------------------------------------
// Executable functions
// ---------------------------------------------------------------------------

/// Copies the characters of a string slice into a vector.
pub fn chars_of(s: &str) -> (res: Vec<char>)
    ensures
        res@ == s@,
{
    let mut res: Vec<char> = Vec::new();
    for c in it: s.chars()
        invariant
            res@ == it.seq().take(it.index()),
            it.seq() == s@,
    {
        res.push(c);
    }
    res
}

/// Builds a string from characters (`FromIterator<char>` for `String`).
#[verifier::external_body]
pub(crate) fn string_from_chars(chars: &[char]) -> (res: String)
    ensures
        res@ == chars@,
{
    chars.iter().collect()
}

/// Copies a string slice into an owned string.
pub fn owned(s: &str) -> (res: String)
    ensures
        res@ == s@,
{
    s.to_string()
}

/// Appends all of `src` to `dst`.
pub fn push_all(dst: &mut Vec<char>, src: &[char])
    ensures
        final(dst)@ == old(dst)@ + src@,
{
    let mut i: usize = 0;
    while i < src.len()
        invariant
            i <= src.len(),
            dst@ == old(dst)@ + src@.take(i as int),
        decreases src.len() - i,
    {
        dst.push(src[i]);
        i = i + 1;
        assert(src@.take(i as int) =~= src@.take(i - 1) + seq![src@[i - 1]]);
    }
    assert(src@.take(src.len() as int) =~= src@);
}

/// Appends the characters of a string slice to `dst`.
pub fn push_str(dst: &mut Vec<char>, s: &str)
    ensures
        final(dst)@ == old(dst)@ + s@,
{
    let cs = chars_of(s);
    push_all(dst, cs.as_slice());
}

/// Concatenation of two string slices.
pub fn concat2(a: &str, b: &str) -> (res: String)
    ensures
        res@ == a@ + b@,
{
    let mut v: Vec<char> = Vec::new();
    push_str(&mut v, a);
    push_str(&mut v, b);
    string_from_chars(v.as_slice())
}

/// Concatenation of three string slices.
pub fn concat3(a: &str, b: &str, c: &str) -> (res: String)
    ensures
        res@ == a@ + b@ + c@,
{
    let mut v: Vec<char> = Vec::new();
    push_str(&mut v, a);
    push_str(&mut v, b);
    push_str(&mut v, c);
    string_from_chars(v.as_slice())
}

/// Concatenation of five string slices.
pub fn concat5(a: &str, b: &str, c: &str, d: &str, e: &str) -> (res: String)
    ensures
        res@ == a@ + b@ + c@ + d@ + e@,
{
    let mut v: Vec<char> = Vec::new();
    push_str(&mut v, a);
    push_str(&mut v, b);
    push_str(&mut v, c);
    push_str(&mut v, d);
    push_str(&mut v, e);
    string_from_chars(v.as_slice())
}

/// Whether `pat` occurs in `s` at position `i`.
pub fn occurs_at_exec(s: &[char], pat: &[char], i: usize) -> (res: bool)
    ensures
        res == occurs_at(s@, pat@, i as int),
{
    if pat.len() > s.len() || i > s.len() - pat.len() {
        return false;
    }
    let mut k: usize = 0;
    while k < pat.len()
        invariant
            k <= pat.len(),
            i + pat.len() <= s.len(),
            forall|j: int| 0 <= j < k ==> s@[i + j] == pat@[j],
        decreases pat.len() - k,
    {
        if s[i + k] != pat[k] {
            assert(s@.subrange(i as int, i + pat.len())[k as int] != pat@[k as int]);
            return false;
        }
        k = k + 1;
    }
    assert(s@.subrange(i as int, i + pat.len()) =~= pat@);
    true
}

/// The first position at or after `from` where `pat` occurs in `s`.
pub fn find_from_exec(s: &[char], pat: &[char], from: usize) -> (res: Option<usize>)
    ensures
        match res {
            Some(k) => find_from(s@, pat@, from as int) == Some(k as int),
            None => find_from(s@, pat@, from as int) is None,
        },
{
    if pat.len() > s.len() || from > s.len() - pat.len() {
        return None;
    }
    let last = s.len() - pat.len();
    let mut i = from;
    while i <= last
        invariant
            from <= i <= last + 1,
            last + pat.len() == s.len(),
            find_from(s@, pat@, from as int) == find_from(s@, pat@, i as int),
        decreases last + 1 - i,
    {
        if occurs_at_exec(s, pat, i) {
            return Some(i);
        }
        i = i + 1;
    }
    None
}

/// The first position where `pat` occurs in `s` (`str::find`).
pub fn find_exec(s: &[char], pat: &[char]) -> (res: Option<usize>)
    ensures
        match res {
            Some(k) => find_spec(s@, pat@) == Some(k as int),
            None => find_spec(s@, pat@) is None,
        },
{
    find_from_exec(s, pat, 0)
}

/// Whether `pat` occurs in `s` (`str::contains`).
pub fn contains_exec(s: &[char], pat: &[char]) -> (res: bool)
    ensures
        res == occurs(s@, pat@),
{
    proof {
        lemma_find_from(s@, pat@, 0);
    }
    match find_exec(s, pat) {
        Some(k) => true,
        None => false,
    }
}

/// Whether `s` starts with `p` (`str::starts_with`).
pub fn starts_with_exec(s: &[char], p: &[char]) -> (res: bool)
    ensures
        res == has_prefix(s@, p@),
{
    let r = occurs_at_exec(s, p, 0);
    proof {
        if r {
            assert(s@.subrange(0, p@.len() as int) =~= p@);
        }
    }
    r
}

/// Replaces every leftmost non-overlapping occurrence of `pat` by `rep`.
pub fn replace_all_exec(s: &[char], pat: &[char], rep: &[char]) -> (res: Vec<char>)
    requires
        pat.len() > 0,
    ensures
        res@ == replace_all(s@, pat@, rep@),
{
    let mut out: Vec<char> = Vec::new();
    let mut pos: usize = 0;
    loop
        invariant
            pat.len() > 0,
            pos <= s.len(),
            out@ + replace_from(s@, pat@, rep@, pos as int) == replace_all(s@, pat@, rep@),
        decreases s.len() - pos,
    {
        proof {
            lemma_find_from(s@, pat@, pos as int);
        }
        match find_from_exec(s, pat, pos) {
            None => {
                let ghost before = out@;
                let mut j = pos;
                while j < s.len()
                    invariant
                        pos <= j <= s.len(),
                        out@ == before + s@.subrange(pos as int, j as int),
                    decreases s.len() - j,
                {
                    out.push(s[j]);
                    j = j + 1;
                    assert(s@.subrange(pos as int, j as int) =~= s@.subrange(pos as int, j - 1) + seq![s@[j - 1]]);
                }
                assert(replace_from(s@, pat@, rep@, s.len() as int) == Seq::<char>::empty()) by {
                    lemma_find_from(s@, pat@, s.len() as int);
                    if let Some(k) = find_from(s@, pat@, s.len() as int) {
                        assert(occurs_at(s@, pat@, k));
                    }
                }
                assert(out@ + Seq::<char>::empty() =~= out@);
                return out;
            },
            Some(k) => {
                let ghost before = out@;
                let mut j = pos;
                while j < k
                    invariant
                        pos <= j <= k,
                        k + pat.len() <= s.len(),
                        out@ == before + s@.subrange(pos as int, j as int),
                    decreases k - j,
                {
                    out.push(s[j]);
                    j = j + 1;
                    assert(s@.subrange(pos as int, j as int) =~= s@.subrange(pos as int, j - 1) + seq![s@[j - 1]]);
                }
                push_all(&mut out, rep);
                assert(before + (s@.subrange(pos as int, k as int) + rep@ + replace_from(s@, pat@, rep@, k + pat.len()))
                    =~= (before + s@.subrange(pos as int, k as int) + rep@) + replace_from(s@, pat@, rep@, k + pat.len()));
                pos = k + pat.len();
            },
        }
    }
}

/// Unicode whitespace test (`char::is_whitespace`).
pub fn is_ws_exec(c: char) -> (res: bool)
    ensures
        res == is_ws(c),
{
    ('\u{9}' <= c && c <= '\u{d}') || c == ' ' || c == '\u{85}' || c == '\u{a0}' || c == '\u{1680}'
        || ('\u{2000}' <= c && c <= '\u{200a}') || c == '\u{2028}' || c == '\u{2029}'
        || c == '\u{202f}' || c == '\u{205f}' || c == '\u{3000}'
}

proof fn lemma_trim_start_skip(s: Seq<char>, i: int)
    requires
        0 <= i <= s.len(),
        forall|j: int| 0 <= j < i ==> is_ws(s[j]),
    ensures
        trim_start(s) == trim_start(s.subrange(i, s.len() as int)),
    decreases i,
{
    if i > 0 {
        assert(s.drop_first() =~= s.subrange(1, s.len() as int));
        lemma_trim_start_skip(s.drop_first(), i - 1);
        assert(s.drop_first().subrange(i - 1, s.drop_first().len() as int) =~= s.subrange(i, s.len() as int));
    } else {
        assert(s.subrange(0, s.len() as int) =~= s);
    }
}

proof fn lemma_trim_end_skip(s: Seq<char>, e: int)
    requires
        0 <= e <= s.len(),
        forall|j: int| e <= j < s.len() ==> is_ws(s[j]),
    ensures
        trim_end(s) == trim_end(s.subrange(0, e)),
    decreases s.len() - e,
{
    if e < s.len() {
        assert(s.drop_last() =~= s.subrange(0, s.len() - 1));
        lemma_trim_end_skip(s.drop_last(), e);
        assert(s.drop_last().subrange(0, e) =~= s.subrange(0, e));
    } else {
        assert(s.subrange(0, e) =~= s);
    }
}

proof fn lemma_trim_end_keeps_head(t: Seq<char>)
    requires
        t.len() > 0,
        !is_ws(t[0]),
    ensures
        trim_end(t).len() > 0,
        trim_end(t)[0] == t[0],
    decreases t.len(),
{
    if is_ws(t.last()) {
        assert(t.len() > 1);
        assert(t.drop_last()[0] == t[0]);
        lemma_trim_end_keeps_head(t.drop_last());
    }
}

/// Law: text that is all whitespace trims to nothing.
pub proof fn lemma_trim_all_ws(s: Seq<char>)
    requires
        forall|j: int| 0 <= j < s.len() ==> is_ws(#[trigger] s[j]),
    ensures
        trim(s).len() == 0,
{
    lemma_trim_start_skip(s, s.len() as int);
    assert(s.subrange(s.len() as int, s.len() as int) =~= Seq::<char>::empty());
}

/// Law: the trimmed text starts with the first character that is not
/// whitespace.
pub proof fn lemma_trim_first(s: Seq<char>, k: int)
    requires
        0 <= k < s.len(),
        forall|j: int| 0 <= j < k ==> is_ws(#[trigger] s[j]),
        !is_ws(s[k]),
    ensures
        trim(s).len() > 0,
        trim(s)[0] == s[k],
{
    lemma_trim_start_skip(s, k);
    let t = s.subrange(k, s.len() as int);
    assert(t[0] == s[k]);
    assert(trim_start(t) == t);
    lemma_trim_end_keeps_head(t);
}

/// Leading and trailing whitespace removed (`str::trim`).
pub fn trim_exec(s: &[char]) -> (res: Vec<char>)
    ensures
        res@ == trim(s@),
{
    let mut b: usize = 0;
    while b < s.len() && is_ws_exec(s[b])
        invariant
            b <= s.len(),
            forall|j: int| 0 <= j < b ==> is_ws(s@[j]),
        decreases s.len() - b,
    {
        b = b + 1;
    }
    proof {
        lemma_trim_start_skip(s@, b as int);
    }
    let ghost t = s@.subrange(b as int, s.len() as int);
    assert(t.len() == 0 || !is_ws(t[0]));
    assert(trim_start(t) == t);
    let mut e: usize = s.len();
    while e > b && is_ws_exec(s[e - 1])
        invariant
            b <= e <= s.len(),
            forall|j: int| e <= j < s.len() ==> is_ws(s@[j]),
        decreases e - b,
    {
        e = e - 1;
    }
    proof {
        lemma_trim_end_skip(t, e - b);
        assert(t.subrange(0, e - b) =~= s@.subrange(b as int, e as int));
        let u = s@.subrange(b as int, e as int);
        assert(u.len() == 0 || !is_ws(u.last()));
    }
    let mut out: Vec<char> = Vec::new();
    let mut j = b;
    while j < e
        invariant
            b <= j <= e <= s.len(),
            out@ == s@.subrange(b as int, j as int),
        decreases e - j,
    {
        out.push(s[j]);
        j = j + 1;
        assert(s@.subrange(b as int, j as int) =~= s@.subrange(b as int, j - 1) + seq![s@[j - 1]]);
    }
    out
}

/// Number of occurrences of `c` in `s`.
pub fn count_char_exec(s: &[char], c: char) -> (res: usize)
    ensures
        res == count_char(s@, c),
{
    let mut n: usize = 0;
    let mut i: usize = 0;
    while i < s.len()
        invariant
            i <= s.len(),
            n == count_char(s@.take(i as int), c),
            n <= i,
        decreases s.len() - i,
    {
        assert(s@.take(i + 1).drop_last() =~= s@.take(i as int));
        if s[i] == c {
            n = n + 1;
        }
        i = i + 1;
    }
    assert(s@.take(s.len() as int) =~= s@);
    n
}

/// Decimal digits of an unsigned integer (`Display` for `u64`).
pub fn u64_to_decimal(n: u64) -> (res: String)
    ensures
        res@ == decimal(n as nat),
    decreases n,
{
    let d = n % 10;
    let c = if d == 0 { '0' } else if d == 1 { '1' } else if d == 2 { '2' } else if d == 3 { '3' }
        else if d == 4 { '4' } else if d == 5 { '5' } else if d == 6 { '6' } else if d == 7 { '7' }
        else if d == 8 { '8' } else { '9' };
    if n < 10 {
        string_from_chars(&[c])
    } else {
        let head = u64_to_decimal(n / 10);
        let mut v = chars_of(head.as_str());
        v.push(c);
        string_from_chars(v.as_slice())
    }
}

/// Decimal form of a signed integer (`Display` for `i64`).
pub fn i64_to_decimal(n: i64) -> (res: String)
    ensures
        res@ == signed_decimal(n as int),
{
    if n < 0 {
        let m: u64 = if n == i64::MIN { 9223372036854775808u64 } else { (-n) as u64 };
        let digits = u64_to_decimal(m);
        proof {
            reveal_strlit("-");
        }
        concat2("-", digits.as_str())
    } else {
        u64_to_decimal(n as u64)
    }
}

/// Whether two string slices hold the same characters.
pub fn str_eq(a: &str, b: &str) -> (res: bool)
    ensures
        res == (a@ == b@),
{
    let x = chars_of(a);
    let y = chars_of(b);
    if x.len() != y.len() {
        return false;
    }
    let mut i: usize = 0;
    while i < x.len()
        invariant
            i <= x.len(),
            x.len() == y.len(),
            x@ == a@,
            y@ == b@,
            forall|j: int| 0 <= j < i ==> x@[j] == y@[j],
        decreases x.len() - i,
    {
        if x[i] != y[i] {
            assert(x@[i as int] != y@[i as int]);
            return false;
        }
        i = i + 1;
    }
    assert(x@ =~= y@);
    true
}

/// Whether a list of strings holds `s`.
pub fn contains_string(list: &Vec<String>, s: &str) -> (res: bool)
    ensures
        res == exists|i: int| 0 <= i < list@.len() && list@[i]@ == s@,
{
    let mut i: usize = 0;
    while i < list.len()
        invariant
            i <= list.len(),
            forall|j: int| 0 <= j < i ==> list@[j]@ != s@,
        decreases list.len() - i,
    {
        if str_eq(list[i].as_str(), s) {
            return true;
        }
        i = i + 1;
    }
    false
}

/// Copies a list of strings.
pub fn clone_strings(list: &Vec<String>) -> (res: Vec<String>)
    ensures
        res@.len() == list@.len(),
        forall|i: int| 0 <= i < list@.len() ==> res@[i]@ == list@[i]@,
{
    let mut out: Vec<String> = Vec::new();
    let mut i: usize = 0;
    while i < list.len()
        invariant
            i <= list.len(),
            out@.len() == i,
            forall|j: int| 0 <= j < i ==> out@[j]@ == list@[j]@,
        decreases list.len() - i,
    {
        out.push(list[i].clone());
        i = i + 1;
    }
    out
}

/// The lowercase form of a string (`str::to_lowercase`).
pub uninterp spec fn lowercase_spec(s: Seq<char>) -> Seq<char>;

/// `str::to_lowercase`.
#[verifier::external_body]
pub(crate) fn to_lowercase(s: &str) -> (res: String)
    ensures
        res@ == lowercase_spec(s@),
{
    s.to_lowercase()
}


/// The characters of `s` from `lo` up to `hi`.
pub fn slice_chars(s: &[char], lo: usize, hi: usize) -> (res: Vec<char>)
    requires
        lo <= hi <= s.len(),
    ensures
        res@ == s@.subrange(lo as int, hi as int),
{
    let mut out: Vec<char> = Vec::new();
    let mut j = lo;
    while j < hi
        invariant
            lo <= j <= hi <= s.len(),
            out@ == s@.subrange(lo as int, j as int),
        decreases hi - j,
    {
        out.push(s[j]);
        j = j + 1;
        assert(s@.subrange(lo as int, j as int) =~= s@.subrange(lo as int, j - 1) + seq![s@[j - 1]]);
    }
    out
}

/// Counting distributes over concatenation.
pub proof fn lemma_count_char_concat(a: Seq<char>, b: Seq<char>, c: char)
    ensures
        count_char(a + b, c) == count_char(a, c) + count_char(b, c),
    decreases b.len(),
{
    if b.len() == 0 {
        assert(a + b =~= a);
    } else {
        lemma_count_char_concat(a, b.drop_last(), c);
        assert((a + b).drop_last() =~= a + b.drop_last());
    }
}

/// The count of a character in repeated copies.
pub proof fn lemma_count_char_repeat(d: char, n: nat, c: char)
    ensures
        count_char(repeat_char(d, n), c) == if d == c { n } else { 0 },
    decreases n,
{
    if n > 0 {
        lemma_count_char_repeat(d, (n - 1) as nat, c);
        assert(repeat_char(d, n).drop_last() =~= repeat_char(d, (n - 1) as nat));
    }
}

/// A character occurs at most once per position, and not at all at a last
/// position that holds another character.
pub proof fn lemma_count_char_bound(s: Seq<char>, c: char)
    ensures
        count_char(s, c) <= s.len(),
        s.len() > 0 && s.last() != c ==> count_char(s, c) < s.len(),
    decreases s.len(),
{
    if s.len() > 0 {
        lemma_count_char_bound(s.drop_last(), c);
    }
}

} // verus!
