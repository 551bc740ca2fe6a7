//! Character-level string helpers shared by the protocol, configuration and
//! AI modules. Every function here is stated over `Seq<char>` views.
use vstd::prelude::*;
use vstd::std_specs::iter::IteratorSpec;

verus! {

broadcast use vstd::string::group_string_axioms;

/// `c` has the Unicode `White_Space` property (what `char::is_whitespace`
/// and `str::trim` use).
pub open spec fn is_ws(c: char) -> bool {
    ||| '\u{9}' <= c <= '\u{d}'
    ||| c == ' '
    ||| c == '\u{85}'
    ||| c == '\u{a0}'
    ||| c == '\u{1680}'
    ||| '\u{2000}' <= c <= '\u{200a}'
    ||| c == '\u{2028}'
    ||| c == '\u{2029}'
    ||| c == '\u{202f}'
    ||| c == '\u{205f}'
    ||| c == '\u{3000}'
}

/// `s` with its leading white space removed.
pub open spec fn trim_start(s: Seq<char>) -> Seq<char>
    decreases s.len(),
{
    if s.len() > 0 && is_ws(s[0]) {
        trim_start(s.drop_first())
    } else {
        s
    }
}

/// `s` with its trailing white space removed.
pub open spec fn trim_end(s: Seq<char>) -> Seq<char>
    decreases s.len(),
{
    if s.len() > 0 && is_ws(s.last()) {
        trim_end(s.drop_last())
    } else {
        s
    }
}

/// `s` with white space removed at both ends (`str::trim`).
pub open spec fn trim(s: Seq<char>) -> Seq<char> {
    trim_end(trim_start(s))
}

/// `s` with every trailing `c` removed (`str::trim_end_matches(c)`).
pub open spec fn trim_end_char(s: Seq<char>, c: char) -> Seq<char>
    decreases s.len(),
{
    if s.len() > 0 && s.last() == c {
        trim_end_char(s.drop_last(), c)
    } else {
        s
    }
}

/// `p` is a prefix of `s`.
pub open spec fn has_prefix(s: Seq<char>, p: Seq<char>) -> bool {
    p.len() <= s.len() && s.subrange(0, p.len() as int) == p
}

/// `p` is a suffix of `s`.
pub open spec fn has_suffix(s: Seq<char>, p: Seq<char>) -> bool {
    p.len() <= s.len() && s.subrange(s.len() - p.len(), s.len() as int) == p
}

/// The first `n` characters of `s`, or all of `s` when it is shorter.
pub open spec fn take_upto(s: Seq<char>, n: nat) -> Seq<char> {
    if n <= s.len() {
        s.take(n as int)
    } else {
        s
    }
}

/// The views of a sequence of strings.
pub open spec fn views_of(v: Seq<String>) -> Seq<Seq<char>> {
    v.map_values(|s: String| s@)
}

/// Appends one character to a string.
/// Trusted: std's `String::push`, which its documentation describes as
/// appending the given char to the end of the string.
#[verifier::external_body]
pub(crate) fn push_char(s: &mut String, c: char)
    ensures
        final(s)@ == old(s)@.push(c),
{
    s.push(c)
}

/// The characters of `s`, in order.
pub fn chars_of(s: &str) -> (v: Vec<char>)
    ensures
        v@ == s@,
{
    let mut v: Vec<char> = Vec::new();
    let chars = s.chars();
    for c in it: chars
        invariant
            v@ == it.seq().take(it.index() as int),
            it.seq() == s@,
    {
        v.push(c);
    }
    v
}

/// A string made of `v[lo..hi]`.
pub fn string_from_chars(v: &Vec<char>, lo: usize, hi: usize) -> (r: String)
    requires
        lo <= hi <= v@.len(),
    ensures
        r@ == v@.subrange(lo as int, hi as int),
{
    let mut r = String::new();
    let mut i = lo;
    while i < hi
        invariant
            lo <= i <= hi <= v@.len(),
            r@ == v@.subrange(lo as int, i as int),
        decreases hi - i,
    {
        push_char(&mut r, v[i]);
        assert(v@.subrange(lo as int, i + 1) == v@.subrange(lo as int, i as int).push(v@[i as int]));
        i = i + 1;
    }
    r
}

/// An owned copy of `s`.
pub fn owned(s: &str) -> (r: String)
    ensures
        r@ == s@,
{
    s.to_string()
}

/// Two strings are equal as character sequences.
pub fn str_eq(a: &str, b: &str) -> (r: bool)
    ensures
        r == (a@ == b@),
{
    let x = owned(a);
    let y = owned(b);
    x == y
}

/// `a` followed by `b`.
pub fn concat(a: &str, b: &str) -> (r: String)
    ensures
        r@ == a@ + b@,
{
    let mut r = owned(a);
    r.append(b);
    r
}

/// Executable white-space test.
pub fn char_is_ws(c: char) -> (r: bool)
    ensures
        r == is_ws(c),
{
    ('\u{9}' <= c && c <= '\u{d}') || c == ' ' || c == '\u{85}' || c == '\u{a0}' || c
        == '\u{1680}' || ('\u{2000}' <= c && c <= '\u{200a}') || c == '\u{2028}' || c
        == '\u{2029}' || c == '\u{202f}' || c == '\u{205f}' || c == '\u{3000}'
}

proof fn lemma_trim_start_skip(s: Seq<char>, i: int)
    requires
        0 <= i <= s.len(),
        forall|j: int| 0 <= j < i ==> is_ws(#[trigger] s[j]),
    ensures
        trim_start(s) == trim_start(s.subrange(i, s.len() as int)),
    decreases i,
{
    if i > 0 {
        assert(s.drop_first().subrange(i - 1, s.drop_first().len() as int) == s.subrange(
            i,
            s.len() as int,
        ));
        lemma_trim_start_skip(s.drop_first(), i - 1);
    } else {
        assert(s.subrange(0, s.len() as int) == s);
    }
}

proof fn lemma_trim_end_cut(s: Seq<char>, k: int)
    requires
        0 <= k <= s.len(),
        forall|j: int| k <= j < s.len() ==> is_ws(#[trigger] s[j]),
    ensures
        trim_end(s) == trim_end(s.subrange(0, k)),
    decreases s.len() - k,
{
    if k < s.len() {
        assert(s.drop_last().subrange(0, k) == s.subrange(0, k));
        lemma_trim_end_cut(s.drop_last(), k);
    } else {
        assert(s.subrange(0, k) == s);
    }
}

/// Bounds `lo..hi` such that `v[lo..hi]` is `v` trimmed of white space.
pub fn trim_bounds(v: &Vec<char>) -> (r: (usize, usize))
    ensures
        r.0 <= r.1 <= v@.len(),
        v@.subrange(r.0 as int, r.1 as int) == trim(v@),
{
    let n = v.len();
    let mut lo: usize = 0;
    while lo < n && char_is_ws(v[lo])
        invariant
            lo <= n == v@.len(),
            forall|j: int| 0 <= j < lo ==> is_ws(#[trigger] v@[j]),
        decreases n - lo,
    {
        lo = lo + 1;
    }
    proof {
        lemma_trim_start_skip(v@, lo as int);
    }
    let ghost t = v@.subrange(lo as int, n as int);
    assert(lo == n || !is_ws(t[0]));
    assert(trim_start(t) == t);
    let mut hi: usize = n;
    while hi > lo && char_is_ws(v[hi - 1])
        invariant
            lo <= hi <= n == v@.len(),
            t == v@.subrange(lo as int, n as int),
            forall|j: int| hi <= j < n ==> is_ws(#[trigger] v@[j]),
        decreases hi - lo,
    {
        hi = hi - 1;
    }
    proof {
        assert forall|j: int| hi - lo <= j < t.len() implies is_ws(#[trigger] t[j]) by {
            assert(t[j] == v@[j + lo]);
        }
        lemma_trim_end_cut(t, hi - lo);
        assert(t.subrange(0, hi - lo) == v@.subrange(lo as int, hi as int));
        let u = v@.subrange(lo as int, hi as int);
        if u.len() > 0 {
            assert(u.last() == v@[hi - 1]);
        }
        assert(trim_end(u) == u);
    }
    (lo, hi)
}

/// `s` trimmed of white space at both ends (`str::trim`).
pub fn trim_str(s: &str) -> (r: String)
    ensures
        r@ == trim(s@),
{
    let v = chars_of(s);
    let (lo, hi) = trim_bounds(&v);
    string_from_chars(&v, lo, hi)
}

/// `true` when `s` is empty or only white space (`s.trim().is_empty()`).
pub fn is_blank(s: &str) -> (r: bool)
    ensures
        r == (trim(s@).len() == 0),
{
    let v = chars_of(s);
    let (lo, hi) = trim_bounds(&v);
    lo == hi
}

/// `s` without its leading `p`, when `s` starts with `p`.
pub fn strip_prefix(s: &str, p: &str) -> (r: Option<String>)
    ensures
        r is Some <==> has_prefix(s@, p@),
        r matches Some(t) ==> t@ == s@.subrange(p@.len() as int, s@.len() as int),
{
    let v = chars_of(s);
    let w = chars_of(p);
    if w.len() > v.len() {
        return None;
    }
    let mut i: usize = 0;
    while i < w.len()
        invariant
            w@.len() <= v@.len(),
            i <= w@.len(),
            v@ == s@,
            w@ == p@,
            forall|j: int| 0 <= j < i ==> v@[j] == w@[j],
        decreases w@.len() - i,
    {
        if v[i] != w[i] {
            assert(v@.subrange(0, w@.len() as int)[i as int] != w@[i as int]);
            return None;
        }
        i = i + 1;
    }
    assert(v@.subrange(0, w@.len() as int) == w@);
    Some(string_from_chars(&v, w.len(), v.len()))
}

/// `s` without its trailing `p`, when `s` ends with `p`.
pub fn strip_suffix(s: &str, p: &str) -> (r: Option<String>)
    ensures
        r is Some <==> has_suffix(s@, p@),
        r matches Some(t) ==> t@ == s@.subrange(0, s@.len() - p@.len()),
{
    let v = chars_of(s);
    let w = chars_of(p);
    if w.len() > v.len() {
        return None;
    }
    let off = v.len() - w.len();
    let mut i: usize = 0;
    while i < w.len()
        invariant
            w@.len() <= v@.len(),
            off == v@.len() - w@.len(),
            v@.len() == v.len(),
            i <= w@.len(),
            v@ == s@,
            w@ == p@,
            forall|j: int| 0 <= j < i ==> v@[off + j] == w@[j],
        decreases w@.len() - i,
    {
        if v[off + i] != w[i] {
            assert(v@.subrange(off as int, v@.len() as int)[i as int] != w@[i as int]);
            return None;
        }
        i = i + 1;
    }
    assert(v@.subrange(off as int, v@.len() as int) == w@);
    Some(string_from_chars(&v, 0, off))
}

/// The first `n` characters of `s` (`s.chars().take(n).collect()`).
pub fn take_chars(s: &str, n: usize) -> (r: String)
    ensures
        r@ == take_upto(s@, n as nat),
{
    let v = chars_of(s);
    if n <= v.len() {
        string_from_chars(&v, 0, n)
    } else {
        string_from_chars(&v, 0, v.len())
    }
}

/// `s` with every trailing `c` removed (`s.trim_end_matches(c)`).
pub fn trim_end_matching(s: &str, c: char) -> (r: String)
    ensures
        r@ == trim_end_char(s@, c),
{
    let v = chars_of(s);
    let mut hi = v.len();
    assert(v@.subrange(0, hi as int) == v@);
    while hi > 0 && v[hi - 1] == c
        invariant
            hi <= v@.len(),
            v@ == s@,
            trim_end_char(s@, c) == trim_end_char(v@.subrange(0, hi as int), c),
        decreases hi,
    {
        assert(v@.subrange(0, hi as int).drop_last() == v@.subrange(0, hi - 1));
        hi = hi - 1;
    }
    string_from_chars(&v, 0, hi)
}

} // verus!
