//! Character-level helpers over `str` used by the path and frontmatter logic.

use vstd::prelude::*;

verus! {

/// The characters of `s`, in order.
pub fn chars_of(s: &str) -> (r: Vec<char>)
    ensures
        r@ == s@,
{
    let mut r: Vec<char> = Vec::new();
    for c in it: s.chars()
        invariant
            r@ == it.seq().subrange(0, it.index() as int),
    {
        r.push(c);
    }
    r
}

/// `s` ends with `suffix` right after at least one character that is not a `/`:
/// `suffix` is the extension of the last path component of `s`.
pub open spec fn has_ext(s: Seq<char>, suffix: Seq<char>) -> bool {
    &&& s.len() > suffix.len()
    &&& s.subrange(s.len() - suffix.len(), s.len() as int) == suffix
    &&& s[s.len() - suffix.len() - 1] != '/'
}

/// `s` without its last `suffix.len()` characters.
pub open spec fn strip_ext(s: Seq<char>, suffix: Seq<char>) -> Seq<char> {
    s.subrange(0, s.len() - suffix.len())
}

/// Whether `a` and `b` hold the same characters.
pub fn text_eq(a: &str, b: &str) -> (r: bool)
    ensures
        r == (a@ == b@),
{
    let x = chars_of(a);
    let y = chars_of(b);
    if x.len() != y.len() {
        return false;
    }
    let mut i: usize = 0;
    while i < x.len()
        invariant
            x@ == a@,
            y@ == b@,
            x.len() == y.len(),
            i <= x.len(),
            forall|j: int| 0 <= j < i ==> x@[j] == y@[j],
        decreases x.len() - i,
    {
        if x[i] != y[i] {
            return false;
        }
        i = i + 1;
    }
    assert(x@ =~= y@);
    true
}

/// Whether `suffix` is the extension of the last path component of `s`.
pub fn has_extension(s: &str, suffix: &str) -> (r: bool)
    ensures
        r == has_ext(s@, suffix@),
{
    let x = chars_of(s);
    let y = chars_of(suffix);
    if x.len() <= y.len() {
        return false;
    }
    let start: usize = x.len() - y.len();
    let mut i: usize = 0;
    while i < y.len()
        invariant
            x@ == s@,
            y@ == suffix@,
            start == x.len() - y.len(),
            i <= y.len(),
            forall|j: int| 0 <= j < i ==> x@[start + j] == y@[j],
        decreases y.len() - i,
    {
        if x[start + i] != y[i] {
            assert(s@.subrange(start as int, s@.len() as int)[i as int] != suffix@[i as int]);
            return false;
        }
        i = i + 1;
    }
    assert(s@.subrange(start as int, s@.len() as int) =~= suffix@);
    x[start - 1] != '/'
}

/// The first `n` characters of `s`, as a new string.
pub fn prefix_text(s: &str, n: usize) -> (r: String)
    requires
        n <= s@.len(),
    ensures
        r@ == s@.subrange(0, n as int),
{
    String::from_str(s.substring_char(0, n))
}

/// `a` followed by `b`.
pub fn joined(a: &str, b: &str) -> (r: String)
    ensures
        r@ == a@ + b@,
{
    String::from_str(a).concat(b)
}

/// A copy of `v`.
pub fn copy_texts(v: &Vec<String>) -> (r: Vec<String>)
    ensures
        r.deep_view() == v.deep_view(),
{
    let mut r: Vec<String> = Vec::new();
    for i in 0..v.len()
        invariant
            r.deep_view() == v.deep_view().subrange(0, i as int),
    {
        let s = v[i].clone();
        let ghost before = r.deep_view();
        r.push(s);
        assert(r.deep_view() =~= before.push(s@));
        assert(v.deep_view().subrange(0, i + 1) =~= v.deep_view().subrange(0, i as int).push(s@));
    }
    assert(v.deep_view().subrange(0, v.len() as int) =~= v.deep_view());
    r
}

} // verus!
