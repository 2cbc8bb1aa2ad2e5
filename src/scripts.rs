//! Pre- and post-build scripts: a configured command string names the program
//! and its arguments, separated by `--`.

use vstd::prelude::*;
use crate::text::chars_of;

verus! {

/// A `--` separator starts at `i`.
pub open spec fn sep_at(s: Seq<char>, i: int) -> bool {
    0 <= i && i + 1 < s.len() && s[i] == '-' && s[i + 1] == '-'
}

/// The first `--` separator of `s` starts at `i`.
pub open spec fn first_sep(s: Seq<char>, i: int) -> bool {
    sep_at(s, i) && forall|j: int| 0 <= j < i ==> !sep_at(s, j)
}

/// The pieces of `s` between its `--` separators, read left to right.
pub open spec fn split_dashes(s: Seq<char>) -> Seq<Seq<char>>
    decreases s.len(),
{
    if exists|i: int| first_sep(s, i) {
        let i = choose|i: int| first_sep(s, i);
        seq![s.subrange(0, i)] + split_dashes(s.subrange(i + 2, s.len() as int))
    } else {
        seq![s]
    }
}

/// A blank character, trimmed from the ends of each piece.
pub open spec fn is_blank(c: char) -> bool {
    c == ' ' || c == '\t'
}

/// `s` without its leading and trailing blanks: the part from its first to its
/// last other character.
#[verifier::opaque]
pub open spec fn trimmed(s: Seq<char>) -> Seq<char> {
    if forall|k: int| 0 <= k < s.len() ==> is_blank(#[trigger] s[k]) {
        Seq::empty()
    } else {
        let a = choose|a: int| 0 <= a < s.len() && !is_blank(s[a]) && forall|k: int| 0 <= k < a ==> is_blank(#[trigger] s[k]);
        let b = choose|b: int| 0 <= b < s.len() && !is_blank(s[b]) && forall|k: int| b < k < s.len() ==> is_blank(#[trigger] s[k]);
        s.subrange(a, b + 1)
    }
}

/// `s` without leading and trailing blanks.
pub fn trim_blanks(s: &str) -> (r: String)
    ensures
        r@ == trimmed(s@),
{
    reveal(trimmed);
    let c = chars_of(s);
    let n = c.len();
    let mut a: usize = 0;
    while a < n && (c[a] == ' ' || c[a] == '\t')
        invariant
            c@ == s@,
            n == c.len(),
            a <= n,
            forall|k: int| 0 <= k < a ==> is_blank(#[trigger] s@[k]),
        decreases n - a,
    {
        a = a + 1;
    }
    if a == n {
        return String::new();
    }
    let mut b: usize = n - 1;
    while c[b] == ' ' || c[b] == '\t'
        invariant
            c@ == s@,
            n == c.len(),
            a < n,
            !is_blank(s@[a as int]),
            a <= b < n,
            forall|k: int| b < k < n ==> is_blank(#[trigger] s@[k]),
        decreases b,
    {
        b = b - 1;
    }
    proof {
        let a2 = choose|x: int| 0 <= x < s@.len() && !is_blank(s@[x]) && forall|k: int| 0 <= k < x ==> is_blank(#[trigger] s@[k]);
        let b2 = choose|x: int| 0 <= x < s@.len() && !is_blank(s@[x]) && forall|k: int| x < k < s@.len() ==> is_blank(#[trigger] s@[k]);
        assert(!is_blank(s@[a as int]));
        if a2 < a { assert(is_blank(s@[a2])); }
        if a2 > a { assert(is_blank(s@[a as int])); }
        if b2 > b { assert(is_blank(s@[b2])); }
        if b2 < b { assert(is_blank(s@[b as int])); }
    }
    String::from_str(s.substring_char(a, b + 1))
}

/// The pieces of `s` between its `--` separators.
pub fn split_on_dashes(s: &str) -> (r: Vec<String>)
    ensures
        r.deep_view() == split_dashes(s@),
{
    let c = chars_of(s);
    let n = c.len();
    let mut r: Vec<String> = Vec::new();
    let mut start: usize = 0;
    let mut i: usize = 0;
    assert(s@.subrange(0, n as int) =~= s@);
    assert(r.deep_view() =~= Seq::<Seq<char>>::empty());
    while n > 0 && i < n - 1
        invariant
            c@ == s@,
            n == c.len(),
            start <= i <= n,
            r.deep_view() + split_dashes(s@.subrange(start as int, n as int)) == split_dashes(s@),
            forall|j: int| start <= j < i ==> !sep_at(s@, j),
        decreases n - i,
    {
        if c[i] == '-' && c[i + 1] == '-' {
            let ghost rest = s@.subrange(start as int, n as int);
            proof {
                let k = (i - start) as int;
                assert(first_sep(rest, k)) by {
                    assert forall|j: int| 0 <= j < k implies !sep_at(rest, j) by {
                        assert(!sep_at(s@, start + j));
                    }
                }
                let k2 = choose|x: int| first_sep(rest, x);
                assert(first_sep(rest, k2));
                if k2 < k {
                    assert(sep_at(s@, start + k2));
                }
                assert(rest.subrange(k + 2, rest.len() as int) =~= s@.subrange(i + 2, n as int));
                assert(rest.subrange(0, k) =~= s@.subrange(start as int, i as int));
            }
            let piece = String::from_str(s.substring_char(start, i));
            let ghost before = r.deep_view();
            r.push(piece);
            assert(r.deep_view() =~= before.push(piece@));
            assert(split_dashes(rest) == seq![piece@] + split_dashes(s@.subrange(i + 2, n as int)));
            assert(r.deep_view() + split_dashes(s@.subrange(i + 2, n as int)) =~= before + split_dashes(rest));
            start = i + 2;
            i = i + 2;
        } else {
            i = i + 1;
        }
    }
    let ghost rest = s@.subrange(start as int, n as int);
    proof {
        assert forall|x: int| !first_sep(rest, x) by {
            if first_sep(rest, x) {
                assert(sep_at(s@, start + x));
            }
        }
    }
    let last = String::from_str(s.substring_char(start, n));
    let ghost before = r.deep_view();
    r.push(last);
    assert(r.deep_view() =~= before + split_dashes(rest));
    r
}

/// The program and arguments of a configured script: the pieces of `script`
/// between its `--` separators, each without surrounding blanks; the first
/// names the program.
pub fn script_command(script: &str) -> (r: (String, Vec<String>))
    ensures
        r.0@ == trimmed(split_dashes(script@)[0]),
        r.1.deep_view() == split_dashes(script@).skip(1).map_values(|p: Seq<char>| trimmed(p)),
{
    let pieces = split_on_dashes(script);
    proof {
        if pieces.len() == 0 {
            lemma_split_nonempty(script@);
        }
    }
    let program = trim_blanks(pieces[0].as_str());
    let mut args: Vec<String> = Vec::new();
    let ghost all = split_dashes(script@);
    for i in 1..pieces.len()
        invariant
            pieces.deep_view() == all,
            args.deep_view() == all.subrange(1, i as int).map_values(|p: Seq<char>| trimmed(p)),
    {
        let a = trim_blanks(pieces[i].as_str());
        let ghost before = args.deep_view();
        args.push(a);
        assert(args.deep_view() =~= before.push(a@));
        assert(all.subrange(1, i + 1).map_values(|p: Seq<char>| trimmed(p)) =~= all.subrange(1, i as int).map_values(|p: Seq<char>| trimmed(p)).push(a@));
    }
    proof {
        lemma_split_nonempty(script@);
        if pieces.len() >= 1 {
            assert(all.subrange(1, pieces.len() as int) =~= all.skip(1));
        }
    }
    (program, args)
}

/// A split has at least one piece.
pub proof fn lemma_split_nonempty(s: Seq<char>)
    ensures
        split_dashes(s).len() >= 1,
    decreases s.len(),
{
    if exists|i: int| first_sep(s, i) {
        let i = choose|i: int| first_sep(s, i);
        lemma_split_nonempty(s.subrange(i + 2, s.len() as int));
    }
}

} // verus!
