//! Frontmatter: a leading block of YAML between two `---` lines, detected and
//! removed before the markup body is converted.

use vstd::prelude::*;
use crate::text::{chars_of, text_eq};


verus! {

/// The opening fence: a first line `---`.
pub open spec fn opens_frontmatter(t: Seq<char>) -> bool {
    &&& t.len() >= 4
    &&& t.subrange(0, 4) == seq!['-', '-', '-', '\n']
}

/// A closing fence, a whole line `---`, starts at `p`, after the opening line.
pub open spec fn closing_at(t: Seq<char>, p: int) -> bool {
    &&& 4 <= p
    &&& p + 3 <= t.len()
    &&& t[p - 1] == '\n'
    &&& t.subrange(p, p + 3) == seq!['-', '-', '-']
    &&& (p + 3 == t.len() || t[p + 3] == '\n')
}

/// `p` is the first closing fence of `t`.
pub open spec fn first_closing(t: Seq<char>, p: int) -> bool {
    &&& closing_at(t, p)
    &&& forall|q: int| 4 <= q < p ==> !closing_at(t, q)
}

/// `t` starts with a frontmatter block: an opening fence and a later closing one.
pub open spec fn has_frontmatter(t: Seq<char>) -> bool {
    &&& opens_frontmatter(t)
    &&& exists|p: int| first_closing(t, p)
}

/// Where the closing fence of the frontmatter of `t` starts.
pub open spec fn closing_of(t: Seq<char>) -> int
    recommends
        has_frontmatter(t),
{
    choose|p: int| first_closing(t, p)
}

/// The frontmatter block of `t`: the lines between the two fences.
pub open spec fn frontmatter_of(t: Seq<char>) -> Option<Seq<char>> {
    if has_frontmatter(t) {
        Some(t.subrange(4, closing_of(t)))
    } else {
        None
    }
}

/// The markup body of `t`: what follows the closing fence's line, or all of
/// `t` when it has no frontmatter.
pub open spec fn body_of(t: Seq<char>) -> Seq<char> {
    if has_frontmatter(t) {
        let p = closing_of(t);
        if p + 3 == t.len() {
            Seq::empty()
        } else {
            t.subrange(p + 4, t.len() as int)
        }
    } else {
        t
    }
}

/// Splits a source document into its frontmatter block, if any, and its
/// markup body.
pub fn split_frontmatter(text: &str) -> (r: (Option<String>, String))
    ensures
        r.0 matches Some(b) ==> frontmatter_of(text@) == Some(b@),
        r.0 is None ==> frontmatter_of(text@) is None,
        r.1@ == body_of(text@),
{
    let c = chars_of(text);
    let n = c.len();
    if n < 4 || c[0] != '-' || c[1] != '-' || c[2] != '-' || c[3] != '\n' {
        proof {
            if opens_frontmatter(text@) {
                assert(text@.subrange(0, 4)[0] == text@[0]);
                assert(text@.subrange(0, 4)[1] == text@[1]);
                assert(text@.subrange(0, 4)[2] == text@[2]);
                assert(text@.subrange(0, 4)[3] == text@[3]);
            }
        }
        return (None, String::from_str(text));
    }
    assert(text@.subrange(0, 4) =~= seq!['-', '-', '-', '\n']);
    let mut p: usize = 4;
    while p < n && n - p >= 3
        invariant
            c@ == text@,
            n == c.len(),
            4 <= p,
            p <= n,
            opens_frontmatter(text@),
            forall|q: int| 4 <= q < p ==> !closing_at(text@, q),
        decreases n - p,
    {
        if c[p - 1] == '\n' && c[p] == '-' && c[p + 1] == '-' && c[p + 2] == '-' && (p + 3 == n
            || c[p + 3] == '\n') {
            assert(text@.subrange(p as int, p + 3) =~= seq!['-', '-', '-']);
            assert(first_closing(text@, p as int));
            assert(closing_of(text@) == p) by {
                let q = closing_of(text@);
                assert(first_closing(text@, q));
                if q < p {
                } else if q > p {
                }
            }
            let block = String::from_str(text.substring_char(4, p));
            let body = if p + 3 == n {
                String::new()
            } else {
                String::from_str(text.substring_char(p + 4, n))
            };
            return (Some(block), body);
        }
        proof {
            if closing_at(text@, p as int) {
                let s = text@.subrange(p as int, p + 3);
                assert(s[0] == text@[p as int]);
                assert(s[1] == text@[p + 1]);
                assert(s[2] == text@[p + 2]);
            }
        }
        p = p + 1;
    }
    assert(!has_frontmatter(text@));
    (None, String::from_str(text))
}

/// What serde_yaml reads from a frontmatter block taken as a map from string
/// keys to YAML values: `None` where the block is not such a map; otherwise its
/// entries in key order, each with its value's text where that value is a string.
pub uninterp spec fn yaml_entries_of(block: Seq<char>) -> Option<Seq<(Seq<char>, Option<Seq<char>>)>>;

/// Relies on serde_yaml::from_str, read into a `BTreeMap<String, serde_yaml::Value>`:
/// its entries, with each string value's text.
#[verifier::external_body]
fn yaml_entries(block: &str) -> (r: Option<Vec<(String, Option<String>)>>)
    ensures
        r.deep_view() == yaml_entries_of(block@),
{
    match serde_yaml::from_str::<std::collections::BTreeMap<String, serde_yaml::Value>>(block) {
        Ok(m) => Some(m.into_iter().map(|(k, v)| match v {
            serde_yaml::Value::String(s) => (k, Some(s)),
            _ => (k, None),
        }).collect()),
        Err(_) => None,
    }
}

/// The template used when a document selects none.
pub open spec fn default_template() -> Seq<char> {
    seq!['i', 'n', 'd', 'e', 'x']
}

/// The frontmatter key that selects a template.
pub open spec fn template_key() -> Seq<char> {
    seq!['t', 'e', 'm', 'p', 'l', 'a', 't', 'e']
}

/// The value of the first entry keyed `key`: `None` where there is none,
/// `Some(None)` where that value is not a string.
pub open spec fn entry_value(entries: Seq<(Seq<char>, Option<Seq<char>>)>, key: Seq<char>) -> Option<Option<Seq<char>>>
    decreases entries.len(),
{
    if entries.len() == 0 {
        None
    } else if entries[0].0 == key {
        Some(entries[0].1)
    } else {
        entry_value(entries.drop_first(), key)
    }
}

/// The template that read frontmatter entries select: the `template` value, or
/// the default where that is absent or empty. `None`, a frontmatter fault, where
/// the block could not be read or its `template` value is not a string.
pub open spec fn choice_from_entries(parsed: Option<Seq<(Seq<char>, Option<Seq<char>>)>>) -> Option<Seq<char>> {
    match parsed {
        None => None,
        Some(es) => match entry_value(es, template_key()) {
            None => Some(default_template()),
            Some(None) => None,
            Some(Some(s)) => if s.len() == 0 {
                Some(default_template())
            } else {
                Some(s)
            },
        },
    }
}

/// The template that the source document `t` selects; `None` on a frontmatter fault.
pub open spec fn template_choice(t: Seq<char>) -> Option<Seq<char>> {
    match frontmatter_of(t) {
        None => Some(default_template()),
        Some(b) => choice_from_entries(yaml_entries_of(b)),
    }
}

/// The template that read frontmatter entries select (see `choice_from_entries`).
pub fn template_from_entries(parsed: &Option<Vec<(String, Option<String>)>>) -> (r: Option<String>)
    ensures
        r.deep_view() == choice_from_entries(parsed.deep_view()),
{
    let entries = match parsed {
        None => {
            return None;
        },
        Some(es) => es,
    };
    let ghost all = entries.deep_view();
    assert(parsed.deep_view() == Some(all));
    let key = "template";
    proof {
        reveal_strlit("template");
        assert(key@ =~= template_key());
    }
    let mut i: usize = 0;
    assert(all.skip(0) =~= all);
    while i < entries.len()
        invariant
            all == entries.deep_view(),
            parsed.deep_view() == Some(all),
            key@ == template_key(),
            i <= entries.len(),
            entry_value(all, template_key()) == entry_value(all.skip(i as int), template_key()),
        decreases entries.len() - i,
    {
        assert(all.skip(i as int).drop_first() =~= all.skip(i + 1));
        assert(all.skip(i as int)[0] == all[i as int]);
        if text_eq(entries[i].0.as_str(), key) {
            assert(all[i as int].0 == entries@[i as int].0@);
            assert(all[i as int].1 == entries@[i as int].1.deep_view());
            assert(entry_value(all, template_key()) == Some(all[i as int].1));
            assert(parsed.deep_view() == Some(all));
            proof {
                reveal_strlit("index");
                assert("index"@ =~= default_template());
            }
            let r = match &entries[i].1 {
                None => None,
                Some(s) => {
                    assert(all[i as int].1 == Some(s@));
                    if s.unicode_len() == 0 {
                        Some(String::from_str("index"))
                    } else {
                        Some(s.clone())
                    }
                },
            };
            return r;
        }
        i = i + 1;
    }
    assert(all.skip(i as int).len() == 0);
    assert(parsed.deep_view() == Some(all));
    proof {
        reveal_strlit("index");
        assert("index"@ =~= default_template());
    }
    Some(String::from_str("index"))
}

/// The template that a document with frontmatter block `block` (if any)
/// selects; `None` on a frontmatter fault.
pub fn template_for_block(block: &Option<String>) -> (r: Option<String>)
    ensures
        r.deep_view() == match block {
            None => Some(default_template()),
            Some(b) => choice_from_entries(yaml_entries_of(b@)),
        },
{
    match block {
        None => {
            proof {
                reveal_strlit("index");
                assert("index"@ =~= default_template());
            }
            Some(String::from_str("index"))
        },
        Some(b) => {
            let parsed = yaml_entries(b.as_str());
            template_from_entries(&parsed)
        },
    }
}

/// A document without frontmatter renders with the default `index` template; one
/// whose frontmatter declares a non-empty `template` renders with that template.
pub proof fn lemma_template_selection(t: Seq<char>)
    ensures
        frontmatter_of(t) is None ==> template_choice(t) == Some(default_template()),
        match frontmatter_of(t) {
            Some(b) => match yaml_entries_of(b) {
                Some(es) => match entry_value(es, template_key()) {
                    Some(Some(s)) => s.len() > 0 ==> template_choice(t) == Some(s),
                    _ => true,
                },
                None => true,
            },
            None => true,
        },
{
}

} // verus!
