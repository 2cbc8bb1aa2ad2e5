//! Stale-output reconciliation: which files of a previous build's output tree
//! belong to no document of the current index.

use vstd::prelude::*;
use crate::text::{has_ext, strip_ext, has_extension, prefix_text, text_eq};
use crate::index::{
    html_ext, output_path_of, ids_of, index_wf, index_ids, DocumentIndexEntry, logical_id_of,
    is_markup_path,
};

verus! {

/// The logical identifier that the output file `out` was rendered for: the
/// inverse of `output_path_of`.
pub open spec fn output_id_of(out: Seq<char>) -> Seq<char> {
    strip_ext(out, html_ext())
}

/// The output file `out` (relative to the output root) is a rendered page
/// whose logical identifier is not among `ids`.
pub open spec fn is_stale(ids: Seq<Seq<char>>, out: Seq<char>) -> bool {
    &&& has_ext(out, html_ext())
    &&& !ids.contains(output_id_of(out))
}

/// The files of `outputs` that reconciliation deletes, in the order of `outputs`.
pub open spec fn stale_files(ids: Seq<Seq<char>>, outputs: Seq<Seq<char>>) -> Seq<Seq<char>> {
    outputs.filter(|o: Seq<char>| is_stale(ids, o))
}

/// Whether `items` holds the text `s`.
pub fn contains_text(items: &Vec<String>, s: &str) -> (r: bool)
    ensures
        r == items.deep_view().contains(s@),
{
    for i in 0..items.len()
        invariant
            forall|j: int| 0 <= j < i ==> items.deep_view()[j] != s@,
    {
        if text_eq(items[i].as_str(), s) {
            assert(items.deep_view()[i as int] == s@);
            return true;
        }
    }
    false
}

/// The output files (paths relative to the output root, as found in the output
/// tree) that belong to no document of `index`: every `.html` page whose
/// logical identifier the index lacks. Other files are never listed.
pub fn stale_outputs(index: &Vec<DocumentIndexEntry>, outputs: &Vec<String>) -> (r: Vec<String>)
    ensures
        r.deep_view() == stale_files(ids_of(index@), outputs.deep_view()),
{
    let ids = index_ids(index);
    let ghost all = outputs.deep_view();
    let mut r: Vec<String> = Vec::new();
    proof {
        reveal_strlit(".html");
        assert(".html"@ =~= html_ext());
    }
    for i in 0..outputs.len()
        invariant
            all == outputs.deep_view(),
            ids.deep_view() == ids_of(index@),
            ".html"@ == html_ext(),
            r.deep_view() == stale_files(ids_of(index@), all.subrange(0, i as int)),
    {
        let o = outputs[i].as_str();
        let ghost before = r.deep_view();
        proof {
            broadcast use Seq::lemma_filter_push;
            assert(all.subrange(0, i + 1) =~= all.subrange(0, i as int).push(all[i as int]));
            assert(all[i as int] == o@);
        }
        if has_extension(o, ".html") {
            let stem = prefix_text(o, o.unicode_len() - 5);
            if !contains_text(&ids, stem.as_str()) {
                let c = String::from_str(o);
                r.push(c);
                assert(r.deep_view() =~= before.push(o@));
            }
        }
    }
    assert(all.subrange(0, outputs.len() as int) =~= all);
    r
}

/// A file is listed as stale exactly when it is one of `outputs` and is stale.
pub proof fn lemma_stale_files_contains(ids: Seq<Seq<char>>, outputs: Seq<Seq<char>>, o: Seq<char>)
    ensures
        stale_files(ids, outputs).contains(o) <==> (outputs.contains(o) && is_stale(ids, o)),
{
    broadcast use vstd::seq_lib::group_filter_ensures;

    let p = |x: Seq<char>| is_stale(ids, x);
    if stale_files(ids, outputs).contains(o) {
        outputs.lemma_filter_contains_rev(p, o);
        let k = choose|k: int| 0 <= k < outputs.filter(p).len() && outputs.filter(p)[k] == o;
        outputs.lemma_filter_pred(p, k);
    }
    if outputs.contains(o) && is_stale(ids, o) {
        let k = choose|k: int| 0 <= k < outputs.len() && outputs[k] == o;
        outputs.lemma_filter_contains(p, k);
    }
}

/// The output path of a logical identifier is a page that maps back to it.
pub proof fn lemma_output_path_round_trip(source: Seq<char>)
    requires
        is_markup_path(source),
    ensures
        has_ext(output_path_of(logical_id_of(source)), html_ext()),
        output_id_of(output_path_of(logical_id_of(source))) == logical_id_of(source),
{
    let id = logical_id_of(source);
    let out = output_path_of(id);
    assert(out.subrange(out.len() - 5, out.len() as int) =~= html_ext());
    assert(output_id_of(out) =~= id);
    assert(out[out.len() - 5 - 1] == source[source.len() - 3 - 1]);
}

/// The artifact of every indexed document survives reconciliation against that
/// index: a page rendered in this build is never deleted as stale.
pub proof fn lemma_indexed_outputs_kept(index: Seq<DocumentIndexEntry>, outputs: Seq<Seq<char>>, i: int)
    requires
        index_wf(index),
        0 <= i < index.len(),
    ensures
        !stale_files(ids_of(index), outputs).contains(output_path_of(index[i].logical_id@)),
{
    let e = index[i];
    assert(e.wf());
    lemma_output_path_round_trip(e.source_path@);
    assert(ids_of(index)[i] == e.logical_id@);
    lemma_stale_files_contains(ids_of(index), outputs, output_path_of(e.logical_id@));
}

/// Rebuilding with an unchanged document set deletes nothing: when every page
/// of the output tree was rendered from the current index, no file is stale.
pub proof fn lemma_unchanged_rebuild_deletes_nothing(index: Seq<DocumentIndexEntry>, outputs: Seq<Seq<char>>)
    requires
        index_wf(index),
        forall|o: Seq<char>| #[trigger] outputs.contains(o) && has_ext(o, html_ext())
            ==> exists|i: int| 0 <= i < index.len() && o == output_path_of(#[trigger] index[i].logical_id@),
    ensures
        stale_files(ids_of(index), outputs) == Seq::<Seq<char>>::empty(),
{
    let s = stale_files(ids_of(index), outputs);
    if s.len() > 0 {
        let o = s[0];
        assert(s.contains(o));
        lemma_stale_files_contains(ids_of(index), outputs, o);
        let i = choose|i: int| 0 <= i < index.len() && o == output_path_of(#[trigger] index[i].logical_id@);
        lemma_indexed_outputs_kept(index, outputs, i);
    }
    assert(s =~= Seq::<Seq<char>>::empty());
}

/// Removing one document and rebuilding deletes that document's page and
/// nothing else: with the output tree of a build of `previous`, reconciling
/// against `current` (the same documents without `removed`) lists exactly the
/// page of `removed`.
pub proof fn lemma_removed_document_reconciled(
    previous: Seq<DocumentIndexEntry>,
    current: Seq<DocumentIndexEntry>,
    removed: Seq<char>,
    outputs: Seq<Seq<char>>,
)
    requires
        index_wf(previous),
        index_wf(current),
        ids_of(previous).contains(removed),
        forall|id: Seq<char>| #[trigger] ids_of(current).contains(id)
            <==> ids_of(previous).contains(id) && id != removed,
        outputs.contains(output_path_of(removed)),
        forall|o: Seq<char>| #[trigger] outputs.contains(o) && has_ext(o, html_ext())
            ==> exists|i: int| 0 <= i < previous.len() && o == output_path_of(#[trigger] previous[i].logical_id@),
    ensures
        stale_files(ids_of(current), outputs).contains(output_path_of(removed)),
        forall|o: Seq<char>| #[trigger] stale_files(ids_of(current), outputs).contains(o)
            ==> o == output_path_of(removed),
{
    let k = choose|k: int| 0 <= k < ids_of(previous).len() && ids_of(previous)[k] == removed;
    assert(previous[k].wf());
    lemma_output_path_round_trip(previous[k].source_path@);
    lemma_stale_files_contains(ids_of(current), outputs, output_path_of(removed));
    assert forall|o: Seq<char>| #[trigger] stale_files(ids_of(current), outputs).contains(o)
        implies o == output_path_of(removed) by {
        lemma_stale_files_contains(ids_of(current), outputs, o);
        let i = choose|i: int| 0 <= i < previous.len() && o == output_path_of(#[trigger] previous[i].logical_id@);
        assert(previous[i].wf());
        lemma_output_path_round_trip(previous[i].source_path@);
        assert(ids_of(previous)[i] == previous[i].logical_id@);
        assert(ids_of(previous).contains(previous[i].logical_id@));
    }
}

} // verus!
