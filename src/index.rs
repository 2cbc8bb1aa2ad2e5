//! The site-wide document index: which source files are documents, and the
//! logical identifier and output path derived from each.

use vstd::prelude::*;
use crate::text::{has_ext, strip_ext, has_extension, prefix_text, joined};

verus! {

/// The extension of a markup source document.
pub open spec fn markup_ext() -> Seq<char> {
    seq!['.', 'm', 'd']
}

/// The extension of a rendered output document.
pub open spec fn html_ext() -> Seq<char> {
    seq!['.', 'h', 't', 'm', 'l']
}

/// A path, relative to the content root, names a markup document.
pub open spec fn is_markup_path(p: Seq<char>) -> bool {
    has_ext(p, markup_ext())
}

/// The logical identifier of a document: its content-relative path without
/// the markup extension.
pub open spec fn logical_id_of(source: Seq<char>) -> Seq<char> {
    strip_ext(source, markup_ext())
}

/// The output path, relative to the output root, of the document `id`.
pub open spec fn output_path_of(id: Seq<char>) -> Seq<char> {
    id + html_ext()
}

/// The source paths, among `files`, that the index holds, in the same order.
pub open spec fn markup_files(files: Seq<Seq<char>>) -> Seq<Seq<char>> {
    files.filter(|p: Seq<char>| is_markup_path(p))
}

/// One document of the site.
pub struct DocumentIndexEntry {
    /// Path of the source document, relative to the content root.
    pub source_path: String,
    /// `source_path` without its markup extension.
    pub logical_id: String,
}

impl DocumentIndexEntry {
    /// The entry is a markup document and its identifier is derived from its path.
    pub open spec fn wf(&self) -> bool {
        &&& is_markup_path(self.source_path@)
        &&& self.logical_id@ == logical_id_of(self.source_path@)
    }

    /// The index entry of the markup document at `source_path`.
    pub fn new(source_path: &str) -> (r: DocumentIndexEntry)
        requires
            is_markup_path(source_path@),
        ensures
            r.source_path@ == source_path@,
            r.wf(),
    {
        let n = source_path.unicode_len();
        DocumentIndexEntry {
            source_path: String::from_str(source_path),
            logical_id: prefix_text(source_path, n - 3),
        }
    }

    /// Path of this document's output artifact, relative to the output root.
    pub fn output_path(&self) -> (r: String)
        ensures
            r@ == output_path_of(self.logical_id@),
    {
        proof {
            reveal_strlit(".html");
            assert(".html"@ =~= html_ext());
        }
        joined(self.logical_id.as_str(), ".html")
    }
}

/// The source paths of an index.
pub open spec fn sources_of(index: Seq<DocumentIndexEntry>) -> Seq<Seq<char>> {
    index.map_values(|e: DocumentIndexEntry| e.source_path@)
}

/// The logical identifiers of an index.
pub open spec fn ids_of(index: Seq<DocumentIndexEntry>) -> Seq<Seq<char>> {
    index.map_values(|e: DocumentIndexEntry| e.logical_id@)
}

/// Every entry of the index is well formed.
pub open spec fn index_wf(index: Seq<DocumentIndexEntry>) -> bool {
    forall|i: int| 0 <= i < index.len() ==> #[trigger] index[i].wf()
}

/// Whether the path `p`, relative to the content root, names a markup document.
pub fn is_markup_file(p: &str) -> (r: bool)
    ensures
        r == is_markup_path(p@),
{
    proof {
        reveal_strlit(".md");
        assert(".md"@ =~= markup_ext());
    }
    has_extension(p, ".md")
}

/// Builds the site index from the files found under the content root (paths
/// relative to it, in traversal order): one entry per markup document, in
/// the order of `files`.
pub fn build_index(files: &Vec<String>) -> (r: Vec<DocumentIndexEntry>)
    ensures
        sources_of(r@) == markup_files(files.deep_view()),
        index_wf(r@),
{
    let mut r: Vec<DocumentIndexEntry> = Vec::new();
    let ghost all = files.deep_view();
    for i in 0..files.len()
        invariant
            all == files.deep_view(),
            sources_of(r@) == markup_files(all.subrange(0, i as int)),
            index_wf(r@),
    {
        let p = files[i].as_str();
        proof {
            broadcast use Seq::lemma_filter_push;
            assert(all.subrange(0, i + 1) =~= all.subrange(0, i as int).push(all[i as int]));
            assert(all[i as int] == p@);
        }
        if is_markup_file(p) {
            let e = DocumentIndexEntry::new(p);
            r.push(e);
            assert(sources_of(r@) =~= markup_files(all.subrange(0, i as int)).push(p@));
        }
    }
    assert(all.subrange(0, files.len() as int) =~= all);
    r
}

/// The logical identifiers of the index, in index order: the navigation list
/// that every document receives.
pub fn index_ids(index: &Vec<DocumentIndexEntry>) -> (r: Vec<String>)
    ensures
        r.deep_view() == ids_of(index@),
{
    let mut r: Vec<String> = Vec::new();
    for i in 0..index.len()
        invariant
            r.deep_view() == ids_of(index@.subrange(0, i as int)),
    {
        let id = index[i].logical_id.clone();
        let ghost before = r.deep_view();
        r.push(id);
        assert(r.deep_view() =~= before.push(id@));
        assert(ids_of(index@.subrange(0, i + 1)) =~= ids_of(index@.subrange(0, i as int)).push(
            id@,
        ));
    }
    assert(index@.subrange(0, index.len() as int) =~= index@);
    r
}

/// Every markup document found under the content root has an index entry,
/// whose logical identifier is its path without the extension; its artifact
/// therefore has the output path `output_path_of(logical_id_of(p))`.
pub proof fn lemma_every_document_indexed(files: Seq<Seq<char>>, index: Seq<DocumentIndexEntry>, p: Seq<char>)
    requires
        sources_of(index) == markup_files(files),
        index_wf(index),
        files.contains(p),
        is_markup_path(p),
    ensures
        exists|i: int| #![trigger index[i]] 0 <= i < index.len() && index[i].source_path@ == p
            && index[i].logical_id@ == logical_id_of(p),
{
    broadcast use vstd::seq_lib::group_filter_ensures;

    let k = choose|k: int| 0 <= k < files.len() && files[k] == p;
    files.lemma_filter_contains(|q: Seq<char>| is_markup_path(q), k);
    let i = choose|i: int| 0 <= i < markup_files(files).len() && markup_files(files)[i] == p;
    assert(sources_of(index)[i] == index[i].source_path@);
    assert(index[i].wf());
}

} // verus!
