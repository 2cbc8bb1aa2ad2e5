use wsg::index::build_index;
use wsg::reconcile::{contains_text, stale_outputs};

fn texts(v: &[&str]) -> Vec<String> {
    v.iter().map(|s| s.to_string()).collect()
}

#[test]
fn removed_document_page_is_stale_and_nothing_else() {
    // previous build: index, posts/a, posts/x; posts/x.md is then removed
    let index = build_index(&texts(&["index.md", "posts/a.md"]));
    let outputs = texts(&["index.html", "posts/a.html", "posts/x.html", "static/site.css"]);
    assert_eq!(stale_outputs(&index, &outputs), vec!["posts/x.html".to_string()]);
}

#[test]
fn unchanged_rebuild_deletes_nothing() {
    let index = build_index(&texts(&["index.md", "posts/a.md"]));
    let outputs = texts(&["index.html", "posts/a.html"]);
    assert!(stale_outputs(&index, &outputs).is_empty());
}

#[test]
fn only_html_pages_are_reconciled() {
    let index = build_index(&Vec::new());
    let outputs = texts(&["feed.xml", "img/logo.png", ".html", "old.html"]);
    assert_eq!(stale_outputs(&index, &outputs), vec!["old.html".to_string()]);
}

#[test]
fn renamed_document_leaves_old_page_stale() {
    let index = build_index(&texts(&["posts/new-name.md"]));
    let outputs = texts(&["posts/old-name.html", "posts/new-name.html"]);
    assert_eq!(stale_outputs(&index, &outputs), vec!["posts/old-name.html".to_string()]);
}

#[test]
fn contains_text_compares_whole_strings() {
    let v = texts(&["posts/a", "index"]);
    assert!(contains_text(&v, "index"));
    assert!(!contains_text(&v, "posts"));
    assert!(!contains_text(&v, "index "));
}
