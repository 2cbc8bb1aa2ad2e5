use wsg::config::WingConfig;
use wsg::engine::EngineFault;
use wsg::index::{build_index, index_ids, DocumentIndexEntry};
use wsg::render::{stamp, RenderStage, WingTemplate, WingTemplateData};

fn engine(templates: &[(&str, &str)]) -> tera::Tera {
    let mut t = tera::Tera::default();
    for (name, body) in templates {
        t.add_raw_template(name, body).unwrap();
    }
    t.autoescape_on(vec![]);
    t
}

fn texts(v: &[&str]) -> Vec<String> {
    v.iter().map(|s| s.to_string()).collect()
}

#[test]
fn site_with_index_and_post() {
    let tera = engine(&[
        ("index.html", "index:{{ current }}:{{ items | join(sep=\",\") }}:{{ content }}"),
        ("post.html", "post:{{ current }}:{{ frontmatter.template }}:{{ content }}"),
    ]);
    let config = WingConfig::default();
    let index = build_index(&texts(&["index.md", "posts/a.md"]));
    let ids = index_ids(&index);
    assert_eq!(ids, texts(&["index", "posts/a"]));

    let home = WingTemplate::new(&tera, &index[0], &config, &ids, "# Home\n", 0, 0).unwrap();
    assert_eq!(home.completed_file, "index.html");
    assert_eq!(home.completed, "index:index:index,posts/a:<h1>Home</h1>\n");

    let post = WingTemplate::new(&tera, &index[1], &config, &ids, "---\ntemplate: post\n---\nHello\n", 0, 0).unwrap();
    assert_eq!(post.completed_file, "posts/a.html");
    assert_eq!(post.content_path, "posts/a.md");
    assert_eq!(post.completed, "post:posts/a:post:<p>Hello</p>\n");
}

#[test]
fn custom_template_is_used() {
    let tera = engine(&[("index.html", "default"), ("custom.html", "custom {{ content }}")]);
    let entry = DocumentIndexEntry::new("page.md");
    let ids = texts(&["page"]);
    let page = WingTemplate::new(&tera, &entry, &WingConfig::default(), &ids, "---\ntemplate: custom\n---\nx", 0, 0).unwrap();
    assert_eq!(page.completed, "custom <p>x</p>\n");
    let plain = WingTemplate::new(&tera, &entry, &WingConfig::default(), &ids, "x", 0, 0).unwrap();
    assert_eq!(plain.completed, "default");
}

#[test]
fn rendering_twice_gives_identical_pages() {
    let tera = engine(&[("index.html", "{{ current }} {{ created }} {{ content }}")]);
    let entry = DocumentIndexEntry::new("a.md");
    let ids = texts(&["a"]);
    let text = "| a | b |\n|---|---|\n| 1 | 2 |\n\n~~gone~~ [^1]\n\n[^1]: note\n\n- [x] done\n";
    let first = WingTemplate::new(&tera, &entry, &WingConfig::default(), &ids, text, 86400, 86400).unwrap();
    let second = WingTemplate::new(&tera, &entry, &WingConfig::default(), &ids, text, 86400, 86400).unwrap();
    assert_eq!(first.completed, second.completed);
    assert!(first.completed.contains("<table>"));
    assert!(first.completed.contains("<del>gone</del>"));
    assert!(first.completed.contains("checkbox"));
    assert!(first.completed.contains("footnote"));
}

#[test]
fn missing_template_is_a_lookup_failure() {
    let tera = engine(&[("index.html", "x")]);
    let entry = DocumentIndexEntry::new("posts/b.md");
    let err = WingTemplate::new(&tera, &entry, &WingConfig::default(), &texts(&["posts/b"]), "---\ntemplate: nope\n---\n", 0, 0).unwrap_err();
    assert_eq!(err.stage, RenderStage::TemplateLookup);
    assert_eq!(err.source_path, "posts/b.md");
}

#[test]
fn broken_template_is_a_render_failure() {
    let tera = engine(&[("index.html", "{{ missing_variable }}")]);
    let entry = DocumentIndexEntry::new("c.md");
    let err = WingTemplate::new(&tera, &entry, &WingConfig::default(), &texts(&["c"]), "text", 0, 0).unwrap_err();
    assert_eq!(err.stage, RenderStage::TemplateRender);
    assert_eq!(err.source_path, "c.md");
}

#[test]
fn bad_frontmatter_is_a_frontmatter_failure() {
    let tera = engine(&[("index.html", "x")]);
    let entry = DocumentIndexEntry::new("d.md");
    let err = WingTemplate::new(&tera, &entry, &WingConfig::default(), &texts(&["d"]), "---\ntemplate: [\n---\n", 0, 0).unwrap_err();
    assert_eq!(err.stage, RenderStage::Frontmatter);
    assert_eq!(err.source_path, "d.md");
}

#[test]
fn render_context_holds_document_data() {
    let entry = DocumentIndexEntry::new("notes/x.md");
    let ids = texts(&["index", "notes/x"]);
    let d = WingTemplateData::new(&entry, &ids, "---\ntemplate: note\n---\n*hi*\n", 0, 1_600_000_000).unwrap();
    assert_eq!(d.content, "<p><em>hi</em></p>\n");
    assert_eq!(d.items, ids);
    assert_eq!(d.current, "notes/x");
    assert_eq!(d.frontmatter.template, "note");
    assert_eq!(d.created, "1970-01-01 00:00");
    assert_eq!(d.modified, "2020-09-13 12:26");
    assert_eq!(d.template_file(), "note.html");
}

#[test]
fn raw_html_passes_through() {
    let entry = DocumentIndexEntry::new("h.md");
    let d = WingTemplateData::new(&entry, &texts(&["h"]), "<div class=\"x\">raw</div>\n", 0, 0).unwrap();
    assert_eq!(d.content, "<div class=\"x\">raw</div>\n");
}

#[test]
fn stamp_is_utc_minute() {
    assert_eq!(stamp(0), "1970-01-01 00:00");
    assert_eq!(stamp(59), "1970-01-01 00:00");
    assert_eq!(stamp(-60), "1969-12-31 23:59");
    assert_eq!(stamp(i64::MAX), "");
}

#[test]
fn finish_maps_engine_outcomes() {
    let entry = DocumentIndexEntry::new("e.md");
    let ok = WingTemplate::finish(&entry, "src", Ok("page".to_string())).unwrap();
    assert_eq!(ok.completed, "page");
    assert_eq!(ok.completed_file, "e.html");
    assert_eq!(ok.content, "src");
    let missing = WingTemplate::finish(&entry, "src", Err(EngineFault::MissingTemplate)).unwrap_err();
    assert_eq!(missing.stage, RenderStage::TemplateLookup);
    let failed = WingTemplate::finish(&entry, "src", Err(EngineFault::Failed("boom".to_string()))).unwrap_err();
    assert_eq!(failed.stage, RenderStage::TemplateRender);
    assert_eq!(failed.message, "boom");
}
