//! Rendering one document: frontmatter, markup conversion, the render context,
//! the template engine, and the artifact that is written to the output tree.

use vstd::prelude::*;
use crate::config::WingConfig;
use crate::engine::{engine_context, engine_render, EngineFault};
use crate::frontmatter::{body_of, split_frontmatter, template_choice, template_for_block};
use crate::index::{output_path_of, DocumentIndexEntry};
use crate::text::{copy_texts, joined};

verus! {

/// What pulldown-cmark renders from the markup `text`, with every extension on.
pub uninterp spec fn markup_html_of(text: Seq<char>) -> Seq<char>;

/// Relies on pulldown_cmark::Parser::new_ext with `Options::all()` (tables,
/// footnotes, strikethrough, task lists among them; raw HTML passes through) and
/// pulldown_cmark::html::push_html: the HTML of `text`.
#[verifier::external_body]
fn markup_to_html(text: &str) -> (r: String)
    ensures
        r@ == markup_html_of(text@),
{
    let mut out = String::new();
    let events = pulldown_cmark::Parser::new_ext(text, pulldown_cmark::Options::all());
    pulldown_cmark::html::push_html(&mut out, events);
    out
}

/// How chrono writes the UTC time `secs` seconds after the Unix epoch as
/// `YYYY-MM-DD HH:MM`; `None` outside chrono's range of dates.
pub uninterp spec fn utc_minutes_of(secs: int) -> Option<Seq<char>>;

/// Relies on chrono::DateTime::<chrono::Utc>::from_timestamp, which is `None`
/// outside chrono's range, and DateTime::format with `%Y-%m-%d %H:%M`.
#[verifier::external_body]
fn utc_minutes(secs: i64) -> (r: Option<String>)
    ensures
        r.deep_view() == utc_minutes_of(secs as int),
{
    chrono::DateTime::<chrono::Utc>::from_timestamp(secs, 0).map(
        |t| t.format("%Y-%m-%d %H:%M").to_string(),
    )
}

/// The timestamp text of a page: the UTC minute of `secs`, or empty where
/// chrono has no date for it.
pub open spec fn stamp_of(secs: int) -> Seq<char> {
    match utc_minutes_of(secs) {
        Some(s) => s,
        None => Seq::empty(),
    }
}

/// The timestamp text of a page for `secs` seconds after the Unix epoch.
pub fn stamp(secs: i64) -> (r: String)
    ensures
        r@ == stamp_of(secs as int),
{
    match utc_minutes(secs) {
        Some(s) => s,
        None => String::new(),
    }
}

/// The stage of rendering a document at which it failed.
#[derive(Clone, Copy, Debug, PartialEq, Eq, Structural)]
pub enum RenderStage {
    /// The source could not be read.
    Read,
    /// The frontmatter block is not a YAML map, or its `template` is not text.
    Frontmatter,
    /// The markup could not be converted (the converter in use accepts every text).
    Markup,
    /// The selected template does not exist.
    TemplateLookup,
    /// The template failed while rendering.
    TemplateRender,
    /// The page could not be written.
    Write,
}

/// A document that produced no artifact, and why.
#[derive(Debug)]
pub struct RenderError {
    /// The document's path, relative to the content root.
    pub source_path: String,
    pub stage: RenderStage,
    pub message: String,
}

/// The frontmatter that a page's template sees.
#[derive(Debug)]
pub struct WingTemplateFrontmatter {
    /// The template the document renders with.
    pub template: String,
}

/// Everything the template engine receives for one document.
#[derive(Debug)]
pub struct WingTemplateData {
    /// The document's markup body, as HTML.
    pub content: String,
    /// The logical identifiers of every document of the site, in index order.
    pub items: Vec<String>,
    /// The document's logical identifier.
    pub current: String,
    pub frontmatter: WingTemplateFrontmatter,
    /// When the source was last modified.
    pub modified: String,
    /// When the source was created.
    pub created: String,
}

/// A rendered document.
#[derive(Debug)]
pub struct WingTemplate {
    /// The source text.
    pub content: String,
    /// The source path, relative to the content root.
    pub content_path: String,
    /// The finished page: template and content.
    pub completed: String,
    /// Where the page goes, relative to the output root.
    pub completed_file: String,
}

impl WingTemplateData {
    /// `self` is what the engine receives for the document `entry` with source
    /// `text`, the site's identifiers `ids` and the given times.
    pub open spec fn describes(
        &self,
        entry: &DocumentIndexEntry,
        ids: Seq<Seq<char>>,
        text: Seq<char>,
        created: int,
        modified: int,
    ) -> bool {
        &&& template_choice(text) is Some
        &&& self.content@ == markup_html_of(body_of(text))
        &&& self.items.deep_view() == ids
        &&& self.current@ == entry.logical_id@
        &&& self.frontmatter.template@ == template_choice(text)->0
        &&& self.created@ == stamp_of(created)
        &&& self.modified@ == stamp_of(modified)
    }

    /// The render context of one document: its frontmatter read and stripped,
    /// its body converted to HTML, and the site's navigation list. Fails, at
    /// the frontmatter stage, exactly where the frontmatter cannot be read.
    pub fn new(entry: &DocumentIndexEntry, ids: &Vec<String>, text: &str, created: i64, modified: i64) -> (r: Result<WingTemplateData, RenderError>)
        ensures
            r is Ok <==> template_choice(text@) is Some,
            r matches Ok(d) ==> d.describes(entry, ids.deep_view(), text@, created as int, modified as int),
            r matches Err(e) ==> e.stage == RenderStage::Frontmatter && e.source_path@ == entry.source_path@,
    {
        let (block, body) = split_frontmatter(text);
        let template = match template_for_block(&block) {
            Some(t) => t,
            None => {
                return Err(RenderError {
                    source_path: entry.source_path.clone(),
                    stage: RenderStage::Frontmatter,
                    message: String::from_str("the frontmatter is not a map with a text `template`"),
                });
            },
        };
        Ok(WingTemplateData {
            content: markup_to_html(body.as_str()),
            items: copy_texts(ids),
            current: entry.logical_id.clone(),
            frontmatter: WingTemplateFrontmatter { template },
            modified: stamp(modified),
            created: stamp(created),
        })
    }

    /// The name under which the engine holds the template of this page.
    pub fn template_file(&self) -> (r: String)
        ensures
            r@ == self.frontmatter.template@ + seq!['.', 'h', 't', 'm', 'l'],
    {
        proof {
            reveal_strlit(".html");
        }
        let r = joined(self.frontmatter.template.as_str(), ".html");
        assert(r@ =~= self.frontmatter.template@ + seq!['.', 'h', 't', 'm', 'l']);
        r
    }
}

impl WingTemplate {
    /// The document `entry`, with source `text`, once the engine has answered
    /// `outcome`: its page, or the stage that failed (`TemplateLookup` for a
    /// missing template, `TemplateRender` otherwise).
    pub fn finish(entry: &DocumentIndexEntry, text: &str, outcome: Result<String, EngineFault>) -> (r: Result<WingTemplate, RenderError>)
        ensures
            r is Ok <==> outcome is Ok,
            r matches Ok(t) ==> {
                &&& outcome matches Ok(page) && t.completed@ == page@
                &&& t.completed_file@ == output_path_of(entry.logical_id@)
                &&& t.content_path@ == entry.source_path@
                &&& t.content@ == text@
            },
            r matches Err(e) ==> {
                &&& e.source_path@ == entry.source_path@
                &&& (e.stage == RenderStage::TemplateLookup <==> outcome matches Err(EngineFault::MissingTemplate))
                &&& (e.stage == RenderStage::TemplateRender <==> outcome matches Err(EngineFault::Failed(_)))
            },
    {
        match outcome {
            Ok(page) => Ok(WingTemplate {
                content: String::from_str(text),
                content_path: entry.source_path.clone(),
                completed: page,
                completed_file: entry.output_path(),
            }),
            Err(EngineFault::MissingTemplate) => Err(RenderError {
                source_path: entry.source_path.clone(),
                stage: RenderStage::TemplateLookup,
                message: String::from_str("no such template"),
            }),
            Err(EngineFault::Failed(message)) => Err(RenderError {
                source_path: entry.source_path.clone(),
                stage: RenderStage::TemplateRender,
                message,
            }),
        }
    }

    /// Renders the document `entry`, whose source is `text`, for a site whose
    /// documents have the identifiers `ids`: its page, to be written at the
    /// output path of its logical identifier, or the stage at which it failed.
    /// The frontmatter fails exactly where it cannot be read; past it, only the
    /// template engine can fail.
    pub fn new(
        engine: &tera::Tera,
        entry: &DocumentIndexEntry,
        _config: &WingConfig,
        ids: &Vec<String>,
        text: &str,
        created: i64,
        modified: i64,
    ) -> (r: Result<WingTemplate, RenderError>)
        ensures
            (r matches Err(e) && e.stage == RenderStage::Frontmatter) <==> template_choice(text@) is None,
            r matches Ok(t) ==> {
                &&& t.completed_file@ == output_path_of(entry.logical_id@)
                &&& t.content_path@ == entry.source_path@
                &&& t.content@ == text@
            },
            r matches Err(e) ==> {
                &&& e.source_path@ == entry.source_path@
                &&& (e.stage == RenderStage::Frontmatter || e.stage == RenderStage::TemplateLookup
                    || e.stage == RenderStage::TemplateRender)
            },
    {
        let data = match WingTemplateData::new(entry, ids, text, created, modified) {
            Ok(d) => d,
            Err(e) => {
                return Err(e);
            },
        };
        let context = engine_context(&data);
        let outcome = engine_render(engine, data.template_file().as_str(), &context);
        WingTemplate::finish(entry, text, outcome)
    }
}

/// Rendering is deterministic up to the template engine: two render contexts of
/// the same document, source, index and times are the same, and go to the same
/// template and the same output path.
pub proof fn lemma_render_context_deterministic(
    a: WingTemplateData,
    b: WingTemplateData,
    entry: DocumentIndexEntry,
    ids: Seq<Seq<char>>,
    text: Seq<char>,
    created: int,
    modified: int,
)
    requires
        a.describes(&entry, ids, text, created, modified),
        b.describes(&entry, ids, text, created, modified),
    ensures
        a.content@ == b.content@,
        a.items.deep_view() == b.items.deep_view(),
        a.current@ == b.current@,
        a.frontmatter.template@ == b.frontmatter.template@,
        a.created@ == b.created@,
        a.modified@ == b.modified@,
{
}

} // verus!
