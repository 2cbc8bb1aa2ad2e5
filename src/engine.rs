//! The template engine: a `tera::Tera` that app code loads from the template
//! directory, and the one call that renders a page with it.

use vstd::prelude::*;
use crate::render::WingTemplateData;

verus! {

#[verifier::external_type_specification]
#[verifier::external_body]
pub struct ExTera(tera::Tera);

#[verifier::external_type_specification]
#[verifier::external_body]
pub struct ExContext(tera::Context);

/// Why the template engine produced no page.
#[derive(Debug)]
pub enum EngineFault {
    /// The engine holds no template of the requested name.
    MissingTemplate,
    /// The template failed to render; the engine's message.
    Failed(String),
}

/// Relies on tera::Context::new and tera::Context::insert: the engine's view of
/// `data`, one variable per field.
#[verifier::external_body]
pub(crate) fn engine_context(data: &WingTemplateData) -> tera::Context {
    let mut c = tera::Context::new();
    c.insert("content", &data.content);
    c.insert("items", &data.items);
    c.insert("current", &data.current);
    c.insert("frontmatter", &[("template", &data.frontmatter.template)].into_iter().collect::<std::collections::BTreeMap<_, _>>());
    c.insert("modified", &data.modified);
    c.insert("created", &data.created);
    c
}

/// Relies on tera::Tera::render: the page that template `name` gives for `context`.
/// What it returns depends on the templates that `engine` holds.
#[verifier::external_body]
pub(crate) fn engine_render(engine: &tera::Tera, name: &str, context: &tera::Context) -> Result<String, EngineFault> {
    match engine.render(name, context) {
        Ok(page) => Ok(page),
        Err(e) => match e.kind {
            tera::ErrorKind::TemplateNotFound(_) => Err(EngineFault::MissingTemplate),
            _ => Err(EngineFault::Failed(e.to_string())),
        },
    }
}

} // verus!
