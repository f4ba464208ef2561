//! The two fixed HTML templates and the template engine behind them.
//!
//! Every converted page is wrapped in the page template, and the top-level
//! index in the index template. Each template is an embedded constant with
//! a single triple-braced placeholder, so the engine inserts the supplied
//! value verbatim between a fixed prefix and a fixed suffix.

use vstd::prelude::*;

verus! {

/// A failure inside the template engine, with its message.
#[derive(Debug)]
pub struct RenderError {
    pub message: String,
}

impl RenderError {
    /// The engine's description of what went wrong.
    pub fn message(&self) -> (r: &str)
        ensures
            r@ == self.message@,
    {
        self.message.as_str()
    }
}

/// Everything of the page template before its `content` placeholder.
pub open spec fn page_prefix() -> Seq<char> {
    "<!DOCTYPE html><html><head><meta charset=\"utf-8\"></head><body>"@
}

/// Everything of the page template after its `content` placeholder.
pub open spec fn page_suffix() -> Seq<char> {
    "</body></html>"@
}

/// Everything of the index template before its `entries` placeholder.
pub open spec fn index_prefix() -> Seq<char> {
    "<!DOCTYPE html><html><head><meta charset=\"utf-8\"></head><body><ul>"@
}

/// Everything of the index template after its `entries` placeholder.
pub open spec fn index_suffix() -> Seq<char> {
    "</ul></body></html>"@
}

/// The page template wrapped around an HTML fragment.
pub open spec fn page_wrapped(fragment: Seq<char>) -> Seq<char> {
    page_prefix() + fragment + page_suffix()
}

/// The index template wrapped around the rendered list entries.
pub open spec fn index_wrapped(entries: Seq<char>) -> Seq<char> {
    index_prefix() + entries + index_suffix()
}

/// Relies on handlebars::Handlebars::register_template_string and
/// handlebars::Handlebars::render with the fixed page template: its only
/// placeholder is the triple-braced `content`, which handlebars replaces
/// verbatim with the supplied value (escaping disabled), leaving the rest
/// of the template unchanged. The call cannot fail: the embedded template
/// is valid and registers, the string-map context always serializes, the
/// registry is not strict, and rendering into a string cannot hit a write
/// error.
#[verifier::external_body]
pub(crate) fn render_page_template(content: &str) -> (r: Result<String, String>)
    ensures
        r is Ok,
        r matches Ok(s) ==> s@ == page_wrapped(content@),
{
    let mut engine = handlebars::Handlebars::new();
    let template = "<!DOCTYPE html><html><head><meta charset=\"utf-8\"></head><body>{{{content}}}</body></html>";
    if let Err(e) = engine.register_template_string("page", template) {
        return Err(e.to_string());
    }
    let mut data = std::collections::HashMap::new();
    data.insert("content", content);
    engine.render("page", &data).map_err(|e| e.to_string())
}

/// Relies on handlebars::Handlebars::register_template_string and
/// handlebars::Handlebars::render with the fixed index template: its only
/// placeholder is the triple-braced `entries`, which handlebars replaces
/// verbatim with the supplied value (escaping disabled), leaving the rest
/// of the template unchanged. The call cannot fail, for the same reasons
/// as the page template's.
#[verifier::external_body]
pub(crate) fn render_index_template(entries: &str) -> (r: Result<String, String>)
    ensures
        r is Ok,
        r matches Ok(s) ==> s@ == index_wrapped(entries@),
{
    let mut engine = handlebars::Handlebars::new();
    let template = "<!DOCTYPE html><html><head><meta charset=\"utf-8\"></head><body><ul>{{{entries}}}</ul></body></html>";
    if let Err(e) = engine.register_template_string("index", template) {
        return Err(e.to_string());
    }
    let mut data = std::collections::HashMap::new();
    data.insert("entries", entries);
    engine.render("index", &data).map_err(|e| e.to_string())
}

} // verus!
