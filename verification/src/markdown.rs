//! Conversion of one page's markdown text into its full HTML page.

use vstd::prelude::*;
use crate::render::{page_wrapped, render_page_template, RenderError};

verus! {

/// The HTML fragment that the markdown renderer produces from the given
/// markdown text, with no extensions enabled.
pub uninterp spec fn md_render_of(md: Seq<char>) -> Seq<char>;

/// The full HTML page generated for the given markdown text: the rendered
/// fragment wrapped in the page template.
pub open spec fn page_output(md: Seq<char>) -> Seq<char> {
    page_wrapped(md_render_of(md))
}

/// A second run of the page converter on the unchanged markdown text
/// yields a byte-identical HTML page: the output is a function of the
/// text alone.
pub proof fn lemma_page_rebuild_identical(md: Seq<char>, first: Seq<char>, second: Seq<char>)
    requires
        first == page_output(md),
        second == page_output(md),
    ensures
        first == second,
{
}

/// Relies on pulldown_cmark::html::push_html over pulldown_cmark::Parser
/// with no extension options: the rendered HTML fragment depends on the
/// markdown text alone.
#[verifier::external_body]
fn markdown_fragment(md: &str) -> (r: String)
    ensures
        r@ == md_render_of(md@),
{
    let parser = pulldown_cmark::Parser::new_ext(md, pulldown_cmark::Options::empty());
    let mut out = String::new();
    pulldown_cmark::html::push_html(&mut out, parser);
    out
}

/// Converts one page's markdown text into the page's complete HTML.
///
/// The call succeeds on every input, and the result is the markdown
/// rendering of the text, wrapped in the fixed page template. The
/// `Result` shape mirrors the template engine's error reporting, but with
/// the embedded template rendering never fails.
pub fn page_html(md: &str) -> (r: Result<String, RenderError>)
    ensures
        r is Ok,
        r matches Ok(s) ==> s@ == page_output(md@),
{
    let fragment = markdown_fragment(md);
    match render_page_template(fragment.as_str()) {
        Ok(s) => Ok(s),
        Err(message) => Err(RenderError { message }),
    }
}

} // verus!
