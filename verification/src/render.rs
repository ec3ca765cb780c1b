//! The markdown rendering pipeline: convert markdown to an HTML fragment
//! (with tables, strikethrough and task lists enabled), then wrap every
//! `<pre>` block in an extra container element for code-block styling.

use vstd::prelude::*;
use crate::text::replace;
use crate::text::replace_spec;
use crate::sanitize::clean;
use crate::sanitize::clean_of;

verus! {

/// What the CommonMark converter returns for a given markdown text, with
/// tables, strikethrough and task lists enabled.
pub uninterp spec fn cmark_html_of(s: Seq<char>) -> Seq<char>;

/// Relies on `pulldown_cmark::Parser::new_ext` and
/// `pulldown_cmark::html::push_html`: CommonMark conversion to an HTML
/// fragment, with the table, strikethrough and task-list extensions on;
/// the result depends on the markdown text alone.
#[verifier::external_body]
fn markdown_fragment(markdown_content: &str) -> (r: String)
    ensures
        r@ == cmark_html_of(markdown_content@),
{
    let mut options = pulldown_cmark::Options::empty();
    options.insert(pulldown_cmark::Options::ENABLE_TABLES);
    options.insert(pulldown_cmark::Options::ENABLE_STRIKETHROUGH);
    options.insert(pulldown_cmark::Options::ENABLE_TASKLISTS);
    let parser = pulldown_cmark::Parser::new_ext(markdown_content, options);
    let mut html_output = String::new();
    pulldown_cmark::html::push_html(&mut html_output, parser);
    html_output
}

/// `h` with every `<pre>` opening wrapped by the styling container and
/// every `</pre>` closing followed by the container's end.
pub open spec fn wrap_pre_spec(h: Seq<char>) -> Seq<char> {
    replace_spec(
        replace_spec(h, "<pre>"@, "<div class=\"highlighter-rouge\"><pre>"@),
        "</pre>"@,
        "</pre></div>"@,
    )
}

/// Wrap every `<pre>` block of a fragment in an extra container element,
/// as a plain text transform applied after conversion.
pub fn add_syntax_highlighting_containers(html: String) -> (r: String)
    ensures
        r@ == wrap_pre_spec(html@),
{
    proof {
        reveal_strlit("<pre>");
        reveal_strlit("</pre>");
    }
    let step = replace(html.as_str(), "<pre>", "<div class=\"highlighter-rouge\"><pre>");
    replace(step.as_str(), "</pre>", "</pre></div>")
}

/// What rendering markdown yields: the converted fragment with its `<pre>`
/// blocks wrapped.
pub open spec fn rendered_html_of(m: Seq<char>) -> Seq<char> {
    wrap_pre_spec(cmark_html_of(m))
}

/// Convert markdown text to the HTML fragment served for previews and
/// shared documents.
pub fn convert_markdown_to_html(markdown_content: &str) -> (r: String)
    ensures
        r@ == rendered_html_of(markdown_content@),
{
    let html_output = markdown_fragment(markdown_content);
    add_syntax_highlighting_containers(html_output)
}

/// The full pipeline in its fixed order: sanitize the raw input, then
/// convert the sanitized markdown, then wrap the `<pre>` blocks.
pub fn render_markdown(raw_content: &str) -> (r: String)
    ensures
        r@ == rendered_html_of(clean_of(raw_content@)),
{
    let sanitized_content = clean(raw_content);
    convert_markdown_to_html(sanitized_content.as_str())
}

/// Rendering is deterministic: one markdown text has one rendered fragment,
/// so rendering the same text twice yields character-identical HTML.
pub proof fn lemma_rendering_deterministic(m: Seq<char>, h1: Seq<char>, h2: Seq<char>)
    requires
        h1 == rendered_html_of(m),
        h2 == rendered_html_of(m),
    ensures
        h1 == h2,
{
}

} // verus!
