//! Markdown for notes, journal entries and announcements, rendered to HTML by pulldown-cmark.
use vstd::prelude::*;

verus! {

/// The HTML that pulldown-cmark renders for a markdown text, with no extension enabled.
pub uninterp spec fn markdown_html_text(text: Seq<char>) -> Seq<char>;

/// `pulldown_cmark::Parser::new` over the text, rendered by `html::push_html` into an empty
/// string. Claims only that the result is the named rendering of the text.
#[verifier::external_body]
fn push_markdown_html(text: &str) -> (r: String)
    ensures
        r@ == markdown_html_text(text@),
{
    let mut html_output = String::new();
    pulldown_cmark::html::push_html(&mut html_output, pulldown_cmark::Parser::new(text));
    html_output
}

/// The HTML a markdown view shows for its content.
pub fn markdown_to_html(content: &str) -> (r: String)
    ensures
        r@ == markdown_html_text(content@),
{
    push_markdown_html(content)
}

} // verus!
