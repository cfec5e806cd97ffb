//! Markdown-to-HTML rendering, through `pulldown-cmark`.

use vstd::prelude::*;

verus! {

/// The HTML produced from a markdown source by the configured renderer
/// (footnotes, GFM, heading attributes, smart punctuation, strikethrough,
/// subscript and superscript enabled): a fixed function of the source alone.
pub uninterp spec fn html_of(md: Seq<char>) -> Seq<char>;

/// Relies on `pulldown_cmark::Parser::new_ext` and `html::push_html`:
/// rendering is total (it never fails on malformed markdown) and, with the
/// option set fixed here, the output depends on the source text alone.
#[verifier::external_body]
pub fn render_markdown(text: &str) -> (r: String)
    ensures
        r@ == html_of(text@),
{
    let mut options = pulldown_cmark::Options::empty();
    options.insert(pulldown_cmark::Options::ENABLE_FOOTNOTES);
    options.insert(pulldown_cmark::Options::ENABLE_GFM);
    options.insert(pulldown_cmark::Options::ENABLE_HEADING_ATTRIBUTES);
    options.insert(pulldown_cmark::Options::ENABLE_SMART_PUNCTUATION);
    options.insert(pulldown_cmark::Options::ENABLE_STRIKETHROUGH);
    options.insert(pulldown_cmark::Options::ENABLE_SUBSCRIPT);
    options.insert(pulldown_cmark::Options::ENABLE_SUPERSCRIPT);
    let parser = pulldown_cmark::Parser::new_ext(text, options);
    let mut html = String::with_capacity(2048);
    pulldown_cmark::html::push_html(&mut html, parser);
    html
}

} // verus!
