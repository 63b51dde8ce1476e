//! Trusted access to the HTML engine. Each function here hands one DOM query
//! over to scraper and returns plain strings; what scraper returns for a
//! given document and selector is deterministic, so each result is given a
//! name that the extraction rules' contracts are stated over. The extraction
//! policy itself — which selectors, which entries to keep, how to normalize
//! what comes back — lives in verified code.

use vstd::prelude::*;

verus! {

/// The serialized HTML of each element of a document that matches a CSS
/// selector, in document order; a selector that does not parse matches
/// nothing.
pub uninterp spec fn selected_fragments(html: Seq<char>, css: Seq<char>) -> Seq<Seq<char>>;

/// The concatenated text of the first element of an HTML fragment that
/// matches a CSS selector, or nothing when no element matches (or the
/// selector does not parse).
pub uninterp spec fn first_text(fragment: Seq<char>, css: Seq<char>) -> Option<Seq<char>>;

/// The value of a named attribute on the first element of an HTML fragment
/// that matches a CSS selector, or nothing when no element matches, the
/// element lacks the attribute, or the selector does not parse.
pub uninterp spec fn first_attr(fragment: Seq<char>, css: Seq<char>, attr: Seq<char>) -> Option<
    Seq<char>,
>;

/// Relies on `scraper::Html::parse_document`, `scraper::Selector::parse`,
/// `Html::select` and `ElementRef::html`: the elements matching a selector
/// come back in document order, each serialized as its own HTML, and all of
/// it is a function of the document and selector text alone.
#[verifier::external_body]
pub(crate) fn select_fragments(html: &str, css: &str) -> (r: Vec<String>)
    ensures
        r.deep_view() == selected_fragments(html@, css@),
{
    let mut out: Vec<String> = Vec::new();
    if let Ok(sel) = scraper::Selector::parse(css) {
        let doc = scraper::Html::parse_document(html);
        for el in doc.select(&sel) {
            out.push(el.html());
        }
    }
    out
}

/// Relies on `scraper::Html::parse_fragment`, `scraper::Selector::parse`,
/// `Html::select` and `ElementRef::text`: the text of the first match is a
/// function of the fragment and selector text alone.
#[verifier::external_body]
pub(crate) fn select_first_text(fragment: &str, css: &str) -> (r: Option<String>)
    ensures
        r.deep_view() == first_text(fragment@, css@),
{
    if let Ok(sel) = scraper::Selector::parse(css) {
        if let Some(el) = scraper::Html::parse_fragment(fragment).select(&sel).next() {
            return Some(el.text().collect());
        }
    }
    None
}

/// Relies on `scraper::Html::parse_fragment`, `scraper::Selector::parse`,
/// `Html::select` and `ElementRef::attr`: the attribute value of the first
/// match is a function of the fragment, selector and attribute text alone.
#[verifier::external_body]
pub(crate) fn select_first_attr(fragment: &str, css: &str, attr: &str) -> (r: Option<String>)
    ensures
        r.deep_view() == first_attr(fragment@, css@, attr@),
{
    if let Ok(sel) = scraper::Selector::parse(css) {
        if let Some(el) = scraper::Html::parse_fragment(fragment).select(&sel).next() {
            return el.attr(attr).map(|v| v.to_string());
        }
    }
    None
}

} // verus!
