//! Extraction of result records from one raw HTML page. Candidate result
//! containers are taken in document order; a container missing its title or
//! snippet element is dropped whole rather than emitted as a partial record;
//! link and icon URLs are scheme-normalized; a trailing date annotation is
//! parsed when one of the recognized formats matches. Parsing never fails —
//! a page of malformed entries simply yields fewer (or no) records.

use vstd::prelude::*;

use crate::dates::SimpleDate;
use crate::dates::parse_date;
use crate::dates::spec_parse_date;
use crate::scrape::first_attr;
use crate::scrape::first_text;
use crate::scrape::select_first_attr;
use crate::scrape::select_first_text;
use crate::scrape::select_fragments;
use crate::scrape::selected_fragments;
use crate::urls::normalize_url;
use crate::urls::spec_normalize_url;

verus! {

/// One extracted search hit.
#[derive(Clone, Debug)]
pub struct DuckDuckGoResult {
    /// Concatenated visible text of the result's title element.
    pub title: String,
    /// Absolute URL of the hit; a scheme-relative source value was prefixed
    /// with `https:`.
    pub link: String,
    /// Concatenated visible text of the description element.
    pub snippet: String,
    /// Absolute URL of the result's icon, normalized like `link`; absent when
    /// the container has no icon element.
    pub favicon: Option<String>,
    /// The trailing date annotation, when one exists and parses.
    pub date: Option<SimpleDate>,
}

/// The mathematical shape of one extracted hit.
pub ghost struct ResultView {
    pub title: Seq<char>,
    pub link: Seq<char>,
    pub snippet: Seq<char>,
    pub favicon: Option<Seq<char>>,
    pub date: Option<SimpleDate>,
}

impl View for DuckDuckGoResult {
    type V = ResultView;

    open spec fn view(&self) -> ResultView {
        ResultView {
            title: self.title@,
            link: self.link@,
            snippet: self.snippet@,
            favicon: match self.favicon {
                Some(f) => Some(f@),
                None => None,
            },
            date: self.date,
        }
    }
}

/// The views of a sequence of extracted hits.
pub open spec fn views_of(s: Seq<DuckDuckGoResult>) -> Seq<ResultView> {
    s.map_values(|x: DuckDuckGoResult| x@)
}

/// What one candidate container yields: a record when both a title and a
/// snippet element are present — with the title link and any icon source
/// scheme-normalized, and any date annotation parsed — and nothing at all
/// otherwise.
pub open spec fn entry_of(frag: Seq<char>) -> Option<ResultView> {
    let title = first_text(frag, "a.result__a"@);
    let snippet = first_text(frag, "a.result__snippet"@);
    if title is Some && snippet is Some {
        let href = match first_attr(frag, "a.result__a"@, "href"@) {
            Some(h) => h,
            None => Seq::<char>::empty(),
        };
        Some(
            ResultView {
                title: title->Some_0,
                link: spec_normalize_url(href),
                snippet: snippet->Some_0,
                favicon: match first_attr(frag, "img.result__icon__img"@, "src"@) {
                    Some(src) => Some(spec_normalize_url(src)),
                    None => None,
                },
                date: match first_text(frag, "div.result__extras__url span"@) {
                    Some(d) => spec_parse_date(d),
                    None => None,
                },
            },
        )
    } else {
        None
    }
}

/// The records that a sequence of candidate containers yields, in order,
/// with containers that yield nothing dropped.
pub open spec fn entries_of(frags: Seq<Seq<char>>) -> Seq<ResultView>
    decreases frags.len(),
{
    if frags.len() == 0 {
        Seq::<ResultView>::empty()
    } else {
        entries_of(frags.drop_last()) + (match entry_of(frags.last()) {
            Some(e) => seq![e],
            None => Seq::<ResultView>::empty(),
        })
    }
}

/// What parsing one raw HTML page returns: the records of the containers
/// matching `div.result`, in document order.
pub open spec fn spec_parse_html(html: Seq<char>) -> Seq<ResultView> {
    entries_of(selected_fragments(html, "div.result"@))
}

/// A container that yields no record leaves the records of its sibling
/// containers untouched: dropping it from the candidate sequence does not
/// change what the page yields.
pub proof fn lemma_partial_entry_tolerance(frags: Seq<Seq<char>>, i: int)
    requires
        0 <= i < frags.len(),
        entry_of(frags[i]) is None,
    ensures
        entries_of(frags.remove(i)) == entries_of(frags),
    decreases frags.len(),
{
    if i == frags.len() - 1 {
        assert(frags.remove(i) =~= frags.drop_last());
    } else {
        assert(frags.remove(i).drop_last() =~= frags.drop_last().remove(i));
        assert(frags.remove(i).last() == frags.last());
        lemma_partial_entry_tolerance(frags.drop_last(), i);
    }
}

/// Extract the result records of one raw HTML page, in document order. A
/// container missing its title or snippet element is excluded; the others
/// are still emitted. Never fails.
pub fn parse_html(html: &str) -> (r: Vec<DuckDuckGoResult>)
    ensures
        views_of(r@) == spec_parse_html(html@),
{
    let frags = select_fragments(html, "div.result");
    let mut out: Vec<DuckDuckGoResult> = Vec::new();
    let mut i: usize = 0;
    while i < frags.len()
        invariant
            i <= frags.len(),
            frags.deep_view() == selected_fragments(html@, "div.result"@),
            views_of(out@) == entries_of(frags.deep_view().take(i as int)),
        decreases frags.len() - i,
    {
        let ghost prefix = frags.deep_view().take(i as int);
        let ghost old_out = out@;
        let frag: &String = &frags[i];
        let title = select_first_text(frag.as_str(), "a.result__a");
        let snippet = select_first_text(frag.as_str(), "a.result__snippet");
        if let (Some(title_text), Some(snippet_text)) = (title, snippet) {
            let href = match select_first_attr(frag.as_str(), "a.result__a", "href") {
                Some(h) => h,
                None => String::new(),
            };
            let link = normalize_url(href.as_str());
            let favicon = match select_first_attr(
                frag.as_str(),
                "img.result__icon__img",
                "src",
            ) {
                Some(src) => Some(normalize_url(src.as_str())),
                None => None,
            };
            let date = match select_first_text(frag.as_str(), "div.result__extras__url span") {
                Some(d) => parse_date(d.as_str()),
                None => None,
            };
            out.push(DuckDuckGoResult { title: title_text, link, snippet: snippet_text, favicon, date });
            proof {
                let e = entry_of(frags.deep_view()[i as int])->Some_0;
                assert(views_of(out@) =~= views_of(old_out).push(e));
            }
        }
        proof {
            let next = frags.deep_view().take(i as int + 1);
            assert(next.drop_last() =~= prefix);
            assert(next.last() == frags.deep_view()[i as int]);
            assert(views_of(out@) =~= entries_of(next));
        }
        i = i + 1;
    }
    proof {
        assert(frags.deep_view().take(frags.deep_view().len() as int) =~= frags.deep_view());
    }
    out
}

} // verus!
