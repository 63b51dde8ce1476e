//! The pagination algorithm, as a step-driven session. A session starts at
//! offset 0 with a requested page count; a caller repeatedly fetches the raw
//! HTML for (query, offset) — through the cache and, on a miss, the network
//! — and hands each page in. The session parses it, aggregates the records,
//! and advances the offset by the number of records actually extracted (not
//! by a fixed page size), until either the requested number of pages has
//! been accepted or a page yields no records — the end-of-results heuristic.
//! A transport failure is the caller's signal to abandon the session whole,
//! discarding what it had aggregated.

use vstd::prelude::*;
use vstd::string::StringExecFns;

use crate::parser::DuckDuckGoResult;
use crate::parser::ResultView;
use crate::parser::parse_html;
use crate::parser::spec_parse_html;
use crate::parser::views_of;

verus! {

/// The sum of a sequence of page counts.
pub open spec fn sum_counts(s: Seq<int>) -> int
    decreases s.len(),
{
    if s.len() == 0 {
        0
    } else {
        sum_counts(s.drop_last()) + s.last()
    }
}

/// One in-progress aggregation of search results across pages.
pub struct SearchSession {
    query: String,
    remaining: usize,
    offset: usize,
    results: Vec<DuckDuckGoResult>,
    done: bool,
    page_counts: Ghost<Seq<int>>,
}

impl SearchSession {
    /// The query text the session was started with.
    pub closed spec fn query_view(self) -> Seq<char> {
        self.query@
    }

    /// How many more pages the caller asked for.
    pub closed spec fn remaining(self) -> int {
        self.remaining as int
    }

    /// The offset the next page is to be fetched at.
    pub closed spec fn offset(self) -> int {
        self.offset as int
    }

    /// The records aggregated so far, in page order.
    pub closed spec fn results(self) -> Seq<ResultView> {
        views_of(self.results@)
    }

    /// Has pagination ended — by page-count exhaustion or by the
    /// end-of-results heuristic?
    pub closed spec fn is_done(self) -> bool {
        self.done
    }

    /// The record count of each accepted page, in order.
    pub closed spec fn pages(self) -> Seq<int> {
        self.page_counts@
    }

    /// The session's bookkeeping invariant: the next offset equals both the
    /// number of records aggregated so far and the sum of the accepted
    /// pages' record counts; every accepted page yielded at least one
    /// record; and an unfinished session still has pages left to request.
    pub open spec fn wf(self) -> bool {
        self.offset() == self.results().len() && self.offset() == sum_counts(self.pages()) && (
        forall|i: int| 0 <= i < self.pages().len() ==> self.pages()[i] > 0) && (!self.is_done()
            ==> self.remaining() >= 1)
    }

    /// Start a session: offset 0, nothing aggregated, the given number of
    /// pages still to fetch (a request for zero pages is complete at once).
    pub fn begin(query: &str, pages: usize) -> (r: SearchSession)
        ensures
            r.wf(),
            r.query_view() == query@,
            r.offset() == 0,
            r.results() == Seq::<ResultView>::empty(),
            r.remaining() == pages,
            r.is_done() == (pages == 0),
            r.pages() == Seq::<int>::empty(),
    {
        let r = SearchSession {
            query: query.to_owned(),
            remaining: pages,
            offset: 0,
            results: Vec::new(),
            done: pages == 0,
            page_counts: Ghost(Seq::empty()),
        };
        proof {
            assert(r.results() =~= Seq::<ResultView>::empty());
        }
        r
    }

    /// Is the session still waiting for a page?
    pub fn wants_page(&self) -> (r: bool)
        ensures
            r == !self.is_done(),
    {
        !self.done
    }

    /// The offset to fetch the next page at.
    pub fn next_offset(&self) -> (r: usize)
        ensures
            r == self.offset(),
    {
        self.offset
    }

    /// The query text, for shaping the next page request.
    pub fn query_str(&self) -> (r: &str)
        ensures
            r@ == self.query_view(),
    {
        self.query.as_str()
    }

    /// Accept the raw HTML of the page fetched at the current offset. An
    /// empty parse ends pagination on the spot — even with requested pages
    /// left — and aggregates nothing; otherwise the page's records are
    /// appended in order, the offset advances by exactly the number of
    /// records extracted from this page, and the session ends when the
    /// requested page count is reached.
    pub fn accept_page(&mut self, html: &str)
        requires
            old(self).wf(),
            !old(self).is_done(),
        ensures
            final(self).wf(),
            final(self).query_view() == old(self).query_view(),
            ({
                let page = spec_parse_html(html@);
                if page.len() == 0 {
                    final(self).is_done()
                    && final(self).results() == old(self).results()
                    && final(self).offset() == old(self).offset()
                    && final(self).pages() == old(self).pages()
                    && final(self).remaining() == old(self).remaining()
                } else {
                    final(self).results() == old(self).results() + page
                    && final(self).offset() == old(self).offset() + page.len()
                    && final(self).remaining() == old(self).remaining() - 1
                    && final(self).pages() == old(self).pages().push(page.len() as int)
                    && (final(self).is_done() <==> old(self).remaining() == 1)
                }
            }),
    {
        let mut page = parse_html(html);
        if page.len() == 0 {
            proof {
                assert(spec_parse_html(html@) =~= Seq::<ResultView>::empty());
            }
            self.done = true;
        } else {
            let ghost old_results = self.results@;
            let ghost page_views = views_of(page@);
            self.page_counts = Ghost(self.page_counts@.push(page_views.len() as int));
            self.results.append(&mut page);
            self.offset = self.results.len();
            self.remaining = self.remaining - 1;
            if self.remaining == 0 {
                self.done = true;
            }
            proof {
                assert(views_of(self.results@) =~= views_of(old_results) + page_views);
                assert(self.page_counts@.drop_last() =~= old(self).pages());
            }
        }
    }

    /// Hand the aggregated records over, ending the session.
    pub fn into_results(self) -> (r: Vec<DuckDuckGoResult>)
        ensures
            views_of(r@) == self.results(),
    {
        self.results
    }
}

/// For every well-formed session, the offset the next page would be fetched
/// at equals the sum of the parsed-record counts of the pages accepted so
/// far — pagination advances by extracted records, never by a fixed page
/// size.
pub proof fn lemma_offset_is_sum_of_page_counts(s: SearchSession)
    requires
        s.wf(),
    ensures
        s.offset() == sum_counts(s.pages()),
{
}

} // verus!
