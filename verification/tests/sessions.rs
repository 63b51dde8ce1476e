use ddg_search::session::SearchSession;

fn page_with(n: usize) -> String {
    let mut body = String::new();
    for i in 0..n {
        body.push_str(&format!(
            "<div class=\"result\">\
               <a class=\"result__a\" href=\"https://example.com/{i}\">Hit {i}</a>\
               <a class=\"result__snippet\">Snippet {i}</a>\
             </div>"
        ));
    }
    format!("<html><body>{body}</body></html>")
}

#[test]
fn end_to_end_two_pages_then_empty() {
    let mut s = SearchSession::begin("rust lang", 3);
    let mut fetches = 0;

    assert!(s.wants_page());
    assert_eq!(s.next_offset(), 0);
    assert_eq!(s.query_str(), "rust lang");
    fetches += 1;
    s.accept_page(&page_with(25));

    assert!(s.wants_page());
    assert_eq!(s.next_offset(), 25);
    fetches += 1;
    s.accept_page("<html><body></body></html>");

    assert!(!s.wants_page());
    assert_eq!(fetches, 2);
    let results = s.into_results();
    assert_eq!(results.len(), 25);
    assert_eq!(results[0].title, "Hit 0");
    assert_eq!(results[24].title, "Hit 24");
}

#[test]
fn empty_first_page_halts_before_requested_count() {
    let mut s = SearchSession::begin("anything", 5);
    assert!(s.wants_page());
    s.accept_page("<html></html>");
    assert!(!s.wants_page());
    assert_eq!(s.next_offset(), 0);
    assert_eq!(s.into_results().len(), 0);
}

#[test]
fn offset_equals_sum_of_extracted_counts_not_page_size() {
    let mut s = SearchSession::begin("q", 3);
    let malformed = "<div class=\"result\">\
                       <a class=\"result__a\" href=\"https://x\">No snippet</a>\
                     </div>";
    let first = format!(
        "<html><body>{}{}</body></html>",
        page_with(3).replace("<html><body>", "").replace("</body></html>", ""),
        malformed
    );
    s.accept_page(&first);
    assert_eq!(s.next_offset(), 3);

    s.accept_page(&page_with(2));
    assert_eq!(s.next_offset(), 5);
}

#[test]
fn requested_page_count_exhausts_the_session() {
    let mut s = SearchSession::begin("q", 1);
    s.accept_page(&page_with(4));
    assert!(!s.wants_page());
    assert_eq!(s.into_results().len(), 4);
}

#[test]
fn zero_requested_pages_is_complete_at_once() {
    let s = SearchSession::begin("q", 0);
    assert!(!s.wants_page());
    assert_eq!(s.into_results().len(), 0);
}

#[test]
fn aggregation_keeps_page_and_document_order() {
    let mut s = SearchSession::begin("q", 2);
    s.accept_page(&page_with(2));
    s.accept_page(&page_with(1));
    let results = s.into_results();
    let titles: Vec<&str> = results.iter().map(|r| r.title.as_str()).collect();
    assert_eq!(titles, vec!["Hit 0", "Hit 1", "Hit 0"]);
}
