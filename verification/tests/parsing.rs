use ddg_search::dates::SimpleDate;
use ddg_search::parser::parse_html;

fn result_div(title: &str, href: &str, snippet: &str) -> String {
    format!(
        "<div class=\"result\">\
           <a class=\"result__a\" href=\"{href}\">{title}</a>\
           <a class=\"result__snippet\">{snippet}</a>\
         </div>"
    )
}

#[test]
fn full_entry_is_extracted() {
    let html = format!(
        "<html><body><div class=\"result\">\
           <img class=\"result__icon__img\" src=\"//icons.example/i.ico\">\
           <a class=\"result__a\" href=\"//example.com/x\">Rust <b>lang</b></a>\
           <a class=\"result__snippet\">A systems <b>language</b>.</a>\
           <div class=\"result__extras__url\"><span>Jan 02, 2024</span></div>\
         </div></body></html>"
    );
    let results = parse_html(&html);
    assert_eq!(results.len(), 1);
    let r = &results[0];
    assert_eq!(r.title, "Rust lang");
    assert_eq!(r.link, "https://example.com/x");
    assert_eq!(r.snippet, "A systems language.");
    assert_eq!(r.favicon.as_deref(), Some("https://icons.example/i.ico"));
    assert_eq!(r.date, Some(SimpleDate { year: 2024, month: 1, day: 2 }));
}

#[test]
fn container_missing_snippet_is_excluded_siblings_kept() {
    let broken = "<div class=\"result\">\
                    <a class=\"result__a\" href=\"https://a.example\">No snippet here</a>\
                  </div>"
        .to_string();
    let ok = result_div("Intact", "https://b.example", "Still emitted");
    let html = format!("<html><body>{broken}{ok}</body></html>");
    let results = parse_html(&html);
    assert_eq!(results.len(), 1);
    assert_eq!(results[0].title, "Intact");
    assert_eq!(results[0].link, "https://b.example");
}

#[test]
fn container_missing_title_is_excluded() {
    let broken = "<div class=\"result\">\
                    <a class=\"result__snippet\">Snippet without title</a>\
                  </div>";
    let html = format!("<html><body>{broken}</body></html>");
    assert_eq!(parse_html(&html).len(), 0);
}

#[test]
fn document_order_is_kept() {
    let html = format!(
        "<html><body>{}{}{}</body></html>",
        result_div("First", "https://1.example", "s1"),
        result_div("Second", "https://2.example", "s2"),
        result_div("Third", "https://3.example", "s3"),
    );
    let results = parse_html(&html);
    let titles: Vec<&str> = results.iter().map(|r| r.title.as_str()).collect();
    assert_eq!(titles, vec!["First", "Second", "Third"]);
}

#[test]
fn missing_icon_leaves_favicon_absent() {
    let html = format!(
        "<html><body>{}</body></html>",
        result_div("T", "https://t.example", "S")
    );
    let results = parse_html(&html);
    assert_eq!(results.len(), 1);
    assert_eq!(results[0].favicon, None);
}

#[test]
fn unparsable_date_annotation_is_absent_not_an_error() {
    let html = "<html><body><div class=\"result\">\
                  <a class=\"result__a\" href=\"https://t.example\">T</a>\
                  <a class=\"result__snippet\">S</a>\
                  <div class=\"result__extras__url\"><span>N/A</span></div>\
                </div></body></html>";
    let results = parse_html(html);
    assert_eq!(results.len(), 1);
    assert_eq!(results[0].date, None);
}

#[test]
fn missing_href_yields_bare_scheme_link() {
    let html = "<html><body><div class=\"result\">\
                  <a class=\"result__a\">T</a>\
                  <a class=\"result__snippet\">S</a>\
                </div></body></html>";
    let results = parse_html(html);
    assert_eq!(results.len(), 1);
    assert_eq!(results[0].link, "https:");
}

#[test]
fn empty_page_yields_no_results() {
    assert_eq!(parse_html("<html><body></body></html>").len(), 0);
    assert_eq!(parse_html("").len(), 0);
}
