use ddg_search::urls::normalize_url;
use ddg_search::urls::starts_with_http;

#[test]
fn scheme_relative_link_gets_https_prefix() {
    assert_eq!(normalize_url("//example.com/x"), "https://example.com/x");
}

#[test]
fn http_link_is_unchanged() {
    assert_eq!(normalize_url("http://example.com/x"), "http://example.com/x");
}

#[test]
fn https_link_is_unchanged() {
    assert_eq!(normalize_url("https://example.com/x"), "https://example.com/x");
}

#[test]
fn empty_link_becomes_bare_scheme() {
    assert_eq!(normalize_url(""), "https:");
}

#[test]
fn relative_path_gets_https_prefix() {
    assert_eq!(normalize_url("/y.js?ad_domain=x"), "https:/y.js?ad_domain=x");
}

#[test]
fn short_strings_do_not_count_as_http() {
    assert!(!starts_with_http("htt"));
    assert!(!starts_with_http(""));
    assert!(starts_with_http("http"));
    assert!(starts_with_http("https://a"));
}
