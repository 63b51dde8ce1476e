use ddg_search::request::endpoint_url;
use ddg_search::request::form_fields;
use ddg_search::request::to_decimal;
use ddg_search::request::user_agent;

#[test]
fn form_fields_carry_query_region_and_offset() {
    let fields = form_fields("rust lang", 25);
    assert_eq!(fields.len(), 3);
    assert_eq!(fields[0].0, "q");
    assert_eq!(fields[0].1, "rust lang");
    assert_eq!(fields[1].0, "kl");
    assert_eq!(fields[1].1, "us-en");
    assert_eq!(fields[2].0, "s");
    assert_eq!(fields[2].1, "25");
}

#[test]
fn offset_zero_renders_as_single_digit() {
    let fields = form_fields("q", 0);
    assert_eq!(fields[2].1, "0");
}

#[test]
fn decimal_rendering_matches_expected_digits() {
    assert_eq!(to_decimal(0), "0");
    assert_eq!(to_decimal(7), "7");
    assert_eq!(to_decimal(10), "10");
    assert_eq!(to_decimal(10000), "10000");
    assert_eq!(to_decimal(u64::MAX), "18446744073709551615");
}

#[test]
fn endpoint_and_identity_are_fixed() {
    assert_eq!(endpoint_url(), "https://html.duckduckgo.com/html/");
    assert_eq!(user_agent(), "Mozilla/5.0 (Windows NT 10.0; Win64; x64)");
}
