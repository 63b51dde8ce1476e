use ddg_search::dates::SimpleDate;
use ddg_search::dates::parse_date;

#[test]
fn abbreviated_month_day_year_parses() {
    assert_eq!(
        parse_date("Jan 02, 2024"),
        Some(SimpleDate { year: 2024, month: 1, day: 2 })
    );
}

#[test]
fn iso_year_month_day_parses() {
    assert_eq!(
        parse_date("2024-01-02"),
        Some(SimpleDate { year: 2024, month: 1, day: 2 })
    );
}

#[test]
fn day_abbreviated_month_year_parses() {
    assert_eq!(
        parse_date("02 Jan 2024"),
        Some(SimpleDate { year: 2024, month: 1, day: 2 })
    );
}

#[test]
fn unrecognized_text_yields_no_date() {
    assert_eq!(parse_date("N/A"), None);
    assert_eq!(parse_date(""), None);
    assert_eq!(parse_date("yesterday"), None);
}

#[test]
fn impossible_calendar_date_yields_no_date() {
    assert_eq!(parse_date("Feb 30, 2024"), None);
    assert_eq!(parse_date("2023-02-29"), None);
}
