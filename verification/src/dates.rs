//! Calendar dates attached to search results. A result's trailing date
//! annotation is parsed against an ordered list of formats —
//! abbreviated-month/day/year, day/abbreviated-month/year, ISO
//! year-month-day — and the first format that parses wins; text that matches
//! none of them simply yields no date. The parsing itself is chrono's; this
//! module holds the format policy and the plain date value the rest of the
//! crate works with.

use chrono::Datelike;
use vstd::prelude::*;

verus! {

/// A calendar date as plain values: the year, and a one-based month and day.
#[derive(Clone, Copy, Debug, PartialEq, Eq, Structural)]
pub struct SimpleDate {
    pub year: i32,
    pub month: u32,
    pub day: u32,
}

impl SimpleDate {
    /// The month and day lie in the ranges a calendar date allows.
    pub open spec fn wf(self) -> bool {
        1 <= self.month <= 12 && 1 <= self.day <= 31
    }
}

/// What chrono's `NaiveDate::parse_from_str` returns for a given text and
/// format: either no date, or a (year, month, day) triple. The result is a
/// function of the two strings alone.
pub uninterp spec fn chrono_parsed(s: Seq<char>, fmt: Seq<char>) -> Option<(int, int, int)>;

/// Relies on `chrono::NaiveDate::parse_from_str` and the `Datelike`
/// accessors `year`, `month`, `day`: parsing is a function of the text and
/// the format alone; a parsed `NaiveDate` is a valid calendar date, so its
/// month lies in 1..=12 and its day in 1..=31; a malformed format string
/// makes the parse fail rather than panic.
#[verifier::external_body]
fn parse_with_format(s: &str, fmt: &str) -> (r: Option<(i32, u32, u32)>)
    ensures
        r matches Some(t) ==> chrono_parsed(s@, fmt@) == Some(
            (t.0 as int, t.1 as int, t.2 as int),
        ) && 1 <= t.1 <= 12 && 1 <= t.2 <= 31,
        r is None ==> chrono_parsed(s@, fmt@) is None,
{
    match chrono::NaiveDate::parse_from_str(s, fmt) {
        Ok(d) => Some((d.year(), d.month(), d.day())),
        Err(_) => None,
    }
}

/// The date a given triple stands for.
pub open spec fn date_of_triple(t: (int, int, int)) -> SimpleDate {
    SimpleDate { year: t.0 as i32, month: t.1 as u32, day: t.2 as u32 }
}

/// What date-annotation parsing returns: the date from the first of the
/// three recognized formats that chrono parses the text under, or nothing
/// when none of them matches.
pub open spec fn spec_parse_date(s: Seq<char>) -> Option<SimpleDate> {
    if chrono_parsed(s, "%b %d, %Y"@) is Some {
        Some(date_of_triple(chrono_parsed(s, "%b %d, %Y"@)->Some_0))
    } else if chrono_parsed(s, "%d %b %Y"@) is Some {
        Some(date_of_triple(chrono_parsed(s, "%d %b %Y"@)->Some_0))
    } else if chrono_parsed(s, "%Y-%m-%d"@) is Some {
        Some(date_of_triple(chrono_parsed(s, "%Y-%m-%d"@)->Some_0))
    } else {
        None
    }
}

/// Parse a date annotation against the recognized formats, in order; the
/// first format that parses supplies the date, and unparsable text yields
/// `None` rather than an error.
pub fn parse_date(s: &str) -> (r: Option<SimpleDate>)
    ensures
        r == spec_parse_date(s@),
        r matches Some(d) ==> d.wf(),
{
    if let Some(t) = parse_with_format(s, "%b %d, %Y") {
        return Some(SimpleDate { year: t.0, month: t.1, day: t.2 });
    }
    if let Some(t) = parse_with_format(s, "%d %b %Y") {
        return Some(SimpleDate { year: t.0, month: t.1, day: t.2 });
    }
    if let Some(t) = parse_with_format(s, "%Y-%m-%d") {
        return Some(SimpleDate { year: t.0, month: t.1, day: t.2 });
    }
    None
}

} // verus!
