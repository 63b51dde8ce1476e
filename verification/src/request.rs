//! Shaping of one upstream page request. A page is requested by a
//! form-encoded POST to the fixed search endpoint with fields `q` (the query
//! text), `kl` (the fixed literal `us-en`), and `s` (the pagination offset
//! in decimal), under a fixed desktop-browser `User-Agent` header — the
//! upstream serves HTML results only to a browser-like identity. The
//! transport itself lives outside this crate; it is handed these values.

use vstd::prelude::*;
use vstd::string::StringExecFns;

verus! {

/// The digit character for one decimal digit value.
pub open spec fn digit_char(d: int) -> char {
    if d == 0 {
        '0'
    } else if d == 1 {
        '1'
    } else if d == 2 {
        '2'
    } else if d == 3 {
        '3'
    } else if d == 4 {
        '4'
    } else if d == 5 {
        '5'
    } else if d == 6 {
        '6'
    } else if d == 7 {
        '7'
    } else if d == 8 {
        '8'
    } else {
        '9'
    }
}

/// The decimal digit string of a number, most significant digit first and
/// without leading zeros (a single `0` for zero).
pub open spec fn dec_digits(n: nat) -> Seq<char>
    decreases n,
{
    if n < 10 {
        seq![digit_char(n as int)]
    } else {
        dec_digits(n / 10) + seq![digit_char((n % 10) as int)]
    }
}

/// The string holding one digit character.
fn digit_str(d: u64) -> (r: &'static str)
    requires
        d < 10,
    ensures
        r@ =~= seq![digit_char(d as int)],
{
    let r: &'static str = if d == 0 {
        "0"
    } else if d == 1 {
        "1"
    } else if d == 2 {
        "2"
    } else if d == 3 {
        "3"
    } else if d == 4 {
        "4"
    } else if d == 5 {
        "5"
    } else if d == 6 {
        "6"
    } else if d == 7 {
        "7"
    } else if d == 8 {
        "8"
    } else {
        "9"
    };
    proof {
        reveal_strlit("0");
        reveal_strlit("1");
        reveal_strlit("2");
        reveal_strlit("3");
        reveal_strlit("4");
        reveal_strlit("5");
        reveal_strlit("6");
        reveal_strlit("7");
        reveal_strlit("8");
        reveal_strlit("9");
    }
    r
}

/// Render a number as its decimal digit string.
pub fn to_decimal(n: u64) -> (r: String)
    ensures
        r@ == dec_digits(n as nat),
    decreases n,
{
    if n < 10 {
        let r = String::from_str(digit_str(n));
        proof {
            assert(r@ =~= dec_digits(n as nat));
        }
        r
    } else {
        let prefix = to_decimal(n / 10);
        let r = prefix.concat(digit_str(n % 10));
        proof {
            assert(r@ =~= dec_digits(n as nat));
        }
        r
    }
}

/// The fixed search endpoint a page request is posted to.
pub fn endpoint_url() -> (r: String)
    ensures
        r@ == "https://html.duckduckgo.com/html/"@,
{
    String::from_str("https://html.duckduckgo.com/html/")
}

/// The fixed desktop-browser identity sent as the `User-Agent` header.
pub fn user_agent() -> (r: String)
    ensures
        r@ == "Mozilla/5.0 (Windows NT 10.0; Win64; x64)"@,
{
    String::from_str("Mozilla/5.0 (Windows NT 10.0; Win64; x64)")
}

/// The form fields of one page request: `q` carries the query text, `kl`
/// the fixed region literal, and `s` the pagination offset in decimal.
pub fn form_fields(query: &str, offset: usize) -> (r: Vec<(String, String)>)
    ensures
        r@.len() == 3,
        r@[0].0@ == "q"@ && r@[0].1@ == query@,
        r@[1].0@ == "kl"@ && r@[1].1@ == "us-en"@,
        r@[2].0@ == "s"@ && r@[2].1@ == dec_digits(offset as nat),
{
    let mut r: Vec<(String, String)> = Vec::new();
    r.push((String::from_str("q"), query.to_owned()));
    r.push((String::from_str("kl"), String::from_str("us-en")));
    r.push((String::from_str("s"), to_decimal(offset as u64)));
    r
}

} // verus!
