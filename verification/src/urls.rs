//! Normalization of extracted URLs: a scheme-relative value (one that does
//! not already begin with `http`) is made absolute by prefixing `https:`.

use vstd::prelude::*;
use vstd::string::StrSliceExecFns;
use vstd::string::StringExecFns;

verus! {

/// True when the character sequence begins with `h`, `t`, `t`, `p` — the
/// test the extraction rules use to recognize a URL that already carries an
/// explicit scheme (it accepts both `http:` and `https:` prefixes).
pub open spec fn has_http_prefix(s: Seq<char>) -> bool {
    s.len() >= 4 && s[0] == 'h' && s[1] == 't' && s[2] == 't' && s[3] == 'p'
}

/// What normalization returns: the input unchanged when it already starts
/// with `http`, otherwise the input with `https:` prefixed.
pub open spec fn spec_normalize_url(s: Seq<char>) -> Seq<char> {
    if has_http_prefix(s) {
        s
    } else {
        "https:"@ + s
    }
}

/// Does this string begin with `http`?
pub fn starts_with_http(s: &str) -> (r: bool)
    ensures
        r == has_http_prefix(s@),
{
    let n = s.unicode_len();
    if n < 4 {
        return false;
    }
    s.get_char(0) == 'h' && s.get_char(1) == 't' && s.get_char(2) == 't' && s.get_char(3) == 'p'
}

/// Make an extracted URL absolute: prefix `https:` unless the value already
/// begins with `http`.
pub fn normalize_url(s: &str) -> (r: String)
    ensures
        r@ == spec_normalize_url(s@),
{
    if starts_with_http(s) {
        s.to_owned()
    } else {
        String::from_str("https:").concat(s)
    }
}

} // verus!
