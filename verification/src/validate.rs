//! Input validation: free text, URLs, ratings and identifiers.
//!
//! Free text is checked with the `regex` crate and URLs with the `url` crate;
//! the two calls are the only unverified code in this module.

use vstd::prelude::*;
use crate::error::CrudError;

verus! {

/// Whether `c` has the Unicode property `White_Space`.
pub open spec fn is_space_char(c: char) -> bool {
    let n = c as int;
    ||| 0x09 <= n <= 0x0D
    ||| n == 0x20
    ||| n == 0x85
    ||| n == 0xA0
    ||| n == 0x1680
    ||| 0x2000 <= n <= 0x200A
    ||| n == 0x2028
    ||| n == 0x2029
    ||| n == 0x202F
    ||| n == 0x205F
    ||| n == 0x3000
}

/// Whether `c` is an ASCII letter, an ASCII digit or whitespace.
pub open spec fn is_plain_char(c: char) -> bool {
    ||| 'a' <= c <= 'z'
    ||| 'A' <= c <= 'Z'
    ||| '0' <= c <= '9'
    ||| is_space_char(c)
}

/// Whether every character of `s` is an ASCII letter, an ASCII digit or
/// whitespace. The empty text is plain.
pub open spec fn is_plain_text(s: Seq<char>) -> bool {
    forall|i: int| 0 <= i < s.len() ==> is_plain_char(#[trigger] s[i])
}

/// The pattern that free text must match from its first to its last character.
pub open spec fn plain_text_pattern() -> Seq<char> {
    "^[a-zA-Z0-9\\s]*$"@
}

/// Compiles `pattern` with `regex::Regex::new` and asks `Regex::is_match`
/// whether it matches somewhere in `haystack`; `None` when the pattern does
/// not compile.
///
/// Trusted: for the pattern `^[a-zA-Z0-9\s]*$` the answer is `Some`, and it is
/// `true` exactly when every character of the haystack is in `a-z`, `A-Z`,
/// `0-9` or has the Unicode property `White_Space`, which is what `\s` stands
/// for. Nothing is claimed of any other pattern.
#[verifier::external_body]
fn regex_is_match(pattern: &str, haystack: &str) -> (r: Option<bool>)
    ensures
        pattern@ == plain_text_pattern() ==> r == Some(is_plain_text(haystack@)),
{
    match regex::Regex::new(pattern) {
        Ok(re) => Some(re.is_match(haystack)),
        Err(_) => None,
    }
}

/// Accepts `input` when it consists of ASCII letters, ASCII digits and
/// whitespace only, and then returns it unchanged; rejects everything else,
/// punctuation included.
pub fn sanitize_input(input: &str) -> (r: Option<String>)
    ensures
        r is Some <==> is_plain_text(input@),
        r is Some ==> r.unwrap()@ == input@,
{
    match regex_is_match("^[a-zA-Z0-9\\s]*$", input) {
        Some(true) => Some(input.to_owned()),
        _ => None,
    }
}

/// What `url::Url::parse` makes of `input`: `None` when it returns an error,
/// otherwise `Some(h)` where `h` says whether the parsed URL has a host.
pub uninterp spec fn url_host_presence(input: Seq<char>) -> Option<bool>;

/// Whether `s` parses as an absolute URL that names a host.
pub open spec fn is_absolute_url(s: Seq<char>) -> bool {
    url_host_presence(s) == Some(true)
}

/// Parses `input` with `url::Url::parse` and, on success, asks
/// `Url::has_host` of the result.
///
/// Trusted: the outcome depends on the characters of `input` alone.
#[verifier::external_body]
fn parse_url_host(input: &str) -> (r: Option<bool>)
    ensures
        r == url_host_presence(input@),
{
    match url::Url::parse(input) {
        Ok(parsed) => Some(parsed.has_host()),
        Err(_) => None,
    }
}

/// Decides on a URL from the outcome of parsing it: `input` is kept,
/// unchanged, when it parsed and names a host.
pub fn accept_url(input: &str, parsed: Option<bool>) -> (r: Option<String>)
    ensures
        r is Some <==> parsed == Some(true),
        r is Some ==> r.unwrap()@ == input@,
{
    match parsed {
        Some(true) => Some(input.to_owned()),
        _ => None,
    }
}

/// Accepts `input` when it parses as an absolute URL with a scheme and a
/// host, and then returns it unchanged; rejects everything else.
pub fn sanitize_urls(input: &str) -> (r: Option<String>)
    ensures
        r is Some <==> is_absolute_url(input@),
        r is Some ==> r.unwrap()@ == input@,
{
    accept_url(input, parse_url_host(input))
}

/// Whether `n` is an acceptable rating.
pub open spec fn is_rate(n: int) -> bool {
    0 <= n <= 10
}

/// Accepts a rating in `0..=10` and fails on any other; it never rounds a
/// rating into range.
pub fn clamp_rate(n: i32) -> (r: Result<i32, CrudError>)
    ensures
        is_rate(n as int) ==> r == Ok::<i32, CrudError>(n),
        !is_rate(n as int) ==> r == Err::<i32, CrudError>(CrudError::InvalidRate),
{
    if 0 <= n && n <= 10 {
        Ok(n)
    } else {
        Err(CrudError::InvalidRate)
    }
}

/// Accepts an identifier greater than zero and fails on any other.
pub fn positive_id(n: i32) -> (r: Result<i32, CrudError>)
    ensures
        n > 0 ==> r == Ok::<i32, CrudError>(n),
        n <= 0 ==> r == Err::<i32, CrudError>(CrudError::InvalidId),
{
    if n > 0 {
        Ok(n)
    } else {
        Err(CrudError::InvalidId)
    }
}

} // verus!
