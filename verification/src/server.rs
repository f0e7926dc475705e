//! What is decided when the server starts.

use crate::routes::{routes, spec_routes, Router, RouterView};
use vstd::prelude::*;

verus! {

/// State shared by all routes. There is none so far.
#[derive(Debug, Clone)]
pub struct AppState {}

/// The route table that the server serves.
pub fn app() -> (router: Router)
    ensures
        router@ == RouterView::empty().merge(spec_routes()),
{
    Router::new().merge(routes())
}

/// A decimal digit.
pub open spec fn is_digit(c: char) -> bool {
    '0' <= c && c <= '9'
}

/// The number that a row of decimal digits stands for.
pub open spec fn digits_value(digits: Seq<char>) -> nat
    decreases digits.len(),
{
    if digits.len() == 0 {
        0
    } else {
        (digits_value(digits.drop_last()) * 10 + (digits.last() as u32 - '0' as u32)) as nat
    }
}

/// The port that a text stands for: one or more decimal digits, a `+`
/// before them or not, and nothing else, that together stay within 65535.
pub open spec fn stated_port(text: Seq<char>) -> Option<u16> {
    let digits = if text.len() > 0 && text[0] == '+' {
        text.drop_first()
    } else {
        text
    };
    if digits.len() > 0 && (forall|i: int| 0 <= i < digits.len() ==> is_digit(#[trigger] digits[i]))
        && digits_value(digits) <= u16::MAX {
        Some(digits_value(digits) as u16)
    } else {
        None
    }
}

/// `str::parse` of std for `u16`: the number that the text stands for. The
/// text must be decimal digits, a `+` before them or not; an empty text, a
/// sign alone, any other character and a number too large for the type give
/// no result.
#[verifier::external_body]
fn parse_port(text: &str) -> (port: Option<u16>)
    ensures
        port == stated_port(text@),
{
    text.parse::<u16>().ok()
}

/// The port to listen on: the one that the configured text stands for, or
/// `default` where nothing is configured or the text stands for no port.
pub fn resolve_port(configured: Option<&str>, default: u16) -> (port: u16)
    ensures
        port == match configured {
            Some(text) => match stated_port(text@) {
                Some(p) => p,
                None => default,
            },
            None => default,
        },
{
    match configured {
        Some(text) => match parse_port(text) {
            Some(port) => port,
            None => default,
        },
        None => default,
    }
}

} // verus!
