//! Token claims.

use vstd::prelude::*;

verus! {

/// Seconds in a day.
pub const SECONDS_PER_DAY: i64 = 86_400;

/// Days for which a token is good.
pub const TOKEN_DAYS: u64 = 7;

/// The first day that a calendar date can stand for, counted in days from
/// the first of January 1970: the first of January of the year -262143.
pub const FIRST_DAY: i64 = -96_465_292;

/// The last day that a calendar date can stand for, counted in days from the
/// first of January 1970: the 31st of December of the year 262142.
pub const LAST_DAY: i64 = 95_026_236;

/// The day that a moment falls on, counted in days from the first of January
/// 1970. The moment is given in seconds from the start of that day.
pub open spec fn day_of(seconds: int) -> int {
    seconds / (SECONDS_PER_DAY as int)
}

/// The calendar can hold both the day of the moment and the day `days`
/// later.
pub open spec fn days_in_reach(seconds: int, days: int) -> bool {
    FIRST_DAY <= day_of(seconds) && day_of(seconds) + days <= LAST_DAY
}

/// `DateTime::from_timestamp`, `NaiveDateTime::checked_add_days` and
/// `DateTime::timestamp` of chrono, one after the other: the moment `days`
/// days after `seconds`, in seconds from 1970 as well. The date moves on
/// by that many days and the time of day stays, so the moment moves on by
/// `days` times 86400 seconds. There is no result where the calendar cannot
/// hold the date of the moment or the date it leads to.
#[verifier::external_body]
fn timestamp_after_days(seconds: i64, days: u64) -> (later: Option<i64>)
    ensures
        later is Some <==> days_in_reach(seconds as int, days as int),
        later matches Some(t) ==> t == seconds + SECONDS_PER_DAY * days,
{
    match chrono::DateTime::from_timestamp(seconds, 0) {
        Some(start) => match start.naive_utc().checked_add_days(chrono::Days::new(days)) {
            Some(end) => Some(end.and_utc().timestamp()),
            None => None,
        },
        None => None,
    }
}

/// What a token says: whom it is for, when it was issued and when it ends,
/// both in seconds from 1970.
#[derive(Debug)]
pub struct Claims {
    pub exp: i64,
    pub iat: i64,
    pub sub: String,
}

impl Claims {
    /// The claims of a token issued to `username` at the moment `iat`: it
    /// ends seven days later to the second. There are none where the
    /// calendar cannot hold the day of issue or the day of the end.
    pub fn issue(username: &str, iat: i64) -> (claims: Option<Claims>)
        ensures
            claims is Some <==> days_in_reach(iat as int, TOKEN_DAYS as int),
            claims matches Some(c) ==> c.iat == iat && c.exp == iat + 604_800 && c.sub@
                == username@,
    {
        match timestamp_after_days(iat, TOKEN_DAYS) {
            Some(exp) => Some(Claims { exp, iat, sub: String::from_str(username) }),
            None => None,
        }
    }
}

} // verus!
