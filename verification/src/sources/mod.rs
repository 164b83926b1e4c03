//! The data sources: what each one is, and what it makes of an answer.
//!
//! Every source is identified by a short id, an ISO 3166-1 alpha-2 country
//! code (`XX` for universal and `EU` for EU-wide sources), a display name and
//! the time a successful answer may be cached.  The network exchanges
//! themselves are made by the server around this library.
use chrono::Datelike;
use vstd::prelude::*;
use vstd::string::StringSliceAdditionalSpecFns;
use vstd::utf8::*;

use crate::error::{joined, SourceError};
use crate::models::CalendarDate;
use crate::text::{boundary_at, byte_prefix, decimal, decimal_string};

pub mod registry;
pub mod tier_a;
pub mod tier_b;
pub mod tier_s;
pub mod universal;

verus! {

broadcast use vstd::utf8::group_utf8_lib;

/// The HTTP client a source sends its requests with.
#[verifier::external_type_specification]
#[verifier::external_body]
pub struct ExClient(reqwest::Client);

/// An ISO 3166-1 alpha-2 style code: two ASCII capital letters (`XX` stands
/// for universal sources and `EU` for EU-wide ones).
pub open spec fn is_country_code(s: Seq<char>) -> bool {
    &&& s.len() == 2
    &&& 'A' <= s[0] && s[0] <= 'Z'
    &&& 'A' <= s[1] && s[1] <= 'Z'
}

/// Seconds in a day.
pub const DAY_SECS: u64 = 86400;

/// Seconds in a week.
pub const WEEK_SECS: u64 = 604800;

/// Seconds in thirty days.
pub const MONTH_SECS: u64 = 2592000;

/// What `NaiveDate::parse_from_str(s, "%Y-%m-%d")` gives for `s`, as year,
/// month and day.
pub uninterp spec fn iso_date(s: Seq<char>) -> Option<(i32, u32, u32)>;

/// The calendar date written as `YYYY-MM-DD` in `s`, if it is one.
pub open spec fn spec_parse_date(s: Seq<char>) -> Option<CalendarDate> {
    match iso_date(s) {
        Some((y, m, d)) => Some(CalendarDate { year: y, month: m, day: d }),
        None => None,
    }
}

/// Reads a `YYYY-MM-DD` date with chrono's `NaiveDate::parse_from_str` (format
/// `%Y-%m-%d`), then `Datelike::year`, `month` and `day`.  What chrono accepts is
/// only named (`iso_date`); the facts claimed are chrono's documented ranges of
/// a date's month (1 to 12) and day (1 to 31).
#[verifier::external_body]
fn parse_iso_date(s: &str) -> (r: Option<CalendarDate>)
    ensures
        match r {
            Some(d) => iso_date(s@) == Some((d.year, d.month, d.day)),
            None => iso_date(s@) is None,
        },
        r matches Some(d) ==> 1 <= d.month <= 12 && 1 <= d.day <= 31,
{
    match chrono::NaiveDate::parse_from_str(s, "%Y-%m-%d") {
        Ok(d) => Some(CalendarDate { year: d.year(), month: d.month(), day: d.day() }),
        Err(_) => None,
    }
}

/// Reads a `YYYY-MM-DD` date.
pub fn parse_date(s: &str) -> (r: Option<CalendarDate>)
    ensures
        r == spec_parse_date(s@),
{
    parse_iso_date(s)
}

/// The date written in the first ten bytes of `s` (`&s[..10]`, which needs
/// byte 10 to be a character boundary).
pub open spec fn prefix_date(s: Seq<char>) -> Option<CalendarDate> {
    spec_parse_date(byte_prefix(s, 10))
}

/// The date in the first ten bytes of an optional text, if the text is there.
pub open spec fn opt_prefix_date(s: Option<String>) -> Option<CalendarDate> {
    match s {
        Some(v) => prefix_date(v@),
        None => None,
    }
}

/// The value an optional reference points to.
pub open spec fn owned_opt(s: Option<&String>) -> Option<String> {
    match s {
        Some(v) => Some(*v),
        None => None,
    }
}

/// `&s[..10]` does not panic when `s` is present.
pub open spec fn opt_sliceable(s: Option<String>) -> bool {
    match s {
        Some(v) => boundary_at(v@, 10),
        None => true,
    }
}

/// Whether `&s[..10]` would succeed: byte 10 is a character boundary.
pub fn sliceable(s: &str) -> (r: bool)
    ensures
        r == boundary_at(s@, 10),
{
    proof {
        assert(s.spec_bytes() == encode_utf8(s@));
    }
    s.is_char_boundary(10)
}

/// Whether `&s[..10]` would succeed on an optional text.
pub fn opt_is_sliceable(s: Option<&String>) -> (r: bool)
    ensures
        r == opt_sliceable(owned_opt(s)),
{
    match s {
        Some(v) => sliceable(v.as_str()),
        None => true,
    }
}

/// The date in the first ten bytes of `s`.
pub fn date_in_prefix(s: &str) -> (r: Option<CalendarDate>)
    requires
        boundary_at(s@, 10),
    ensures
        r == prefix_date(s@),
{
    let (head, _tail) = s.split_at(10);
    proof {
        assert(s.spec_bytes() == encode_utf8(s@));
        assert(encode_utf8(head@) == head.spec_bytes());
        assert(decode_utf8(encode_utf8(head@)) == head@);
    }
    parse_date(head)
}

/// The date in the first ten bytes of an optional text.
pub fn opt_date_in_prefix(s: Option<&String>) -> (r: Option<CalendarDate>)
    requires
        opt_sliceable(owned_opt(s)),
    ensures
        r == opt_prefix_date(owned_opt(s)),
{
    match s {
        Some(v) => date_in_prefix(v.as_str()),
        None => None,
    }
}

/// The text `HTTP <code>` given for an unexpected status.
pub open spec fn status_text(code: u16) -> Seq<char> {
    "HTTP "@ + decimal(code as nat)
}

/// How the sources that check the status themselves treat an HTTP status:
/// 200 goes on, 404 is `NotFound`, 429 is `RateLimited`, anything else makes
/// the source unavailable.
pub open spec fn status_accepted(code: u16, r: Result<(), SourceError>) -> bool {
    if code == 200 {
        r is Ok
    } else if code == 404 {
        r == Err::<(), SourceError>(SourceError::NotFound)
    } else if code == 429 {
        r == Err::<(), SourceError>(SourceError::RateLimited)
    } else {
        r matches Err(SourceError::Unavailable(m)) && m@ == status_text(code)
    }
}

/// Checks the HTTP status of an answer.
pub fn check_status(code: u16) -> (r: Result<(), SourceError>)
    ensures
        status_accepted(code, r),
{
    if code == 200 {
        Ok(())
    } else if code == 404 {
        Err(SourceError::NotFound)
    } else if code == 429 {
        Err(SourceError::RateLimited)
    } else {
        let digits = decimal_string(code as u64);
        Err(SourceError::Unavailable(joined("HTTP ", digits.as_str())))
    }
}

/// A 2xx status.
pub open spec fn is_success(code: u16) -> bool {
    200 <= code && code <= 299
}

/// How a source that only asks for a successful status treats one: a 2xx
/// status goes on, any other makes the source unavailable with the status's
/// text (`text`, as the HTTP client writes the status).
pub fn check_success(code: u16, text: String) -> (r: Result<(), SourceError>)
    ensures
        is_success(code) ==> r is Ok,
        !is_success(code) ==> r == Err::<(), SourceError>(SourceError::Unavailable(text)),
{
    if 200 <= code && code <= 299 {
        Ok(())
    } else {
        Err(SourceError::Unavailable(text))
    }
}

} // verus!
