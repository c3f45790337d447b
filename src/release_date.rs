//! Freshness policy: a time-to-live chosen from a release's age, and the
//! freshness test against it.
use vstd::prelude::*;
use chrono::Datelike;
use crate::text::{concat, trim, trimmed};

verus! {

/// What `NaiveDate::parse_from_str(s, fmt)` yields, as a day number
/// (`num_days_from_ce`), or `None` when it fails.
pub uninterp spec fn parsed_day_of(s: Seq<char>, fmt: Seq<char>) -> Option<i32>;

/// Relies on chrono's `NaiveDate::parse_from_str`; the date is handed back as
/// its day number from `Datelike::num_days_from_ce`.
#[verifier::external_body]
fn parse_day_number(s: &str, fmt: &str) -> (r: Option<i32>)
    ensures
        r == parsed_day_of(s@, fmt@),
{
    match chrono::NaiveDate::parse_from_str(s, fmt) {
        Ok(date) => Some(date.num_days_from_ce()),
        Err(_) => None,
    }
}

/// Days before January 1 of `year` in the proleptic Gregorian calendar,
/// counted from January 1 of year 1.
pub open spec fn days_before_year(year: int) -> int {
    365 * (year - 1) + (year - 1) / 4 - (year - 1) / 100 + (year - 1) / 400
}

/// Relies on chrono's `NaiveDate::from_ymd_opt(year, 1, 1)`, with the date's
/// `num_days_from_ce` (January 1 of year 1 is day 1).
#[verifier::external_body]
fn new_year_day_number(year: i32) -> (r: Option<i32>)
    ensures
        1 <= year <= 9999 ==> r == Some((days_before_year(year as int) + 1) as i32),
{
    match chrono::NaiveDate::from_ymd_opt(year, 1, 1) {
        Some(date) => Some(date.num_days_from_ce()),
        None => None,
    }
}

/// Day number of 1970-01-01.
pub const EPOCH_DAY: i64 = 719163;

/// Seconds since the Unix epoch at midnight UTC opening day number `day`.
pub open spec fn midnight_of(day: int) -> int {
    (day - 719163) * 86400
}

fn midnight_timestamp(day: i32) -> (r: i64)
    ensures
        r == midnight_of(day as int),
{
    (day as i64 - EPOCH_DAY) * DAY_SECONDS
}

pub open spec fn is_digit(c: char) -> bool {
    '0' <= c && c <= '9'
}

pub open spec fn all_digits(s: Seq<char>) -> bool {
    s.len() > 0 && forall|i: int| 0 <= i < s.len() ==> is_digit(#[trigger] s[i])
}

/// Value of a run of decimal digits.
pub open spec fn digits_value(s: Seq<char>) -> int
    decreases s.len(),
{
    if s.len() == 0 {
        0
    } else {
        digits_value(s.drop_last()) * 10 + ((s.last() as u32) as int - 48)
    }
}

/// Value of a decimal integer written as an optional sign and digits.
pub open spec fn integer_literal(s: Seq<char>) -> Option<int> {
    if s.len() > 0 && (s[0] == '+' || s[0] == '-') {
        if all_digits(s.drop_first()) {
            Some(
                if s[0] == '-' {
                    -digits_value(s.drop_first())
                } else {
                    digits_value(s.drop_first())
                },
            )
        } else {
            None
        }
    } else if all_digits(s) {
        Some(digits_value(s))
    } else {
        None
    }
}

/// Relies on `str::parse::<i32>`: an optional `+` or `-` followed by decimal
/// digits and nothing else, within the range of `i32`.
#[verifier::external_body]
pub(crate) fn parse_i32(s: &str) -> (r: Option<i32>)
    ensures
        match integer_literal(s@) {
            Some(v) => if i32::MIN <= v <= i32::MAX {
                r == Some(v as i32)
            } else {
                r is None
            },
            None => r is None,
        },
{
    s.parse::<i32>().ok()
}

/// Day number of a release date written as "24 December 2025",
/// "24 Dec 2025", "December 2025", "Dec 2025" (the 1st) or "2025"
/// (January 1, years 1901 to 2099); `None` when it is none of these.
pub open spec fn release_day(s: Seq<char>) -> Option<int> {
    if s.len() == 0 {
        None
    } else {
        let t = trimmed(s);
        let dated = "1 "@ + t;
        if parsed_day_of(t, "%d %B %Y"@) is Some {
            Some(parsed_day_of(t, "%d %B %Y"@)->0 as int)
        } else if parsed_day_of(t, "%d %b %Y"@) is Some {
            Some(parsed_day_of(t, "%d %b %Y"@)->0 as int)
        } else if parsed_day_of(dated, "%d %B %Y"@) is Some {
            Some(parsed_day_of(dated, "%d %B %Y"@)->0 as int)
        } else if parsed_day_of(dated, "%d %b %Y"@) is Some {
            Some(parsed_day_of(dated, "%d %b %Y"@)->0 as int)
        } else {
            match integer_literal(t) {
                Some(y) => if 1900 < y < 2100 {
                    Some(days_before_year(y) + 1)
                } else {
                    None
                },
                None => None,
            }
        }
    }
}

/// Release instant (midnight UTC, seconds since the Unix epoch) of a release
/// date, `None` when it cannot be read.
pub open spec fn release_timestamp(s: Seq<char>) -> Option<i64> {
    match release_day(s) {
        Some(d) => Some(midnight_of(d) as i64),
        None => None,
    }
}

/// Reads a free-text release date into its instant.
pub fn parse_release_date_to_timestamp(releasedate: &str) -> (r: Option<i64>)
    ensures
        r == release_timestamp(releasedate@),
{
    if releasedate.is_empty() {
        return None;
    }
    let t = trim(releasedate);
    if let Some(d) = parse_day_number(t.as_str(), "%d %B %Y") {
        return Some(midnight_timestamp(d));
    }
    if let Some(d) = parse_day_number(t.as_str(), "%d %b %Y") {
        return Some(midnight_timestamp(d));
    }
    let dated = concat("1 ", t.as_str());
    if let Some(d) = parse_day_number(dated.as_str(), "%d %B %Y") {
        return Some(midnight_timestamp(d));
    }
    if let Some(d) = parse_day_number(dated.as_str(), "%d %b %Y") {
        return Some(midnight_timestamp(d));
    }
    if let Some(year) = parse_i32(t.as_str()) {
        if year > 1900 && year < 2100 {
            if let Some(d) = new_year_day_number(year) {
                return Some(midnight_timestamp(d));
            }
        }
    }
    None
}

/// Seconds in one day.
pub const DAY_SECONDS: i64 = 86400;

/// `n` days, in seconds.
pub open spec fn days(n: int) -> int {
    n * 86400
}

/// Time-to-live, in seconds, for a record whose release is `age` seconds old
/// (`None`: the release date is unknown).
pub open spec fn ttl_for_age(age: Option<int>) -> int {
    match age {
        None => days(180),
        Some(a) => if a < days(14) {
            days(1)
        } else if a < days(30) {
            days(3)
        } else if a < days(180) {
            days(14)
        } else if a < days(365) {
            days(30)
        } else if a < days(730) {
            days(90)
        } else {
            days(180)
        },
    }
}

/// Time-to-live at `now` for a release at `release` (both in seconds).
pub open spec fn ttl_spec(now: int, release: Option<i64>) -> int {
    match release {
        None => ttl_for_age(None),
        Some(r) => ttl_for_age(Some(now - r)),
    }
}

/// A record fetched at `fetched_at` is fresh at `now` under `ttl` when less
/// than `ttl` seconds have passed; the boundary itself is stale.
pub open spec fn fresh_spec(fetched_at: int, ttl: int, now: int) -> bool {
    now - fetched_at < ttl
}

/// Computes the time-to-live of a cached record from the age of its release.
/// Ages are counted in whole days, so a release in the future counts as new.
pub fn compute_ttl_seconds(now_ts: i64, release_ts: Option<i64>) -> (ttl: i64)
    ensures
        ttl == ttl_spec(now_ts as int, release_ts),
        DAY_SECONDS <= ttl <= 180 * DAY_SECONDS,
{
    let release = match release_ts {
        Some(ts) => ts,
        None => return 180 * DAY_SECONDS,
    };
    let age_seconds: i128 = now_ts as i128 - release as i128;
    if age_seconds < 14 * 86400 {
        DAY_SECONDS
    } else if age_seconds < 30 * 86400 {
        3 * DAY_SECONDS
    } else if age_seconds < 180 * 86400 {
        14 * DAY_SECONDS
    } else if age_seconds < 365 * 86400 {
        30 * DAY_SECONDS
    } else if age_seconds < 730 * 86400 {
        90 * DAY_SECONDS
    } else {
        180 * DAY_SECONDS
    }
}

/// Whether a record fetched at `fetched_at` is still fresh at `now_ts`.
pub fn is_fresh(fetched_at: i64, ttl_seconds: i64, now_ts: i64) -> (fresh: bool)
    ensures
        fresh == fresh_spec(fetched_at as int, ttl_seconds as int, now_ts as int),
{
    (now_ts as i128 - fetched_at as i128) < ttl_seconds as i128
}

/// The freshness boundary excludes equality: a record exactly one time-to-
/// live old is stale, one an hour younger is fresh.
pub proof fn lemma_fresh_boundary(now: int)
    ensures
        !fresh_spec(now - days(1), days(1), now),
        fresh_spec(now - 23 * 3600, days(1), now),
{
}

} // verus!
