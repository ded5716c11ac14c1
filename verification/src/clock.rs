//! Instants and days as plain integers, and the calls into `chrono` that
//! read the clock or render instants.
//!
//! An instant is the number of nanoseconds since the Unix epoch (UTC); a
//! day is the number of days since 0001-01-01 of the proleptic Gregorian
//! calendar, counting that day as 1 (chrono's `num_days_from_ce`).

use chrono::Datelike;
use vstd::prelude::*;

verus! {

pub const NANOS_PER_SEC: i64 = 1_000_000_000;

/// Integer division of `a` by `b > 0` that rounds toward zero.
pub open spec fn div_toward_zero(a: int, b: int) -> int {
    if a >= 0 {
        a / b
    } else {
        -((-a) / b)
    }
}

/// The whole seconds from `earlier` to `later` (both in nanoseconds),
/// rounded toward zero, as chrono's `(later - earlier).num_seconds()`.
pub open spec fn seconds_between(later: int, earlier: int) -> int {
    div_toward_zero(later - earlier, NANOS_PER_SEC as int)
}

/// The RFC 3339 text (`DateTime::to_rfc3339`) of the UTC instant `nanos`
/// nanoseconds after the Unix epoch.
pub uninterp spec fn rfc3339_text(nanos: i64) -> Seq<char>;

/// Reads the system clock through chrono, `DateTime::<Utc>::from(
/// SystemTime::now())`, as nanoseconds since the epoch. chrono builds the
/// instant from the clock's offset to the epoch on either side of it, so a
/// clock set before 1970 reads as a negative instant. The result is `None`
/// only for instants outside the years 1677 to 2262. Nothing is stated of
/// the value: it is the time. chrono's conversion unwraps the instant it
/// builds, which fails only for a clock set beyond the years it can hold
/// (some 262,000 years either side of the epoch); no argument can rule that
/// machine state out.
#[verifier::external_body]
fn utc_now_nanos() -> Option<i64> {
    chrono::DateTime::<chrono::Utc>::from(std::time::SystemTime::now()).timestamp_nanos_opt()
}

/// The current instant. An instant past the year 2262, which nanoseconds
/// since the epoch cannot hold, reads as the largest representable one.
pub fn now() -> i64 {
    match utc_now_nanos() {
        Some(n) => n,
        None => i64::MAX,
    }
}

/// Calls chrono: `(DateTime::from_timestamp_nanos(later) -
/// DateTime::from_timestamp_nanos(earlier)).num_seconds()`, the whole
/// seconds between two instants, rounded toward zero.
#[verifier::external_body]
pub(crate) fn whole_seconds_between(later: i64, earlier: i64) -> (secs: i64)
    ensures
        secs == seconds_between(later as int, earlier as int),
{
    (chrono::DateTime::from_timestamp_nanos(later) - chrono::DateTime::from_timestamp_nanos(
        earlier,
    )).num_seconds()
}

/// Calls chrono: `DateTime::from_timestamp_nanos(nanos).to_rfc3339()`.
#[verifier::external_body]
pub(crate) fn rfc3339(nanos: i64) -> (text: String)
    ensures
        text@ == rfc3339_text(nanos),
{
    chrono::DateTime::from_timestamp_nanos(nanos).to_rfc3339()
}

/// The RFC 3339 text of the instant `nanos` nanoseconds after the epoch.
pub fn instant_text(nanos: i64) -> (text: String)
    ensures
        text@ == rfc3339_text(nanos),
{
    rfc3339(nanos)
}

/// The instant that an RFC 3339 text names, in nanoseconds since the epoch
/// (`DateTime::parse_from_rfc3339` and `timestamp_nanos_opt`): `None` for a
/// text that is not RFC 3339, or for an instant outside the years 1677 to
/// 2262.
pub uninterp spec fn rfc3339_instant(text: Seq<char>) -> Option<i64>;

/// Calls chrono: `DateTime::parse_from_rfc3339(text)` and, for a parsed
/// instant, `timestamp_nanos_opt()`.
#[verifier::external_body]
fn parse_rfc3339_nanos(text: &str) -> (r: Option<i64>)
    ensures
        r == rfc3339_instant(text@),
{
    match chrono::DateTime::parse_from_rfc3339(text) {
        Ok(d) => d.timestamp_nanos_opt(),
        Err(_) => None,
    }
}

/// The instant that an RFC 3339 text names, in nanoseconds since the
/// epoch, if it names one that they can hold.
pub fn parse_instant(text: &str) -> (r: Option<i64>)
    ensures
        r == rfc3339_instant(text@),
{
    parse_rfc3339_nanos(text)
}

/// The RFC 3339 text of the current instant.
pub fn now_rfc3339() -> (text: String)
    ensures
        exists|t: i64| text@ == #[trigger] rfc3339_text(t),
{
    rfc3339(now())
}

/// Calls chrono: the local calendar day of the instant `nanos`,
/// `DateTime::from_timestamp_nanos(nanos).with_timezone(&Local).date_naive()`,
/// as days from the common era. Nothing is stated of the value: it depends
/// on the machine's time zone. chrono unwraps the time zone's offset for
/// the instant, so the call fails when the machine's time-zone data cannot
/// be used; no argument can rule that machine state out.
#[verifier::external_body]
pub(crate) fn local_day_of(nanos: i64) -> i32 {
    chrono::DateTime::from_timestamp_nanos(nanos).with_timezone(&chrono::Local).date_naive().num_days_from_ce()
}

/// The calendar text (`YYYY-MM-DD`, `NaiveDate`'s `Display`) of a day
/// counted from the common era, for the days chrono can represent.
pub uninterp spec fn date_text(day: i32) -> Option<Seq<char>>;

/// Calls chrono: `NaiveDate::from_num_days_from_ce_opt(day)` and, for a
/// day it represents, the date's text.
#[verifier::external_body]
pub(crate) fn day_date_text(day: i32) -> (r: Option<String>)
    ensures
        match r {
            Some(t) => date_text(day) == Some(t@),
            None => date_text(day) is None,
        },
{
    match chrono::NaiveDate::from_num_days_from_ce_opt(day) {
        Some(d) => Some(d.to_string()),
        None => None,
    }
}

} // verus!
