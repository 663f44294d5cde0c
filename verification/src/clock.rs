//! The wall clock, read through `chrono` and rendered as RFC 3339 text.
use vstd::prelude::*;

use crate::text::is_digit;

verus! {

/// The characters at positions `lo..hi` are ASCII decimal digits.
pub open spec fn digits_between(s: Seq<char>, lo: int, hi: int) -> bool {
    forall|i: int| lo <= i < hi ==> is_digit(#[trigger] s[i])
}

/// `s` is laid out as `DateTime<Utc>::to_rfc3339` writes a time: a year
/// field of `y` characters (four digits, or a sign and at least four
/// digits for years outside 0..=9999), `-MM-DD`, `T`, `HH:MM:SS`, a
/// fraction of `f` characters (none, or a dot and 3, 6 or 9 digits) and
/// the offset `+00:00`.
pub open spec fn rfc3339_layout(s: Seq<char>, y: int, f: int) -> bool {
    &&& (y == 4 && digits_between(s, 0, 4)) || (y >= 5 && (s[0] == '+' || s[0] == '-')
        && digits_between(s, 1, y))
    &&& s.len() == y + 15 + f + 6
    &&& s[y] == '-' && digits_between(s, y + 1, y + 3)
    &&& s[y + 3] == '-' && digits_between(s, y + 4, y + 6)
    &&& s[y + 6] == 'T' && digits_between(s, y + 7, y + 9)
    &&& s[y + 9] == ':' && digits_between(s, y + 10, y + 12)
    &&& s[y + 12] == ':' && digits_between(s, y + 13, y + 15)
    &&& (f == 0 || ((f == 4 || f == 7 || f == 10) && s[y + 15] == '.' && digits_between(
        s,
        y + 16,
        y + 15 + f,
    )))
    &&& s[y + 15 + f] == '+' && s[y + 16 + f] == '0' && s[y + 17 + f] == '0'
    &&& s[y + 18 + f] == ':' && s[y + 19 + f] == '0' && s[y + 20 + f] == '0'
}

/// `s` is the RFC 3339 text of a UTC time as `chrono` renders it.
pub open spec fn is_utc_rfc3339(s: Seq<char>) -> bool {
    exists|y: int, f: int| rfc3339_layout(s, y, f)
}

/// The earliest Unix timestamp `chrono` represents (January 1 of year
/// -262143, 00:00:00 UTC).
pub open spec fn min_timestamp() -> int {
    -8_334_601_228_800
}

/// The latest whole-second Unix timestamp `chrono` represents (December
/// 31 of year 262142, 23:59:59 UTC).
pub open spec fn max_timestamp() -> int {
    8_210_266_876_799
}

/// A reading of the system clock as `chrono::Utc::now` gives it: whole
/// seconds since the Unix epoch (never before it) and nanoseconds of the
/// second (never a leap second).
pub open spec fn clock_reading(secs: int, nanos: int) -> bool {
    &&& 0 <= secs <= max_timestamp()
    &&& 0 <= nanos < 1_000_000_000
}

/// The RFC 3339 text `chrono` gives for the instant `back` seconds before
/// the instant `secs` seconds and `nanos` nanoseconds after the Unix
/// epoch (`DateTime::from_timestamp`, minus `TimeDelta::seconds`,
/// rendered by `DateTime::to_rfc3339`).
pub uninterp spec fn rfc3339_before(secs: int, nanos: int, back: int) -> Seq<char>;

/// `s` is the RFC 3339 text of the time `back` seconds before some
/// reading of the clock.
pub open spec fn is_clock_text(s: Seq<char>, back: int) -> bool {
    &&& is_utc_rfc3339(s)
    &&& exists|secs: int, nanos: int|
        clock_reading(secs, nanos) && s == #[trigger] rfc3339_before(secs, nanos, back)
}

/// Reads the system clock (`chrono::Utc::now`, taken apart by
/// `DateTime::timestamp` and `DateTime::timestamp_subsec_nanos`). Which
/// instant it is depends on the clock and is not stated; what holds of
/// every reading is that it lies in chrono's range and not before the
/// epoch (`Utc::now` panics on a clock set before 1970 and unwraps
/// `DateTime::from_timestamp`), and that its nanoseconds come from
/// `Duration::subsec_nanos`, so no leap second.
#[verifier::external_body]
fn now_instant() -> (t: (i64, u32))
    ensures
        clock_reading(t.0 as int, t.1 as int),
{
    let now = chrono::Utc::now();
    (now.timestamp(), now.timestamp_subsec_nanos())
}

/// The RFC 3339 text of the instant `back` seconds before the instant
/// `secs`/`nanos` (`DateTime::from_timestamp`, minus
/// `TimeDelta::seconds`, then `DateTime::to_rfc3339`): the named text,
/// in the layout `to_rfc3339` writes for a UTC time (`write_rfc3339`
/// with automatic sub-second digits and the `+00:00` offset). The bounds
/// keep both instants inside chrono's range, where neither the
/// conversion nor the subtraction fails.
#[verifier::external_body]
fn rfc3339_at(secs: i64, nanos: u32, back: i64) -> (s: String)
    requires
        min_timestamp() <= secs <= max_timestamp(),
        nanos < 1_000_000_000,
        min_timestamp() <= secs - back <= max_timestamp(),
    ensures
        s@ == rfc3339_before(secs as int, nanos as int, back as int),
        is_utc_rfc3339(s@),
{
    let at = chrono::DateTime::from_timestamp(secs, nanos).expect("timestamp inside chrono's range");
    (at - chrono::TimeDelta::seconds(back)).to_rfc3339()
}

/// The RFC 3339 text of the time `hours` hours before the instant
/// `secs`/`nanos`.
pub fn hours_before_rfc3339(secs: i64, nanos: u32, hours: u32) -> (s: String)
    requires
        0 <= secs <= max_timestamp(),
        nanos < 1_000_000_000,
        hours <= 2_315_167_008,
    ensures
        s@ == rfc3339_before(secs as int, nanos as int, 3600 * hours),
        is_utc_rfc3339(s@),
{
    rfc3339_at(secs, nanos, 3600 * (hours as i64))
}

/// The RFC 3339 text of the time `days` days before the instant
/// `secs`/`nanos`.
pub fn days_before_rfc3339(secs: i64, nanos: u32, days: u32) -> (s: String)
    requires
        0 <= secs <= max_timestamp(),
        nanos < 1_000_000_000,
        days <= 96_465_292,
    ensures
        s@ == rfc3339_before(secs as int, nanos as int, 86400 * days),
        is_utc_rfc3339(s@),
{
    rfc3339_at(secs, nanos, 86400 * (days as i64))
}

/// The current time as RFC 3339 text.
pub fn now_rfc3339() -> (s: String)
    ensures
        is_clock_text(s@, 0),
{
    let (secs, nanos) = now_instant();
    let s = rfc3339_at(secs, nanos, 0);
    assert(clock_reading(secs as int, nanos as int) && s@ == rfc3339_before(
        secs as int,
        nanos as int,
        0,
    ));
    s
}

/// The time `days` days before now as RFC 3339 text. Any window of up to
/// 96 465 292 days reaches no further back than chrono's earliest year
/// from any reading of the clock.
pub fn days_ago_rfc3339(days: u32) -> (s: String)
    requires
        days <= 96_465_292,
    ensures
        is_clock_text(s@, 86400 * days),
{
    let (secs, nanos) = now_instant();
    let s = days_before_rfc3339(secs, nanos, days);
    assert(clock_reading(secs as int, nanos as int) && s@ == rfc3339_before(
        secs as int,
        nanos as int,
        86400 * days,
    ));
    s
}

/// The time `hours` hours before now as RFC 3339 text. Any window of up
/// to 2 315 167 008 hours (the same span as the longest window in days)
/// reaches no further back than chrono's earliest year from any reading
/// of the clock.
pub fn hours_ago_rfc3339(hours: u32) -> (s: String)
    requires
        hours <= 2_315_167_008,
    ensures
        is_clock_text(s@, 3600 * hours),
{
    let (secs, nanos) = now_instant();
    let s = hours_before_rfc3339(secs, nanos, hours);
    assert(clock_reading(secs as int, nanos as int) && s@ == rfc3339_before(
        secs as int,
        nanos as int,
        3600 * hours,
    ));
    s
}

} // verus!
