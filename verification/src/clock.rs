//! Points in time, and the calendar arithmetic done by `chrono`.

use std::time::Duration;

use chrono::Datelike;
use vstd::prelude::*;

use crate::text;
use crate::text::{concat2, u64_text};

verus! {

broadcast use vstd::seq::group_seq_axioms;

/// A point in time: whole seconds since the Unix epoch, and nanoseconds.
#[derive(Debug, Clone, Copy, PartialEq, Eq, Structural)]
pub struct Timestamp {
    pub secs: i64,
    pub nanos: u32,
}

/// What `chrono::DateTime::parse_from_rfc3339` reads from a text: the point in
/// time as whole seconds since the epoch and nanoseconds, or nothing.
pub uninterp spec fn rfc3339_instant(text: Seq<char>) -> Option<Timestamp>;

/// The current time, from `chrono::Utc::now`. It is a point in time that `chrono`
/// can hold; which one depends on the clock.
#[verifier::external_body]
pub(crate) fn now() -> (r: Timestamp)
    ensures
        representable(r.secs, r.nanos),
{
    let t = chrono::Utc::now();
    Timestamp { secs: t.timestamp(), nanos: t.timestamp_subsec_nanos() }
}

/// Whether a text names a point in time as [`rfc3339_text`] writes it.
pub open spec fn names_instant(s: Seq<char>) -> bool {
    exists|t: Timestamp| representable(t.secs, t.nanos) && #[trigger] rfc3339_of(t) == Some(s)
}

/// The current time in RFC 3339. Which one depends on the clock.
pub(crate) fn now_text() -> (r: String)
    ensures
        names_instant(r@),
{
    let t: Timestamp = now();
    match rfc3339_text(t) {
        Some(s) => {
            assert(rfc3339_of(t) == Some(s@));
            s
        },
        None => {
            assert(false);
            String::new()
        },
    }
}

/// `chrono::DateTime::parse_from_rfc3339`: the point in time that the text
/// names, `None` where it is not RFC 3339.
#[verifier::external_body]
pub(crate) fn parse_rfc3339(text: &str) -> (r: Option<Timestamp>)
    ensures
        r == rfc3339_instant(text@),
{
    match chrono::DateTime::parse_from_rfc3339(text) {
        Ok(t) => Some(Timestamp { secs: t.timestamp(), nanos: t.timestamp_subsec_nanos() }),
        Err(_) => None,
    }
}

/// What `chrono::NaiveDateTime::parse_from_str` reads from a text by a format,
/// taken as a time in UTC, or nothing.
pub uninterp spec fn naive_instant(text: Seq<char>, format: Seq<char>) -> Option<Timestamp>;

/// `chrono::NaiveDateTime::parse_from_str`: the date and time that the text
/// gives by the format, taken in UTC; `None` where the text does not fit. A date
/// and time that is read is one that `chrono` can hold.
#[verifier::external_body]
pub(crate) fn parse_naive(text: &str, format: &str) -> (r: Option<Timestamp>)
    ensures
        r == naive_instant(text@, format@),
        r matches Some(t) ==> representable(t.secs, t.nanos),
{
    match chrono::NaiveDateTime::parse_from_str(text, format) {
        Ok(n) => {
            let t = n.and_utc();
            Some(Timestamp { secs: t.timestamp(), nanos: t.timestamp_subsec_nanos() })
        },
        Err(_) => None,
    }
}

/// Whether `chrono` can hold this point in time: it is in one of the years from
/// -262143 to 262142, and more than a second's worth of nanoseconds stands for a
/// leap second, at the end of a minute.
pub open spec fn representable(secs: i64, nanos: u32) -> bool {
    &&& -8_334_601_228_800 <= secs <= 8_210_266_876_799
    &&& nanos < 1_000_000_000 || (nanos < 2_000_000_000 && secs as int % 60 == 59)
}

/// `chrono::DateTime::from_timestamp`: the point in time with these seconds and
/// nanoseconds, `None` where the date is out of range or the nanoseconds are
/// invalid, see [`representable`].
#[verifier::external_body]
pub(crate) fn instant(secs: i64, nanos: u32) -> (r: Option<Timestamp>)
    ensures
        r == (if representable(secs, nanos) {
            Some(Timestamp { secs, nanos })
        } else {
            None
        }),
{
    match chrono::DateTime::from_timestamp(secs, nanos) {
        Some(t) => Some(Timestamp { secs: t.timestamp(), nanos: t.timestamp_subsec_nanos() }),
        None => None,
    }
}

/// A point in time in UTC as `chrono::DateTime::to_rfc3339` writes it, or nothing
/// where `chrono` cannot hold the point.
pub uninterp spec fn rfc3339_of(t: Timestamp) -> Option<Seq<char>>;

/// `chrono::DateTime::to_rfc3339`: the point in time as text in UTC, `None` where
/// it is out of range.
#[verifier::external_body]
pub(crate) fn rfc3339_text(t: Timestamp) -> (r: Option<String>)
    ensures
        text::opt_text(r) == rfc3339_of(t),
        r is Some == representable(t.secs, t.nanos),
{
    chrono::DateTime::from_timestamp(t.secs, t.nanos).map(|d| d.to_rfc3339())
}

/// The format of a year and month.
pub const YEAR_MONTH: &'static str = "%Y-%m";

/// The text that `chrono::DateTime::format` gives for a point in time in UTC,
/// or nothing where `chrono` cannot hold the point.
pub uninterp spec fn formatted(t: Timestamp, format: Seq<char>) -> Option<Seq<char>>;

/// `chrono::DateTime::format`: the point in time as text by the format, `None`
/// where it is out of range. A format that `chrono` does not know would panic;
/// only [`YEAR_MONTH`] is admissible.
#[verifier::external_body]
pub(crate) fn format_utc(t: Timestamp, format: &str) -> (r: Option<String>)
    requires
        format@ == YEAR_MONTH@,
    ensures
        text::opt_text(r) == formatted(t, format@),
        r is Some == representable(t.secs, t.nanos),
{
    chrono::DateTime::from_timestamp(t.secs, t.nanos).map(|d| d.format(format).to_string())
}

/// A day of the calendar.
#[derive(Debug, Clone, Copy, PartialEq, Eq, Structural)]
pub struct CalendarDay {
    pub year: i32,
    pub month: u32,
    pub day: u32,
}

/// Today, from `chrono::Local::now`. Months count from one to twelve, days from
/// one to thirty-one; the rest depends on the clock and the time zone.
#[verifier::external_body]
pub(crate) fn today() -> (r: CalendarDay)
    ensures
        1 <= r.month <= 12,
        1 <= r.day <= 31,
{
    let t = chrono::Local::now();
    CalendarDay { year: t.year(), month: t.month(), day: t.day() }
}

/// `n` in decimal with leading zeros, at least `width` digits.
pub open spec fn padded(n: nat, width: nat) -> Seq<char> {
    let d = text::decimal(n);
    if d.len() >= width {
        d
    } else {
        Seq::new((width - d.len()) as nat, |i: int| '0') + d
    }
}

/// A year in decimal. It has at least four digits, and a sign where four digits
/// do not hold it.
pub open spec fn year_digits(year: i32) -> Seq<char> {
    if year < 0 {
        "-"@ + padded((-year) as nat, 4)
    } else if year > 9999 {
        "+"@ + padded(year as nat, 4)
    } else {
        padded(year as nat, 4)
    }
}

/// A day as year, month and day without separators.
pub open spec fn compact_date(d: CalendarDay) -> Seq<char> {
    year_digits(d.year) + padded(d.month as nat, 2) + padded(d.day as nat, 2)
}

/// A day as year, month and day with dashes between them.
pub open spec fn dashed_date(d: CalendarDay) -> Seq<char> {
    year_digits(d.year) + "-"@ + padded(d.month as nat, 2) + "-"@ + padded(d.day as nat, 2)
}

fn padded_text(n: u64, width: usize) -> (r: String)
    ensures
        r@ == padded(n as nat, width as nat),
{
    let d: String = u64_text(n);
    let len: usize = d.as_str().unicode_len();
    if len >= width {
        return d;
    }
    let mut zeros: String = String::new();
    let mut i: usize = len;
    while i < width
        invariant
            len <= i <= width,
            zeros@ =~= Seq::new((i - len) as nat, |j: int| '0'),
        decreases width - i,
    {
        zeros.push('0');
        i += 1;
    }
    concat2(&zeros, &d)
}

fn year_text(year: i32) -> (r: String)
    ensures
        r@ == year_digits(year),
{
    if year < 0 {
        concat2("-", &padded_text((-(year as i64)) as u64, 4))
    } else if year > 9999 {
        concat2("+", &padded_text(year as u64, 4))
    } else {
        padded_text(year as u64, 4)
    }
}

/// A day as year, month and day without separators.
pub fn compact_date_text(d: CalendarDay) -> (r: String)
    ensures
        r@ == compact_date(d),
{
    let mut r: String = year_text(d.year);
    r.append(&padded_text(d.month as u64, 2));
    r.append(&padded_text(d.day as u64, 2));
    r
}

/// A day as year, month and day with dashes between them.
pub fn dashed_date_text(d: CalendarDay) -> (r: String)
    ensures
        r@ == dashed_date(d),
{
    let mut r: String = year_text(d.year);
    r.append("-");
    r.append(&padded_text(d.month as u64, 2));
    r.append("-");
    r.append(&padded_text(d.day as u64, 2));
    r
}

/// A length of time as whole seconds and nanoseconds.
pub uninterp spec fn duration_parts(d: Duration) -> (u64, u32);

/// `std::time::Duration::from_secs`: a length of whole seconds.
pub assume_specification[ Duration::from_secs ](secs: u64) -> (d: Duration)
    ensures
        duration_parts(d) == (secs, 0u32),
;

/// `std::time::Duration::as_secs`: the whole seconds of a length of time.
pub assume_specification[ Duration::as_secs ](d: &Duration) -> (r: u64)
    ensures
        r == duration_parts(*d).0,
;

// ── Laws ────────────────────────────────────────────────────────────────────

/// A padded number is its digits, with as many zeros before them as bring it to
/// the width.
pub proof fn law_padding_adds_zeros(n: nat, width: nat, i: int)
    ensures
        padded(n, width).len() >= width,
        padded(n, width).len() >= text::decimal(n).len(),
        text::decimal(n).len() <= width ==> padded(n, width).len() == width,
        padded(n, width).skip(padded(n, width).len() - text::decimal(n).len()) == text::decimal(n),
        0 <= i < padded(n, width).len() - text::decimal(n).len() ==> padded(n, width)[i] == '0',
{
    let p = padded(n, width);
    assert(p.skip(p.len() - text::decimal(n).len()) =~= text::decimal(n));
}

/// A day is written as its year in four digits, its month in two and its day in
/// two, from the largest to the smallest, with hyphens or without.
pub proof fn law_dates_are_written_in_full(d: CalendarDay)
    requires
        0 <= d.year <= 9999,
    ensures
        compact_date(d) == padded(d.year as nat, 4) + padded(d.month as nat, 2) + padded(
            d.day as nat,
            2,
        ),
        dashed_date(d) == padded(d.year as nat, 4).push('-') + padded(d.month as nat, 2).push('-')
            + padded(d.day as nat, 2),
{
    reveal_strlit("-");
    assert(dashed_date(d) =~= padded(d.year as nat, 4).push('-') + padded(d.month as nat, 2).push(
        '-',
    ) + padded(d.day as nat, 2));
}

} // verus!
