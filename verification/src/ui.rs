//! How sizes and dates are written in the explorer.

use crate::app::{Entry, Property};
use crate::text;
use chrono::{DateTime, Datelike};
use vstd::prelude::*;

verus! {

/// A size in bytes as shown: whole TiB, GiB, MiB or KiB (powers of ten, rounded down) from a
/// thousand bytes on, bytes below.
pub open spec fn spec_bytes_to_string(size: u64) -> Seq<char> {
    if size >= 1_000_000_000_000 {
        text::spec_decimal((size / 1_000_000_000_000) as nat) + "TiB"@
    } else if size >= 1_000_000_000 {
        text::spec_decimal((size / 1_000_000_000) as nat) + "GiB"@
    } else if size >= 1_000_000 {
        text::spec_decimal((size / 1_000_000) as nat) + "MiB"@
    } else if size >= 1_000 {
        text::spec_decimal((size / 1_000) as nat) + "KiB"@
    } else {
        text::spec_decimal(size as nat) + " bytes"@
    }
}

/// Writes a size in bytes.
pub fn bytes_to_string(size: u64) -> (res: String)
    ensures
        res@ == spec_bytes_to_string(size),
{
    let (round, unit) = if size >= 1_000_000_000_000 {
        (size / 1_000_000_000_000, "TiB")
    } else if size >= 1_000_000_000 {
        (size / 1_000_000_000, "GiB")
    } else if size >= 1_000_000 {
        (size / 1_000_000, "MiB")
    } else if size >= 1_000 {
        (size / 1_000, "KiB")
    } else {
        (size, " bytes")
    };
    let mut s = text::decimal(round);
    s.append(unit);
    s
}

/// An integer written in decimal, with a minus sign where negative.
pub open spec fn spec_signed_decimal(n: int) -> Seq<char> {
    if n < 0 {
        "-"@ + text::spec_decimal((-n) as nat)
    } else {
        text::spec_decimal(n as nat)
    }
}

/// Writes an integer in decimal.
pub fn signed_decimal(n: i64) -> (res: String)
    ensures
        res@ == spec_signed_decimal(n as int),
{
    if n < 0 {
        let magnitude: u64 = if n == i64::MIN {
            0x8000_0000_0000_0000
        } else {
            (-n) as u64
        };
        let mut s = text::owned("-");
        s.append(text::decimal(magnitude).as_str());
        s
    } else {
        text::decimal(n as u64)
    }
}

/// The timestamp `chrono` holds for `secs` seconds after the epoch: `secs` itself where
/// `DateTime::from_timestamp_secs` accepts it, the epoch where it is out of range. The range is
/// that of `chrono`'s calendar, which its source bounds in years, not in seconds.
pub uninterp spec fn spec_utc_timestamp(secs: int) -> int;

/// The day of the month, in UTC, of `secs` seconds after the epoch (the epoch where out of
/// range).
pub uninterp spec fn spec_utc_day(secs: int) -> u32;

/// Two decimal digits for `n` (below 100), a leading zero where `n` is below 10.
pub open spec fn two_digits(n: int) -> Seq<char> {
    seq![text::digit_char((n / 10) as nat), text::digit_char((n % 10) as nat)]
}

/// The time of day of the timestamp `t`, in UTC, as `%I:%M %p` writes it: the hour on a
/// 12-hour clock (01 to 12) and the minute, each in two digits, then `AM` before noon and `PM`
/// from noon on.
pub open spec fn clock_text(t: int) -> Seq<char> {
    let of_day = t % 86400;
    let hour = of_day / 3600;
    let minute = (of_day % 3600) / 60;
    let hour12 = if hour % 12 == 0 {
        12
    } else {
        hour % 12
    };
    two_digits(hour12) + ":"@ + two_digits(minute) + " "@ + if hour < 12 {
        "AM"@
    } else {
        "PM"@
    }
}

/// Calls `DateTime::from_timestamp_secs`, falling back to the epoch, and reads the timestamp
/// back: the result is `secs` (a round trip) or 0 (the epoch), and is named
/// `spec_utc_timestamp(secs)`.
#[verifier::external_body]
fn utc_timestamp(secs: i64) -> (res: i64)
    ensures
        res == spec_utc_timestamp(secs as int),
        res == secs || res == 0,
{
    DateTime::from_timestamp_secs(secs).unwrap_or_default().timestamp()
}

/// Calls `DateTime::from_timestamp_secs`, falling back to the epoch, and takes the day of the
/// month (`Datelike::day`), between 1 and 31.
#[verifier::external_body]
fn utc_day(secs: i64) -> (res: u32)
    ensures
        res == spec_utc_day(secs as int),
        1 <= res <= 31,
{
    DateTime::from_timestamp_secs(secs).unwrap_or_default().day()
}

/// Calls `DateTime::from_timestamp_secs`, falling back to the epoch, and formats it with
/// `pattern`, which must be `%I:%M %p` (a pattern `chrono` cannot read makes the formatting
/// panic): the time of day of the timestamp it holds, `spec_utc_timestamp(secs)`, as
/// `chrono`'s documentation of `%I`, `%M` and `%p` gives it.
#[verifier::external_body]
fn utc_format(secs: i64, pattern: &str) -> (res: String)
    requires
        pattern@ == "%I:%M %p"@,
    ensures
        res@ == clock_text(spec_utc_timestamp(secs as int)),
{
    DateTime::from_timestamp_secs(secs).unwrap_or_default().format(pattern).to_string()
}

/// Integer division rounded toward zero, as Rust and `chrono` divide (`d` positive).
pub open spec fn trunc_div(n: int, d: int) -> int {
    if n >= 0 {
        n / d
    } else {
        -((-n) / d)
    }
}

/// Whole days between `given` and `now` (seconds), counted as `chrono` counts them: whole
/// hours first, then whole days of those, each rounded toward zero.
pub open spec fn days_between(now: int, given: int) -> int {
    trunc_div(trunc_div(now - given, 3600), 24)
}

/// How long ago the time `given` was at the time `now` (both in seconds since the epoch), where
/// `same_day` tells whether both fall on the same day of the month and `clock` is the time of
/// day of `given`: today or yesterday with the time of day, then days, weeks, months and years
/// ago.
pub open spec fn spec_relative_date(now: int, given: int, same_day: bool, clock: Seq<char>) -> Seq<char> {
    let delta_day = days_between(now, given);
    if delta_day < 1 && same_day {
        "Today, "@ + clock
    } else if delta_day < 2 {
        "Yesterday, "@ + clock
    } else if delta_day <= 7 {
        spec_signed_decimal(delta_day) + " days ago"@
    } else if delta_day <= 14 {
        "Last week"@
    } else if delta_day <= 31 {
        spec_signed_decimal(delta_day / 7) + " weeks ago"@
    } else if delta_day <= 62 {
        "Last month"@
    } else if delta_day <= 365 {
        spec_signed_decimal(delta_day / 31) + " months ago"@
    } else if delta_day <= 730 {
        "Last year"@
    } else {
        spec_signed_decimal(delta_day / 365) + " years ago"@
    }
}

/// How long ago a date was, as shown beside an entry, at the time `now` (seconds since the
/// epoch), the date and its day and time of day as `chrono` reads them in UTC. A missing date
/// counts as the epoch.
pub open spec fn spec_format_date(now: int, date: Option<i64>) -> Seq<char> {
    let given = spec_utc_timestamp(
        match date {
            Some(d) => d as int,
            None => 0,
        },
    );
    spec_relative_date(now, given, spec_utc_day(now) == spec_utc_day(given), clock_text(spec_utc_timestamp(given)))
}

/// Divides rounding toward zero.
fn div_toward_zero(n: i128, d: i128) -> (q: i128)
    requires
        0 < d,
        -0x1_0000_0000_0000_0000_0000 <= n <= 0x1_0000_0000_0000_0000_0000,
    ensures
        q == trunc_div(n as int, d as int),
        n >= 0 ==> 0 <= q <= n,
        n < 0 ==> n <= q <= 0,
{
    if n >= 0 {
        n / d
    } else {
        let m: i128 = -n;
        let r: i128 = m / d;
        -r
    }
}

/// Writes how long ago the time `given` was at the time `now` (see `spec_relative_date`).
pub fn relative_date(now: i64, given: i64, same_day: bool, clock: &str) -> (res: String)
    ensures
        res@ == spec_relative_date(now as int, given as int, same_day, clock@),
{
    let delta: i128 = now as i128 - given as i128;
    let hours = div_toward_zero(delta, 3600);
    let day128 = div_toward_zero(hours, 24);
    assert(-0x1_0000_0000_0000_0000int <= day128 <= 0x1_0000_0000_0000_0000int);
    if day128 < 1 && same_day {
        text::concat("Today, ", clock)
    } else if day128 < 2 {
        text::concat("Yesterday, ", clock)
    } else if day128 <= 7 {
        let mut s = signed_decimal(day128 as i64);
        s.append(" days ago");
        s
    } else if day128 <= 14 {
        text::owned("Last week")
    } else if day128 <= 31 {
        let mut s = signed_decimal((day128 / 7) as i64);
        s.append(" weeks ago");
        s
    } else if day128 <= 62 {
        text::owned("Last month")
    } else if day128 <= 365 {
        let mut s = signed_decimal((day128 / 31) as i64);
        s.append(" months ago");
        s
    } else if day128 <= 730 {
        text::owned("Last year")
    } else {
        let d: i128 = day128 / 365;
        assert(d <= 0x1_0000_0000_0000_0000int / 365);
        let mut s = signed_decimal(d as i64);
        s.append(" years ago");
        s
    }
}

/// Writes how long ago `date` was, at the time `now` (seconds since the epoch).
pub fn format_date(now: i64, date: Option<i64>) -> (res: String)
    ensures
        res@ == spec_format_date(now as int, date),
{
    let given = utc_timestamp(
        match date {
            Some(d) => d,
            None => 0,
        },
    );
    let same_day = utc_day(now) == utc_day(given);
    let clock = utc_format(given, "%I:%M %p");
    relative_date(now, given, same_day, clock.as_str())
}

/// The text of an entry in the column of `property`, at the time `now`: a folder's size is its
/// count of items, a file's its size in bytes (none read counts as 0).
pub open spec fn spec_cell_text(e: Entry, property: Property, now: int) -> Seq<char> {
    match property {
        Property::Name => e.name@,
        Property::Accessed => spec_format_date(now, e.accessed),
        Property::Created => spec_format_date(now, e.created),
        Property::Size => match e.folder_size {
            Some(n) => text::spec_decimal(n as nat) + " items"@,
            None => spec_bytes_to_string(
                match e.file_size {
                    Some(b) => b,
                    None => 0,
                },
            ),
        },
        Property::Type => e.file_type@,
        Property::Path => e.path@,
    }
}

/// Writes the text of an entry in the column of `property`.
pub fn cell_text(entry: &Entry, property: &Property, now: i64) -> (res: String)
    ensures
        res@ == spec_cell_text(*entry, *property, now as int),
{
    match property {
        Property::Name => text::owned(entry.name.as_str()),
        Property::Accessed => format_date(now, entry.accessed),
        Property::Created => format_date(now, entry.created),
        Property::Size => match entry.folder_size {
            Some(n) => {
                let mut s = text::decimal(n as u64);
                s.append(" items");
                s
            },
            None => bytes_to_string(
                match entry.file_size {
                    Some(b) => b,
                    None => 0,
                },
            ),
        },
        Property::Type => text::owned(entry.file_type),
        Property::Path => text::owned(entry.path.as_str()),
    }
}

/// A line of the metadata window of an entry.
#[derive(Debug, PartialEq, Eq)]
pub enum MetadataLine {
    /// A line of text.
    Text(String),
    /// A label and a date, in seconds since the epoch, written after it in the configured format.
    Date(&'static str, i64),
    /// Nothing is shown for the property.
    Nothing,
}

/// The text of a line of the metadata window, for the properties shown as text.
pub open spec fn spec_metadata_text(e: Entry, property: Property) -> Seq<char> {
    match property {
        Property::Path => "full path: "@ + e.path@,
        Property::Type => "type: "@ + e.file_type@,
        _ => match e.folder_size {
            Some(n) => "folder size: "@ + text::spec_decimal(n as nat) + " items"@,
            None => "file size: "@ + spec_bytes_to_string(
                match e.file_size {
                    Some(b) => b,
                    None => 0,
                },
            ),
        },
    }
}

/// The line of the metadata window of `entry` for `property`: its full path, its type, its
/// size (a folder's in items), the dates with their labels (a date not read counts as the
/// epoch); nothing for the name, which heads the window.
pub fn metadata_line(entry: &Entry, property: &Property) -> (res: MetadataLine)
    ensures
        match *property {
            Property::Path | Property::Type | Property::Size => res matches MetadataLine::Text(t)
                && t@ == spec_metadata_text(*entry, *property),
            Property::Accessed => res == MetadataLine::Date(
                "last accessed date: ",
                match entry.accessed {
                    Some(t) => t,
                    None => 0,
                },
            ),
            Property::Created => res == MetadataLine::Date(
                "created date: ",
                match entry.created {
                    Some(t) => t,
                    None => 0,
                },
            ),
            Property::Name => res == MetadataLine::Nothing,
        },
{
    match property {
        Property::Path => MetadataLine::Text(text::concat("full path: ", entry.path.as_str())),
        Property::Type => MetadataLine::Text(text::concat("type: ", entry.file_type)),
        Property::Size => MetadataLine::Text(
            match entry.folder_size {
                Some(n) => {
                    let mut s = text::concat("folder size: ", text::decimal(n as u64).as_str());
                    s.append(" items");
                    s
                },
                None => {
                    let b = match entry.file_size {
                        Some(b) => b,
                        None => 0,
                    };
                    text::concat("file size: ", bytes_to_string(b).as_str())
                },
            },
        ),
        Property::Accessed => MetadataLine::Date(
            "last accessed date: ",
            match entry.accessed {
                Some(t) => t,
                None => 0,
            },
        ),
        Property::Created => MetadataLine::Date(
            "created date: ",
            match entry.created {
                Some(t) => t,
                None => 0,
            },
        ),
        Property::Name => MetadataLine::Nothing,
    }
}

} // verus!
