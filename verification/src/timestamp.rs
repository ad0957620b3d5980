//! Recording file names: the local date and time at which a recording starts,
//! written as `YYYY-MM-DD_HH-MM-SS.mp4`.
use chrono::{Datelike, Timelike};
use vstd::prelude::*;
use vstd::string::*;

use crate::clock::wall_clock_secs;
use crate::text::{
    decimal, digits_value, law_padded_denotes, lemma_decimal_len_bound, lemma_padded_len, padded,
};

verus! {

/// A local calendar date and wall-clock time, to the second.
#[derive(Clone, Copy, Debug, PartialEq, Eq, Structural)]
pub struct Timestamp {
    pub year: i32,
    pub month: u32,
    pub day: u32,
    pub hour: u32,
    pub minute: u32,
    pub second: u32,
}

/// The earliest year that the calendar library represents.
pub open spec fn first_year() -> int {
    -262143
}

/// The latest year that the calendar library represents.
pub open spec fn last_year() -> int {
    262142
}

/// Leap years of the proleptic Gregorian calendar.
pub open spec fn is_leap_year(year: int) -> bool {
    year % 4 == 0 && (year % 100 != 0 || year % 400 == 0)
}

/// The number of days of a month (1 to 12) of a year.
pub open spec fn days_in_month(year: int, month: int) -> int {
    if month == 2 {
        if is_leap_year(year) { 29 } else { 28 }
    } else if month == 4 || month == 6 || month == 9 || month == 11 {
        30
    } else {
        31
    }
}

impl Timestamp {
    /// An existing day of the proleptic Gregorian calendar, within the range
    /// of years the calendar library represents, and a time of day without a
    /// leap second.
    pub open spec fn is_valid(self) -> bool {
        &&& first_year() <= self.year <= last_year()
        &&& 1 <= self.month <= 12
        &&& 1 <= self.day <= days_in_month(self.year as int, self.month as int)
        &&& self.hour < 24
        &&& self.minute < 60
        &&& self.second < 60
    }
}

/// The pattern by which a recording's start time is written.
pub open spec fn timestamp_pattern() -> Seq<char> {
    "%Y-%m-%d_%H-%M-%S"@
}

/// A year as the `%Y` pattern writes it: four digits, zero-padded, for the
/// years 0 to 9999; otherwise a sign, then at least four digits.
pub open spec fn year_text(year: int) -> Seq<char> {
    if 0 <= year <= 9999 {
        padded(year as nat, 4)
    } else if year > 9999 {
        seq!['+'] + decimal(year as nat)
    } else {
        seq!['-'] + padded((-year) as nat, 4)
    }
}

/// A timestamp written by the pattern `%Y-%m-%d_%H-%M-%S`.
pub open spec fn timestamp_text(t: Timestamp) -> Seq<char> {
    year_text(t.year as int) + seq!['-'] + padded(t.month as nat, 2) + seq!['-'] + padded(
        t.day as nat,
        2,
    ) + seq!['_'] + padded(t.hour as nat, 2) + seq!['-'] + padded(t.minute as nat, 2) + seq!['-']
        + padded(t.second as nat, 2)
}

/// The name of a recording started at `t`.
pub open spec fn recording_file_name_text(t: Timestamp) -> Seq<char> {
    timestamp_text(t) + ".mp4"@
}

/// The proleptic Gregorian date and time of day `n` seconds after the Unix
/// epoch (1970-01-01 00:00:00), counted without leap seconds.
pub open spec fn civil_time(n: int) -> Timestamp {
    let days = n / 86400;
    let sod = n % 86400;
    let z = days + 719468;
    let era = z / 146097;
    let doe = z - era * 146097;
    let yoe = (doe - doe / 1460 + doe / 36524 - doe / 146096) / 365;
    let doy = doe - (365 * yoe + yoe / 4 - yoe / 100);
    let mp = (5 * doy + 2) / 153;
    let day = doy - (153 * mp + 2) / 5 + 1;
    let month = if mp < 10 { mp + 3 } else { mp - 9 };
    let year = yoe + era * 400 + if month <= 2 { 1int } else { 0int };
    Timestamp {
        year: year as i32,
        month: month as u32,
        day: day as u32,
        hour: (sod / 3600) as u32,
        minute: (sod % 3600 / 60) as u32,
        second: (sod % 3600 % 60) as u32,
    }
}

/// The calendar time `secs` seconds after the epoch, shifted by `offset`
/// seconds.
pub open spec fn shifted_time(secs: int, offset: int) -> Timestamp {
    civil_time(secs + offset)
}

/// Local time is UTC shifted by the time zone's offset, a whole number of
/// seconds strictly between minus and plus one day.
pub open spec fn is_local_time_of(t: Timestamp, secs: int) -> bool {
    exists|offset: int| -86400 < offset < 86400 && t == #[trigger] shifted_time(secs, offset)
}

/// The latest count of seconds since the Unix epoch for which a recording is
/// named: the first second of 262142-12-30 UTC. chrono represents times up to
/// the end of 262142-12-31, so the local time, less than a day off UTC, stays
/// inside its range.
pub const MAX_NAMED_SECS: u64 = 8_210_266_704_000;

/// The local date and time `secs` seconds after the Unix epoch, from chrono:
/// `DateTime::from_timestamp_secs`, `DateTime::with_timezone` to `Local`,
/// `DateTime::naive_local`, and the `Datelike`/`Timelike` getters.
///
/// Claimed: every field lies in the range that chrono documents for a
/// `NaiveDateTime` (a valid calendar day; `second` below 60, a leap second
/// being carried in the nanoseconds); and the result is the proleptic
/// Gregorian calendar time of `secs` plus the local offset, which chrono
/// holds as a `FixedOffset` of fewer than 86400 seconds either way
/// (`naive_local` adds it to the UTC time that `from_timestamp_secs` gives).
/// The bound on `secs` keeps both the UTC and the local time inside chrono's
/// range, where `from_timestamp_secs` gives `Some` and `naive_local` does not
/// panic. Which offset applies depends on the machine's time zone and is not
/// stated. chrono's lookup of
/// the local offset panics where the system's time-zone data yields no local
/// time type for the moment; nothing here can exclude that.
#[verifier::external_body]
fn local_timestamp(secs: i64) -> (t: Timestamp)
    requires
        0 <= secs <= MAX_NAMED_SECS,
    ensures
        t.is_valid(),
        is_local_time_of(t, secs as int),
{
    let utc = chrono::DateTime::from_timestamp_secs(secs).unwrap();
    let now = utc.with_timezone(&chrono::Local).naive_local();
    Timestamp {
        year: now.year(),
        month: now.month(),
        day: now.day(),
        hour: now.hour(),
        minute: now.minute(),
        second: now.second(),
    }
}

/// Writes a timestamp with chrono: `NaiveDate::from_ymd_opt`,
/// `NaiveDate::and_hms_opt`, then `NaiveDateTime::format` with the pattern
/// and `to_string`.
///
/// Claimed: for a valid timestamp both constructors succeed, and the pattern
/// `%Y-%m-%d_%H-%M-%S` writes the year as `%Y` does (see `year_text`) and each
/// other field as two zero-padded digits, joined by the literal separators.
#[verifier::external_body]
fn format_timestamp(t: &Timestamp, pattern: &str) -> (text: String)
    requires
        t.is_valid(),
        pattern@ == timestamp_pattern(),
    ensures
        text@ == timestamp_text(*t),
{
    let date = chrono::NaiveDate::from_ymd_opt(t.year, t.month, t.day).unwrap();
    let at = date.and_hms_opt(t.hour, t.minute, t.second).unwrap();
    at.format(pattern).to_string()
}

/// The file name of a recording started at `t`, such as
/// `2026-08-17_19-52-31.mp4`.
pub fn recording_file_name(t: &Timestamp) -> (name: String)
    requires
        t.is_valid(),
    ensures
        name@ == recording_file_name_text(*t),
{
    let mut name = format_timestamp(t, "%Y-%m-%d_%H-%M-%S");
    name.append(".mp4");
    name
}

/// Whether a wall-clock reading (seconds since the Unix epoch, `None` before
/// it) can name a recording.
pub open spec fn names_a_recording(clock_secs: Option<u64>) -> bool {
    clock_secs matches Some(secs) && secs <= MAX_NAMED_SECS
}

/// The file name of a recording started `secs` seconds after the Unix epoch,
/// after the local date and time of that moment: a name for every moment up
/// to `MAX_NAMED_SECS`, `None` beyond it. Which local time that is depends on
/// the machine's time zone.
pub fn recording_file_name_at(secs: u64) -> (name: Option<String>)
    ensures
        name is Some <==> secs <= MAX_NAMED_SECS,
        name matches Some(n) ==> exists|t: Timestamp|
            t.is_valid() && n@ == recording_file_name_text(t),
        name matches Some(n) ==> exists|t: Timestamp|
            t.is_valid() && is_local_time_of(t, secs as int) && n@ == recording_file_name_text(t),
{
    if secs > MAX_NAMED_SECS {
        return None;
    }
    let t = local_timestamp(secs as i64);
    Some(recording_file_name(&t))
}

/// The file name of a recording that starts now, after the local date and
/// time on the wall clock (see `recording_file_name_at`); `None` where the
/// clock reads a time before the Unix epoch or beyond `MAX_NAMED_SECS`
/// seconds after it.
pub fn current_recording_file_name() -> (name: Option<String>)
    ensures
        name matches Some(n) ==> exists|t: Timestamp|
            t.is_valid() && n@ == recording_file_name_text(t),
{
    match wall_clock_secs() {
        Some(secs) => recording_file_name_at(secs),
        None => None,
    }
}

/// For the years 0 to 9999 a recording's name is 23 characters,
/// `YYYY-MM-DD_HH-MM-SS.mp4`, and each field reads back as the time the
/// recording started.
pub proof fn law_file_name_reads_back(t: Timestamp)
    requires
        t.is_valid(),
        0 <= t.year <= 9999,
    ensures
        ({
            let name = recording_file_name_text(t);
            &&& name.len() == 23
            &&& digits_value(name.subrange(0, 4)) == t.year
            &&& name[4] == '-'
            &&& digits_value(name.subrange(5, 7)) == t.month
            &&& name[7] == '-'
            &&& digits_value(name.subrange(8, 10)) == t.day
            &&& name[10] == '_'
            &&& digits_value(name.subrange(11, 13)) == t.hour
            &&& name[13] == '-'
            &&& digits_value(name.subrange(14, 16)) == t.minute
            &&& name[16] == '-'
            &&& digits_value(name.subrange(17, 19)) == t.second
            &&& name.subrange(19, 23) == ".mp4"@
        }),
{
    reveal_strlit(".mp4");
    let y = padded(t.year as nat, 4);
    let mo = padded(t.month as nat, 2);
    let d = padded(t.day as nat, 2);
    let h = padded(t.hour as nat, 2);
    let mi = padded(t.minute as nat, 2);
    let se = padded(t.second as nat, 2);
    lemma_decimal_len_bound(t.year as nat);
    lemma_decimal_len_bound(t.month as nat);
    lemma_decimal_len_bound(t.day as nat);
    lemma_decimal_len_bound(t.hour as nat);
    lemma_decimal_len_bound(t.minute as nat);
    lemma_decimal_len_bound(t.second as nat);
    lemma_padded_len(t.year as nat, 4);
    lemma_padded_len(t.month as nat, 2);
    lemma_padded_len(t.day as nat, 2);
    lemma_padded_len(t.hour as nat, 2);
    lemma_padded_len(t.minute as nat, 2);
    lemma_padded_len(t.second as nat, 2);
    law_padded_denotes(t.year as nat, 4);
    law_padded_denotes(t.month as nat, 2);
    law_padded_denotes(t.day as nat, 2);
    law_padded_denotes(t.hour as nat, 2);
    law_padded_denotes(t.minute as nat, 2);
    law_padded_denotes(t.second as nat, 2);
    let name = recording_file_name_text(t);
    assert(name =~= y + seq!['-'] + mo + seq!['-'] + d + seq!['_'] + h + seq!['-'] + mi + seq![
        '-',
    ] + se + ".mp4"@);
    assert(name.subrange(0, 4) =~= y);
    assert(name.subrange(5, 7) =~= mo);
    assert(name.subrange(8, 10) =~= d);
    assert(name.subrange(11, 13) =~= h);
    assert(name.subrange(14, 16) =~= mi);
    assert(name.subrange(17, 19) =~= se);
    assert(name.subrange(19, 23) =~= ".mp4"@);
}

/// The time of day of `n` seconds after the epoch: its hours, minutes and
/// seconds add up to the seconds since midnight.
pub proof fn lemma_civil_time_of_day(n: int)
    ensures
        civil_time(n).hour < 24,
        civil_time(n).minute < 60,
        civil_time(n).second < 60,
        civil_time(n).hour * 3600 + civil_time(n).minute * 60 + civil_time(n).second == n % 86400,
{
    let sod = n % 86400;
    assert(0 <= sod < 86400);
    assert(sod == (sod / 3600) * 3600 + sod % 3600);
    let r = sod % 3600;
    assert(r == (r / 60) * 60 + r % 60);
}

/// A recording's name tells the second at which it started: for a local time
/// `t` of the moment `secs` (in the years 0 to 9999), the name's hours,
/// minutes and seconds add up to the seconds since local midnight of that
/// moment, so two recordings started at different seconds of one local day
/// get different names.
pub proof fn law_name_tells_the_second(t: Timestamp, secs: int, offset: int)
    requires
        t.is_valid(),
        0 <= t.year <= 9999,
        t == civil_time(secs + offset),
    ensures
        ({
            let name = recording_file_name_text(t);
            digits_value(name.subrange(11, 13)) * 3600 + digits_value(name.subrange(14, 16)) * 60
                + digits_value(name.subrange(17, 19)) == (secs + offset) % 86400
        }),
{
    law_file_name_reads_back(t);
    lemma_civil_time_of_day(secs + offset);
}

} // verus!
