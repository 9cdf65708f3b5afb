use vstd::prelude::*;
use vstd::string::*;
use std::time::{Duration, SystemTime};
use crate::error::LapisResult;
use crate::text::{decimal, digit_char, push_char, push_decimal};

verus! {

/// Initializes the logging subsystem; there is nothing to set up.
pub fn init() -> (r: LapisResult<()>)
    ensures
        r is Ok,
{
    Ok(())
}

/// A point in time of the system clock.
#[verifier::external_type_specification]
#[verifier::external_body]
pub struct ExSystemTime(SystemTime);

/// Calls `SystemTime::now`: the current time of the system clock.
#[verifier::external_body]
fn system_now() -> SystemTime {
    SystemTime::now()
}

/// Calls `SystemTime::duration_since` with the Unix epoch; `None` where the
/// time lies before the epoch. Nothing more is stated: the value depends on
/// the clock.
#[verifier::external_body]
fn since_unix_epoch(t: &SystemTime) -> Option<Duration> {
    t.duration_since(SystemTime::UNIX_EPOCH).ok()
}

/// Calls `Duration::as_secs`: the whole seconds of the duration.
#[verifier::external_body]
fn duration_secs(d: &Duration) -> u64 {
    d.as_secs()
}

/// Calls `Duration::subsec_millis`: the milliseconds past the whole seconds,
/// which the documentation bounds below 1000.
#[verifier::external_body]
fn duration_subsec_millis(d: &Duration) -> (m: u32)
    ensures
        m < 1000,
{
    d.subsec_millis()
}

/// Three digits of a number below 1000, zero-padded.
pub open spec fn three_digits(m: nat) -> Seq<char> {
    seq![digit_char(m / 100), digit_char((m / 10) % 10), digit_char(m % 10)]
}

/// Two digits of a number below 100, zero-padded.
pub open spec fn two_digits(n: nat) -> Seq<char> {
    seq![digit_char(n / 10), digit_char(n % 10)]
}

/// Gregorian leap years: divisible by 4, and not by 100 unless by 400.
pub open spec fn is_leap_year(y: nat) -> bool {
    y % 4 == 0 && (y % 100 != 0 || y % 400 == 0)
}

/// The number of days in year `y`.
pub open spec fn year_length(y: nat) -> nat {
    if is_leap_year(y) { 366 } else { 365 }
}

/// The number of days in month `m` (1 to 12) of year `y`.
pub open spec fn month_length(y: nat, m: nat) -> nat {
    if m == 2 {
        if is_leap_year(y) { 29 } else { 28 }
    } else if m == 4 || m == 6 || m == 9 || m == 11 {
        30
    } else {
        31
    }
}

/// The number of days in the months of year `y` before month `m`.
pub open spec fn days_before_month(y: nat, m: nat) -> nat
    decreases m,
{
    if m <= 1 {
        0
    } else {
        days_before_month(y, (m - 1) as nat) + month_length(y, (m - 1) as nat)
    }
}

/// The year in which day `days` falls, counting from 1 January of year `y`,
/// and the day's index within that year.
pub open spec fn year_and_day(days: nat, y: nat) -> (nat, nat)
    decreases days,
{
    if days < year_length(y) {
        (y, days)
    } else {
        year_and_day((days - year_length(y)) as nat, y + 1)
    }
}

/// The month in which day `day` of year `y` falls, counting from month `m`,
/// and the day's index within that month.
pub open spec fn month_and_day(day: nat, y: nat, m: nat) -> (nat, nat)
    decreases 12 - m,
{
    if m >= 12 || day < month_length(y, m) {
        (m, day)
    } else {
        month_and_day((day - month_length(y, m)) as nat, y, m + 1)
    }
}

/// The year in an ISO 8601 date: four or more digits, with a `+` beyond 9999.
pub open spec fn year_text(y: nat) -> Seq<char> {
    if y > 9999 { "+"@ + decimal(y) } else { decimal(y) }
}

/// The ISO 8601 UTC text of the instant `secs` seconds and `millis`
/// milliseconds after 1970-01-01T00:00:00Z: `YYYY-MM-DDTHH:MM:SS.mmmZ`.
pub open spec fn timestamp_text(secs: nat, millis: nat) -> Seq<char> {
    let days = secs / 86400;
    let rem = secs % 86400;
    let (y, day_of_year) = year_and_day(days, 1970);
    let (m, day_of_month) = month_and_day(day_of_year, y, 1);
    year_text(y) + "-"@ + two_digits(m) + "-"@ + two_digits(day_of_month + 1) + "T"@
        + two_digits(rem / 3600) + ":"@ + two_digits((rem / 60) % 60) + ":"@ + two_digits(rem % 60)
        + "."@ + three_digits(millis) + "Z"@
}

fn leap_year(y: u64) -> (b: bool)
    ensures
        b == is_leap_year(y as nat),
{
    y % 4 == 0 && (y % 100 != 0 || y % 400 == 0)
}

fn year_days(y: u64) -> (n: u64)
    ensures
        n == year_length(y as nat),
{
    if leap_year(y) { 366 } else { 365 }
}

fn month_days(y: u64, m: u64) -> (n: u64)
    ensures
        n == month_length(y as nat, m as nat),
{
    if m == 2 {
        if leap_year(y) { 29 } else { 28 }
    } else if m == 4 || m == 6 || m == 9 || m == 11 {
        30
    } else {
        31
    }
}

proof fn lemma_year_is_twelve_months(y: nat)
    ensures
        days_before_month(y, 12) + 31 == year_length(y),
{
    reveal_with_fuel(days_before_month, 13);
}

/// Appends two digits of a number below 100.
fn push_two_digits(s: &mut String, n: u64)
    requires
        n < 100,
    ensures
        final(s)@ == old(s)@ + two_digits(n as nat),
{
    let tens: u8 = (n / 10) as u8;
    let ones: u8 = (n % 10) as u8;
    push_char(s, (48u8 + tens) as char);
    push_char(s, (48u8 + ones) as char);
}

/// Renders the instant `secs` seconds and `millis` milliseconds after the
/// Unix epoch as ISO 8601 UTC text.
pub fn format_timestamp(secs: u64, millis: u32) -> (s: String)
    requires
        millis < 1000,
    ensures
        s@ == timestamp_text(secs as nat, millis as nat),
{
    let days: u64 = secs / 86400;
    let rem: u64 = secs % 86400;
    let mut y: u64 = 1970;
    let mut d: u64 = days;
    while d >= year_days(y)
        invariant
            days == secs / 86400,
            1970 <= y,
            y - 1970 <= days - d,
            d <= days,
            days <= u64::MAX / 86400,
            year_and_day(days as nat, 1970) == year_and_day(d as nat, y as nat),
        decreases d,
    {
        d = d - year_days(y);
        y = y + 1;
    }
    let doy = d;
    let mut m: u64 = 1;
    while m < 12 && d >= month_days(y, m)
        invariant
            1 <= m <= 12,
            d <= doy,
            d + days_before_month(y as nat, m as nat) == doy,
            doy < year_length(y as nat),
            month_and_day(doy as nat, y as nat, 1) == month_and_day(d as nat, y as nat, m as nat),
        decreases 12 - m,
    {
        d = d - month_days(y, m);
        m = m + 1;
    }
    proof {
        lemma_year_is_twelve_months(y as nat);
        assert(d < month_length(y as nat, m as nat));
    }
    let mut s = String::new();
    if y > 9999 {
        s.append("+");
    }
    push_decimal(&mut s, y);
    s.append("-");
    push_two_digits(&mut s, m);
    s.append("-");
    push_two_digits(&mut s, d + 1);
    s.append("T");
    push_two_digits(&mut s, rem / 3600);
    s.append(":");
    push_two_digits(&mut s, (rem / 60) % 60);
    s.append(":");
    push_two_digits(&mut s, rem % 60);
    s.append(".");
    let hundreds: u8 = (millis / 100) as u8;
    let tens: u8 = ((millis / 10) % 10) as u8;
    let ones: u8 = (millis % 10) as u8;
    push_char(&mut s, (48u8 + hundreds) as char);
    push_char(&mut s, (48u8 + tens) as char);
    push_char(&mut s, (48u8 + ones) as char);
    s.append("Z");
    s
}

/// The current time as ISO 8601 UTC text; a clock before the epoch reads as
/// the epoch itself.
pub fn iso_now() -> (s: String)
    ensures
        exists|secs: nat, millis: nat| millis < 1000 && s@ == timestamp_text(secs, millis),
{
    let now = system_now();
    let (secs, millis) = match since_unix_epoch(&now) {
        Some(d) => (duration_secs(&d), duration_subsec_millis(&d)),
        None => (0u64, 0u32),
    };
    let s = format_timestamp(secs, millis);
    assert(s@ == timestamp_text(secs as nat, millis as nat));
    s
}

/// The level of a log event: `error` for the `error` event, `info` otherwise.
pub open spec fn level_of(event: Seq<char>) -> Seq<char> {
    if event == "error"@ { "error"@ } else { "info"@ }
}

/// The level at which an event is logged.
pub fn event_level(event: &str) -> (s: &'static str)
    ensures
        s@ == level_of(event@),
{
    if crate::text::same_text(event, "error") { "error" } else { "info" }
}

/// The line that is logged when an entry cannot be serialised.
pub open spec fn fallback_line(module: Seq<char>, event: Seq<char>) -> Seq<char> {
    "{\"error\":\"serialize failed\",\"module\":\""@ + module + "\",\"event\":\""@ + event + "\"}"@
}

/// The line that is logged when an entry cannot be serialised.
pub fn serialize_failure_line(module: &str, event: &str) -> (s: String)
    ensures
        s@ == fallback_line(module@, event@),
{
    let mut s = String::from_str("{\"error\":\"serialize failed\",\"module\":\"");
    s.append(module);
    s.append("\",\"event\":\"");
    s.append(event);
    s.append("\"}");
    s
}

/// The number of days in the years from `a` up to, not including, `b`.
pub open spec fn days_in_years(a: nat, b: nat) -> nat
    decreases b - a,
{
    if b <= a {
        0
    } else {
        year_length(a) + days_in_years(a + 1, b)
    }
}

/// Finding the year of a day count walks whole years: the year found is not
/// before the start, the day left over lies inside it, and the years passed
/// plus that day give back the count.
pub proof fn lemma_year_and_day_splits(days: nat, y: nat)
    ensures
        year_and_day(days, y).0 >= y,
        year_and_day(days, y).1 < year_length(year_and_day(days, y).0),
        days_in_years(y, year_and_day(days, y).0) + year_and_day(days, y).1 == days,
    decreases days,
{
    if days >= year_length(y) {
        lemma_year_and_day_splits((days - year_length(y)) as nat, y + 1);
    }
}

/// Within a year, the month found lies between 1 and 12, the day left over
/// lies inside that month, and the months passed plus that day give back the
/// day of the year.
pub proof fn lemma_month_and_day_splits(day: nat, y: nat, m: nat)
    requires
        1 <= m <= 12,
        day + days_before_month(y, m) < year_length(y),
    ensures
        1 <= month_and_day(day, y, m).0 <= 12,
        month_and_day(day, y, m).1 < month_length(y, month_and_day(day, y, m).0),
        days_before_month(y, month_and_day(day, y, m).0) + month_and_day(day, y, m).1
            == day + days_before_month(y, m),
    decreases 12 - m,
{
    if m < 12 && day >= month_length(y, m) {
        lemma_month_and_day_splits((day - month_length(y, m)) as nat, y, m + 1);
    } else if m == 12 {
        reveal_with_fuel(days_before_month, 13);
    }
}

/// Leap years have 366 days and a 29-day February; other years 365 and 28.
pub proof fn lemma_calendar_lengths(y: nat)
    ensures
        (y % 4 == 0 && (y % 100 != 0 || y % 400 == 0)) ==> year_length(y) == 366 && month_length(y, 2) == 29,
        !(y % 4 == 0 && (y % 100 != 0 || y % 400 == 0)) ==> year_length(y) == 365 && month_length(y, 2) == 28,
        month_length(y, 1) == 31 && month_length(y, 3) == 31 && month_length(y, 4) == 30
            && month_length(y, 5) == 31 && month_length(y, 6) == 30 && month_length(y, 7) == 31
            && month_length(y, 8) == 31 && month_length(y, 9) == 30 && month_length(y, 10) == 31
            && month_length(y, 11) == 30 && month_length(y, 12) == 31,
{
}

/// The timestamp of day `days` after the epoch at `h:mi:sec` and `ms`
/// milliseconds reads: the date of that day (year, month and day of month,
/// found by walking the calendar from 1970), `T`, the hour, minute and
/// second as two digits each, `.`, the milliseconds as three digits, `Z`.
pub proof fn lemma_timestamp_fields(days: nat, h: nat, mi: nat, sec: nat, ms: nat)
    requires
        h < 24,
        mi < 60,
        sec < 60,
        ms < 1000,
    ensures
        ({
            let (y, doy) = year_and_day(days, 1970);
            let (m, dd) = month_and_day(doy, y, 1);
            timestamp_text(days * 86400 + h * 3600 + mi * 60 + sec, ms) == year_text(y) + "-"@ + two_digits(m)
                + "-"@ + two_digits(dd + 1) + "T"@ + two_digits(h) + ":"@ + two_digits(mi) + ":"@
                + two_digits(sec) + "."@ + three_digits(ms) + "Z"@
        }),
{
    let secs = days * 86400 + h * 3600 + mi * 60 + sec;
    let r = h * 3600 + mi * 60 + sec;
    assert(r < 86400);
    assert(secs / 86400 == days && secs % 86400 == r) by (nonlinear_arith)
        requires
            secs == days * 86400 + r,
            r < 86400,
    ;
    assert(r / 3600 == h && (r / 60) % 60 == mi && r % 60 == sec) by (nonlinear_arith)
        requires
            r == h * 3600 + mi * 60 + sec,
            h < 24,
            mi < 60,
            sec < 60,
    ;
}

} // verus!
