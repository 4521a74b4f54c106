//! Instants as the wire carries them.
use chrono::Datelike;
use crate::numfmt::{decimal_digits, format_u64};
use crate::strings::push_char;
use vstd::prelude::*;

verus! {

/// An instant in UTC: whole seconds since the Unix epoch and the
/// nanoseconds past that second (a leap second reads as a second
/// nanosecond count of 1_000_000_000 or more).
#[derive(Debug, Clone, Copy, PartialEq, Eq, Structural)]
pub struct UtcTimestamp {
    pub secs: i64,
    pub nanos: u32,
}

/// Whether `a` is at or before `b`.
pub open spec fn timestamp_le(a: UtcTimestamp, b: UtcTimestamp) -> bool {
    a.secs < b.secs || (a.secs == b.secs && a.nanos <= b.nanos)
}

impl UtcTimestamp {
    /// Whether this instant is at or before `other`.
    pub fn le(&self, other: &UtcTimestamp) -> (r: bool)
        ensures
            r == timestamp_le(*self, *other),
    {
        self.secs < other.secs || (self.secs == other.secs && self.nanos <= other.nanos)
    }
}

/// A calendar date: year, month (1 to 12) and day of the month.
#[derive(Debug, Clone, Copy, PartialEq, Eq, Structural)]
pub struct NaiveDate {
    pub year: i32,
    pub month: u32,
    pub day: u32,
}

/// A time of day: seconds since midnight and the nanoseconds past that
/// second.
#[derive(Debug, Clone, Copy, PartialEq, Eq, Structural)]
pub struct TimeOfDay {
    pub secs: u32,
    pub nanos: u32,
}

/// The date a text stands for under a `chrono` format, as
/// `chrono::NaiveDate::parse_from_str` reads it: year, month and day.
pub uninterp spec fn date_from_text(s: Seq<char>, fmt: Seq<char>) -> Option<(int, int, int)>;

/// The UTC instant, as seconds and nanoseconds, of a local date and time in
/// a named time zone, as `chrono` with the `chrono_tz` database gives it
/// when the local time names exactly one instant.
pub uninterp spec fn zoned_utc(
    year: int,
    month: int,
    day: int,
    secs: int,
    nanos: int,
    zone: Seq<char>,
) -> Option<(int, int)>;

/// The UTC calendar date of an instant, as `chrono`'s
/// `DateTime::from_timestamp(..).date_naive()` gives it.
pub uninterp spec fn utc_calendar_date(secs: int, nanos: int) -> Option<(int, int, int)>;

/// The proleptic Gregorian date (year, month, day) of the day `days` after
/// 1970-01-01 (before it, for a negative count): days are counted from
/// 0000-03-01 in eras of 400 years of 146097 days, and each year of an era
/// from March, so that a leap day falls last.
pub open spec fn civil_from_days(days: int) -> (int, int, int) {
    let z = days + 719468;
    let era = z / 146097;
    let doe = z - era * 146097;
    let yoe = (doe - doe / 1460 + doe / 36524 - doe / 146096) / 365;
    let doy = doe - (365 * yoe + yoe / 4 - yoe / 100);
    let mp = (5 * doy + 2) / 153;
    let day = doy - (153 * mp + 2) / 5 + 1;
    let month = if mp < 10 {
        mp + 3
    } else {
        mp - 9
    };
    let year = yoe + era * 400 + (if month <= 2 {
        1int
    } else {
        0int
    });
    (year, month, day)
}

/// A named date result as a date.
pub open spec fn ymd_date(r: Option<(int, int, int)>) -> Option<NaiveDate> {
    match r {
        Some(t) => Some(NaiveDate { year: t.0 as i32, month: t.1 as u32, day: t.2 as u32 }),
        None => None,
    }
}

/// `chrono::NaiveDate::parse_from_str`: the date a text stands for under a
/// format.  The result is named; claims, as `chrono::NaiveDate` keeps it,
/// that a month is 1 to 12 and a day 1 to 31.
#[verifier::external_body]
pub(crate) fn parse_date(s: &str, fmt: &str) -> (r: Option<NaiveDate>)
    ensures
        r == ymd_date(date_from_text(s@, fmt@)),
        r matches Some(d) ==> 1 <= d.month <= 12 && 1 <= d.day <= 31,
{
    match chrono::NaiveDate::parse_from_str(s, fmt) {
        Ok(d) => Some(NaiveDate { year: d.year(), month: d.month(), day: d.day() }),
        Err(_) => None,
    }
}

/// `chrono::NaiveDateTime::and_local_timezone(..).single()` in the
/// `chrono_tz` zone of that name, then `to_utc`: the instant a local date
/// and time names in the zone.  `None` where the zone name, date or time
/// is not valid, or where the local time names no instant or two.  The
/// result is named.
#[verifier::external_body]
pub(crate) fn local_to_utc(date: NaiveDate, time: TimeOfDay, zone: &str) -> (r: Option<
    UtcTimestamp,
>)
    ensures
        r == (match zoned_utc(
            date.year as int,
            date.month as int,
            date.day as int,
            time.secs as int,
            time.nanos as int,
            zone@,
        ) {
            Some(t) => Some(UtcTimestamp { secs: t.0 as i64, nanos: t.1 as u32 }),
            None => None,
        }),
{
    let tz: chrono_tz::Tz = zone.parse().ok()?;
    let d = chrono::NaiveDate::from_ymd_opt(date.year, date.month, date.day)?;
    let t = chrono::NaiveTime::from_num_seconds_from_midnight_opt(time.secs, time.nanos)?;
    let utc = d.and_time(t).and_local_timezone(tz).single()?.to_utc();
    Some(UtcTimestamp { secs: utc.timestamp(), nanos: utc.timestamp_subsec_nanos() })
}

/// `chrono::DateTime::<Utc>::from_timestamp(..)` then `date_naive`: the UTC
/// calendar date of an instant, `None` where `chrono` cannot hold the
/// instant.  The result is named; claims, as `chrono::NaiveDate` keeps it,
/// that a month is 1 to 12 and a day 1 to 31, that a date given is the
/// proleptic Gregorian date of the day the seconds fall in
/// (`secs.div_euclid(86_400)` days after 1970-01-01), and that an instant
/// within about 31,000 years of 1970 with fewer than a second's nanoseconds
/// always gives a date (`chrono` holds years up to 262142 either side).
#[verifier::external_body]
pub(crate) fn utc_date(t: UtcTimestamp) -> (r: Option<NaiveDate>)
    ensures
        r == ymd_date(utc_calendar_date(t.secs as int, t.nanos as int)),
        r matches Some(d) ==> 1 <= d.month <= 12 && 1 <= d.day <= 31,
        r matches Some(d) ==> civil_from_days((t.secs as int) / 86400) == (
            d.year as int,
            d.month as int,
            d.day as int,
        ),
        t.nanos < 1_000_000_000 && -1_000_000_000_000 <= t.secs <= 1_000_000_000_000 ==> r is Some,
{
    let d = chrono::DateTime::from_timestamp(t.secs, t.nanos)?.date_naive();
    Some(NaiveDate { year: d.year(), month: d.month(), day: d.day() })
}

/// `n` written with at least `width` digits, zero-padded on the left.
pub open spec fn padded_digits(n: nat, width: nat) -> Seq<char> {
    let d = decimal_digits(n);
    if d.len() >= width {
        d
    } else {
        Seq::new((width - d.len()) as nat, |i: int| '0') + d
    }
}

/// A year as `chrono`'s "%Y" writes it: four digits, zero-padded, for
/// years 0 to 9999; otherwise a sign and at least four digits.
pub open spec fn year_text(y: int) -> Seq<char> {
    if 0 <= y <= 9999 {
        padded_digits(y as nat, 4)
    } else if y < 0 {
        seq!['-'] + padded_digits((-y) as nat, 4)
    } else {
        seq!['+'] + padded_digits(y as nat, 4)
    }
}

/// A date as `chrono`'s "%Y%m%d" writes it, e.g. "20241227".
pub open spec fn yyyymmdd_text(d: NaiveDate) -> Seq<char> {
    year_text(d.year as int) + padded_digits(d.month as nat, 2) + padded_digits(d.day as nat, 2)
}

/// Appends `n` with at least `width` digits, zero-padded on the left.
fn push_padded(out: &mut String, n: u64, width: usize)
    requires
        width <= 4,
    ensures
        final(out)@ == old(out)@ + padded_digits(n as nat, width as nat),
{
    let digits = format_u64(n);
    let len = digits.unicode_len();
    if len < width {
        let mut k: usize = 0;
        let ghost start = out@;
        while k < width - len
            invariant
                k <= width - len,
                len == digits@.len(),
                len < width,
                out@ == start + Seq::new(k as nat, |i: int| '0'),
            decreases width - len - k,
        {
            push_char(out, '0');
            proof {
                assert(start + Seq::new((k + 1) as nat, |i: int| '0') =~= start + Seq::new(
                    k as nat,
                    |i: int| '0',
                ).push('0'));
            }
            k += 1;
        }
        out.append(digits.as_str());
        proof {
            assert(start + Seq::new((width - len) as nat, |i: int| '0') + digits@ =~= start + (
            Seq::new((width - len) as nat, |i: int| '0') + digits@));
        }
    } else {
        out.append(digits.as_str());
    }
}

/// A date in the "%Y%m%d" form, as `chrono` writes it.
pub fn format_yyyymmdd(d: NaiveDate) -> (r: String)
    requires
        1 <= d.month <= 12,
        1 <= d.day <= 31,
    ensures
        r@ == yyyymmdd_text(d),
{
    let mut out = String::new();
    let y = d.year;
    if 0 <= y && y <= 9999 {
        push_padded(&mut out, y as u64, 4);
    } else if y < 0 {
        push_char(&mut out, '-');
        let m: i64 = 0 - (y as i64);
        push_padded(&mut out, m as u64, 4);
    } else {
        push_char(&mut out, '+');
        push_padded(&mut out, y as u64, 4);
    }
    proof {
        assert(Seq::<char>::empty() + year_text(y as int) =~= year_text(y as int));
    }
    push_padded(&mut out, d.month as u64, 2);
    push_padded(&mut out, d.day as u64, 2);
    out
}

} // verus!
