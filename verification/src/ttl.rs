//! The time-to-live parser: a user-supplied string becomes an absolute
//! expiry timestamp.
//!
//! Four literal forms are tried first — `YYYY-MM-DD HH:MM:SS`,
//! `YYYY/MM/DD HH:MM:SS`, and the two date-only forms read as midnight —
//! each interpreted in the machine's local time zone; failing those, the
//! string is read as a relative duration ("2 years 3 days") added to `now`.
//! The grammar itself is recognised by verified code; only the local-time
//! interpretation and the duration vocabulary are outside calls.

use vstd::prelude::*;

use chrono::TimeZone;

use crate::errors::AppError;

verus! {

/// A decimal digit.
pub open spec fn is_digit(c: char) -> bool {
    '0' <= c && c <= '9'
}

/// The value of a decimal digit.
pub open spec fn digit(c: char) -> int {
    c as int - '0' as int
}

/// The value of the two digits at `i`.
pub open spec fn num2(s: Seq<char>, i: int) -> int {
    10 * digit(s[i]) + digit(s[i + 1])
}

/// The value of the four digits at `i`.
pub open spec fn num4(s: Seq<char>, i: int) -> int {
    1000 * digit(s[i]) + 100 * digit(s[i + 1]) + 10 * digit(s[i + 2]) + digit(s[i + 3])
}

/// A leap year of the proleptic Gregorian calendar.
pub open spec fn is_leap_year(y: int) -> bool {
    (y % 4 == 0 && y % 100 != 0) || y % 400 == 0
}

/// The day count of month `m` of year `y`.
pub open spec fn days_in_month(y: int, m: int) -> int {
    if m == 2 {
        if is_leap_year(y) {
            29
        } else {
            28
        }
    } else if m == 4 || m == 6 || m == 9 || m == 11 {
        30
    } else {
        31
    }
}

/// A real calendar date.
pub open spec fn valid_date_fields(y: int, m: int, d: int) -> bool {
    1 <= m <= 12 && 1 <= d <= days_in_month(y, m)
}

/// `YYYY<sep>MM<sep>DD`, four then two then two digits, naming a real date.
pub open spec fn matches_date(s: Seq<char>, sep: char) -> bool {
    &&& s.len() == 10
    &&& is_digit(s[0]) && is_digit(s[1]) && is_digit(s[2]) && is_digit(s[3])
    &&& s[4] == sep
    &&& is_digit(s[5]) && is_digit(s[6])
    &&& s[7] == sep
    &&& is_digit(s[8]) && is_digit(s[9])
    &&& valid_date_fields(num4(s, 0), num2(s, 5), num2(s, 8))
}

/// `HH:MM:SS`, naming a time of day.
pub open spec fn matches_time(s: Seq<char>) -> bool {
    &&& s.len() == 8
    &&& is_digit(s[0]) && is_digit(s[1])
    &&& s[2] == ':'
    &&& is_digit(s[3]) && is_digit(s[4])
    &&& s[5] == ':'
    &&& is_digit(s[6]) && is_digit(s[7])
    &&& num2(s, 0) <= 23 && num2(s, 3) <= 59 && num2(s, 6) <= 59
}

/// A date, one space, and a time of day.
pub open spec fn matches_datetime(s: Seq<char>, sep: char) -> bool {
    &&& s.len() == 19
    &&& matches_date(s.subrange(0, 10), sep)
    &&& s[10] == ' '
    &&& matches_time(s.subrange(11, 19))
}

/// Any of the four accepted literal forms: a full date-time or a bare date,
/// with `-` or `/` separating the date fields.
pub open spec fn matches_civil(s: Seq<char>) -> bool {
    ||| matches_datetime(s, '-')
    ||| matches_datetime(s, '/')
    ||| matches_date(s, '-')
    ||| matches_date(s, '/')
}

/// What a successful parse of the TTL string `s` may return: in the
/// duration forms the exact instant `now` plus the named duration; in the
/// civil forms any instant, since the local time zone decides it.
pub open spec fn admissible_expiry(s: Seq<char>, now: i64, t: i64) -> bool {
    !matches_civil(s) ==> (duration_secs(s) matches Some(d) && t == now + d)
}

/// A civil (local) date and time of day, before any time zone is applied.
/// A bare date reads as midnight.
pub struct CivilDateTime {
    pub year: u32,
    pub month: u32,
    pub day: u32,
    pub hour: u32,
    pub minute: u32,
    pub second: u32,
}

impl CivilDateTime {
    /// The fields name a real date and time of day.
    pub open spec fn wf(self) -> bool {
        &&& self.year <= 9999
        &&& valid_date_fields(self.year as int, self.month as int, self.day as int)
        &&& self.hour <= 23
        &&& self.minute <= 59
        &&& self.second <= 59
    }
}

/// The value of a digit character, or nothing.
fn digit_val(c: char) -> (r: Option<u32>)
    ensures
        r is Some <==> is_digit(c),
        r matches Some(v) ==> v == digit(c),
{
    if '0' <= c && c <= '9' {
        Some(c as u32 - 48)
    } else {
        None
    }
}

/// The two-digit number at `i`, or nothing.
fn read2(s: &str, i: usize) -> (r: Option<u32>)
    requires
        i + 2 <= s@.len(),
        s@.len() <= usize::MAX,
    ensures
        r is Some <==> is_digit(s@[i as int]) && is_digit(s@[i + 1]),
        r matches Some(v) ==> v == num2(s@, i as int),
{
    match (digit_val(s.get_char(i)), digit_val(s.get_char(i + 1))) {
        (Some(a), Some(b)) => Some(10 * a + b),
        _ => None,
    }
}

/// The four-digit number at `i`, or nothing.
fn read4(s: &str, i: usize) -> (r: Option<u32>)
    requires
        i + 4 <= s@.len(),
        s@.len() <= usize::MAX,
    ensures
        r is Some <==> is_digit(s@[i as int]) && is_digit(s@[i + 1]) && is_digit(s@[i + 2])
            && is_digit(s@[i + 3]),
        r matches Some(v) ==> v == num4(s@, i as int),
{
    match (read2(s, i), read2(s, i + 2)) {
        (Some(a), Some(b)) => Some(100 * a + b),
        _ => None,
    }
}

/// The day count of month `m` of year `y`.
fn days_in_month_of(y: u32, m: u32) -> (d: u32)
    requires
        1 <= m <= 12,
    ensures
        d == days_in_month(y as int, m as int),
{
    if m == 2 {
        if (y % 4 == 0 && y % 100 != 0) || y % 400 == 0 {
            29
        } else {
            28
        }
    } else if m == 4 || m == 6 || m == 9 || m == 11 {
        30
    } else {
        31
    }
}

/// Recognise the four literal forms. Returns the civil fields exactly when
/// the string matches one of them; a bare date reads as midnight.
pub fn parse_civil(s: &str) -> (r: Option<CivilDateTime>)
    ensures
        r is Some <==> matches_civil(s@),
        r matches Some(c) ==> c.wf() && c.year == num4(s@, 0) && c.month == num2(s@, 5) && c.day
            == num2(s@, 8),
        r matches Some(c) ==> (s@.len() == 19 ==> c.hour == num2(s@, 11) && c.minute == num2(
            s@,
            14,
        ) && c.second == num2(s@, 17)),
        r matches Some(c) ==> (s@.len() == 10 ==> c.hour == 0 && c.minute == 0 && c.second == 0),
{
    let n = s.unicode_len();
    if n != 10 && n != 19 {
        return None;
    }
    let sep = s.get_char(4);
    if sep != '-' && sep != '/' {
        return None;
    }
    if s.get_char(7) != sep {
        return None;
    }
    let year = match read4(s, 0) {
        Some(v) => v,
        None => {
            return None;
        },
    };
    let month = match read2(s, 5) {
        Some(v) => v,
        None => {
            return None;
        },
    };
    let day = match read2(s, 8) {
        Some(v) => v,
        None => {
            return None;
        },
    };
    if month < 1 || month > 12 {
        return None;
    }
    if day < 1 || day > days_in_month_of(year, month) {
        return None;
    }
    proof {
        assert(s@.subrange(0, 10) =~= s@.take(10));
    }
    if n == 10 {
        proof {
            assert(s@.take(10) =~= s@);
            assert(matches_date(s@, sep));
        }
        return Some(CivilDateTime { year, month, day, hour: 0, minute: 0, second: 0 });
    }
    if s.get_char(10) != ' ' || s.get_char(13) != ':' || s.get_char(16) != ':' {
        return None;
    }
    let hour = match read2(s, 11) {
        Some(v) => v,
        None => {
            return None;
        },
    };
    let minute = match read2(s, 14) {
        Some(v) => v,
        None => {
            return None;
        },
    };
    let second = match read2(s, 17) {
        Some(v) => v,
        None => {
            return None;
        },
    };
    if hour > 23 || minute > 59 || second > 59 {
        return None;
    }
    proof {
        let t = s@.subrange(11, 19);
        assert(t.len() == 8);
        assert(forall|j: int| 0 <= j < 8 ==> t[j] == s@[11 + j]);
        assert(matches_time(t));
        assert(matches_date(s@.subrange(0, 10), sep));
        assert(matches_datetime(s@, sep));
    }
    Some(CivilDateTime { year, month, day, hour, minute, second })
}

/// What `humantime::parse_duration` accepts: the duration named by the
/// string, in whole seconds, a function of the characters alone.
pub uninterp spec fn duration_secs(s: Seq<char>) -> Option<u64>;

/// Relies on `humantime::parse_duration`: a pure parse of the duration
/// vocabulary ("2 years 3 days 4h"); its whole-second count is returned.
#[verifier::external_body]
fn parse_duration_secs(s: &str) -> (r: Option<u64>)
    ensures
        r == duration_secs(s@),
{
    humantime::parse_duration(s).ok().map(|d| d.as_secs())
}

/// Relies on `chrono::Local::with_ymd_and_hms` and
/// `chrono::DateTime::timestamp`: the civil fields interpreted in the
/// machine's local time zone, as seconds since the Unix epoch; nothing when
/// that local time does not exist or is ambiguous there. The result depends
/// on the machine's time zone, so nothing more is stated.
#[verifier::external_body]
fn local_civil_to_utc(c: &CivilDateTime) -> (r: Option<i64>) {
    chrono::Local.with_ymd_and_hms(c.year as i32, c.month, c.day, c.hour, c.minute, c.second)
        .single()
        .map(|dt| dt.timestamp())
}

/// Parse a time-to-live string into an absolute expiry timestamp: one of the
/// four literal forms read as local time, else a relative duration added to
/// `now`. Everything else — including a duration that would overflow the
/// clock — is a TTL-format error.
pub fn parse_ttl(s: &str, now: i64) -> (r: Result<i64, AppError>)
    ensures
        matches_civil(s@) ==> (r is Ok || (r matches Err(e) && e is TtlFormat)),
        !matches_civil(s@) ==> (match duration_secs(s@) {
            Some(d) => if d <= i64::MAX && now + d <= i64::MAX {
                r matches Ok(t) && t == now + d
            } else {
                r matches Err(e) && e is TtlFormat
            },
            None => r matches Err(e) && e is TtlFormat,
        }),
{
    match parse_civil(s) {
        Some(c) => match local_civil_to_utc(&c) {
            Some(t) => Ok(t),
            None => Err(AppError::TtlFormat),
        },
        None => match parse_duration_secs(s) {
            Some(d) => {
                if d <= i64::MAX as u64 {
                    match now.checked_add(d as i64) {
                        Some(t) => Ok(t),
                        None => Err(AppError::TtlFormat),
                    }
                } else {
                    Err(AppError::TtlFormat)
                }
            },
            None => Err(AppError::TtlFormat),
        },
    }
}

} // verus!
