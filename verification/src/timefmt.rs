//! Rendering of a last-modified instant (seconds since the Unix epoch, UTC)
//! as the two display strings of a record: a `month/day/year` date and a
//! 12-hour `hour:minute AM|PM` clock time with zero-padded minutes.
//!
//! The calendar date (year, month, day) comes from chrono; the clock time is
//! plain modular arithmetic on the seconds value, computed and proved here.
use chrono::Datelike;
use chrono::TimeZone;
use vstd::prelude::*;

verus! {

/// The largest number of whole seconds after the Unix epoch that chrono's
/// date range admits: the last second of its greatest year, 262142.
pub const MAX_TIMESTAMP_SECS: u64 = 8210266876799;

/// The calendar year, as chrono computes it from the seconds value alone.
pub uninterp spec fn civil_year_of(secs: u64) -> u32;

/// The calendar month (1 to 12), as chrono computes it from the seconds value alone.
pub uninterp spec fn civil_month_of(secs: u64) -> u32;

/// The day of the month (1 to 31), as chrono computes it from the seconds value alone.
pub uninterp spec fn civil_day_of(secs: u64) -> u32;

/// Relies on chrono: `Utc.timestamp_opt(secs, 0)` turns a number of non-leap
/// seconds since the Unix epoch into a UTC date, returning `Single` for every
/// in-range value, and `Datelike::{year, month, day}` read the proleptic
/// Gregorian calendar fields of that date, with the documented ranges
/// (month 1 to 12, day 1 to 31; a non-negative timestamp is on or after
/// 1970-01-01). The fields depend on the seconds value alone.
#[verifier::external_body]
fn civil_date_of_secs(secs: u64) -> (r: (u32, u32, u32))
    requires
        secs <= MAX_TIMESTAMP_SECS,
    ensures
        r.0 == civil_year_of(secs),
        r.1 == civil_month_of(secs),
        r.2 == civil_day_of(secs),
        1970 <= r.0,
        1 <= r.1 <= 12,
        1 <= r.2 <= 31,
{
    let date = chrono::Utc.timestamp_opt(secs as i64, 0).unwrap();
    (date.year() as u32, date.month(), date.day())
}

/// Minute of the hour, 0 to 59.
pub open spec fn spec_minute_of(secs: u64) -> u64 {
    (secs / 60) % 60
}

/// Hour of the day on a 24-hour clock, 0 to 23.
pub open spec fn spec_hour24_of(secs: u64) -> u64 {
    (secs / 3600) % 24
}

/// Hour of the day on a 12-hour clock, 1 to 12: midnight and noon read 12.
pub open spec fn spec_hour12_of(secs: u64) -> u64 {
    if spec_hour24_of(secs) % 12 == 0 {
        12
    } else {
        spec_hour24_of(secs) % 12
    }
}

/// Whether the instant falls in the second half of its day.
pub open spec fn spec_is_pm(secs: u64) -> bool {
    spec_hour24_of(secs) >= 12
}

/// The minute rendered as exactly two digits: a leading zero below ten.
pub open spec fn spec_padded2(n: nat) -> Seq<char> {
    if n <= 9 {
        seq!['0'] + spec_digits(n)
    } else {
        spec_digits(n)
    }
}

/// The date string: `month/day/year`, each field in decimal without padding.
pub open spec fn spec_date_string(secs: u64) -> Seq<char> {
    spec_digits(civil_month_of(secs) as nat) + seq!['/'] + spec_digits(civil_day_of(secs) as nat)
        + seq!['/'] + spec_digits(civil_year_of(secs) as nat)
}

/// The time string: `hour:minute AM|PM` on a 12-hour clock, minutes padded
/// to two digits.
pub open spec fn spec_time_string(secs: u64) -> Seq<char> {
    spec_digits(spec_hour12_of(secs) as nat) + seq![':'] + spec_padded2(spec_minute_of(secs) as nat)
        + seq![' '] + (if spec_is_pm(secs) {
        seq!['P', 'M']
    } else {
        seq!['A', 'M']
    })
}

/// Renders the calendar date of the instant as `month/day/year`.
pub fn date_string(secs: u64) -> (s: String)
    requires
        secs <= MAX_TIMESTAMP_SECS,
    ensures
        s@ == spec_date_string(secs),
{
    let (year, month, day) = civil_date_of_secs(secs);
    let mut s = decimal_string(month as u64);
    s.append("/");
    let day_digits = decimal_string(day as u64);
    s.append(day_digits.as_str());
    s.append("/");
    let year_digits = decimal_string(year as u64);
    s.append(year_digits.as_str());
    proof {
        reveal_strlit("/");
        assert(s@ =~= spec_date_string(secs));
    }
    s
}

/// Renders the clock time of the instant on a 12-hour clock.
pub fn time_string(secs: u64) -> (s: String)
    ensures
        s@ == spec_time_string(secs),
{
    let hour24 = (secs / 3600) % 24;
    let hour12 = if hour24 % 12 == 0 {
        12u64
    } else {
        hour24 % 12
    };
    let minute = (secs / 60) % 60;
    let mut s = decimal_string(hour12);
    s.append(":");
    if minute <= 9 {
        s.append("0");
    }
    let minute_digits = decimal_string(minute);
    s.append(minute_digits.as_str());
    s.append(" ");
    if hour24 >= 12 {
        s.append("PM");
    } else {
        s.append("AM");
    }
    proof {
        reveal_strlit(":");
        reveal_strlit("0");
        reveal_strlit(" ");
        reveal_strlit("PM");
        reveal_strlit("AM");
        assert(s@ =~= spec_time_string(secs));
    }
    s
}

/// Decimal digits of `n`, most significant first, with no leading zeros
/// (a single `'0'` for zero).
pub open spec fn spec_digits(n: nat) -> Seq<char>
    decreases n,
{
    if n < 10 {
        seq![spec_digit_char(n)]
    } else {
        spec_digits(n / 10).push(spec_digit_char(n % 10))
    }
}

pub open spec fn spec_digit_char(d: nat) -> char {
    if d == 0 {
        '0'
    } else if d == 1 {
        '1'
    } else if d == 2 {
        '2'
    } else if d == 3 {
        '3'
    } else if d == 4 {
        '4'
    } else if d == 5 {
        '5'
    } else if d == 6 {
        '6'
    } else if d == 7 {
        '7'
    } else if d == 8 {
        '8'
    } else {
        '9'
    }
}

/// Renders `n` in decimal, most significant digit first.
pub fn decimal_string(n: u64) -> (s: String)
    ensures
        s@ == spec_digits(n as nat),
    decreases n,
{
    let d = n % 10;
    let ds: &str = if d == 0 {
        "0"
    } else if d == 1 {
        "1"
    } else if d == 2 {
        "2"
    } else if d == 3 {
        "3"
    } else if d == 4 {
        "4"
    } else if d == 5 {
        "5"
    } else if d == 6 {
        "6"
    } else if d == 7 {
        "7"
    } else if d == 8 {
        "8"
    } else {
        "9"
    };
    proof {
        reveal_strlit("0");
        reveal_strlit("1");
        reveal_strlit("2");
        reveal_strlit("3");
        reveal_strlit("4");
        reveal_strlit("5");
        reveal_strlit("6");
        reveal_strlit("7");
        reveal_strlit("8");
        reveal_strlit("9");
        assert(ds@ =~= seq![spec_digit_char((n % 10) as nat)]);
    }
    if n < 10 {
        let mut s = String::new();
        s.append(ds);
        proof {
            assert(s@ =~= spec_digits(n as nat));
        }
        s
    } else {
        let mut s = decimal_string(n / 10);
        s.append(ds);
        proof {
            assert(s@ =~= spec_digits(n as nat));
        }
        s
    }
}

} // verus!
