//! Calendar dates and UTC timestamps for the dashboard.

use vstd::prelude::*;
use crate::text::{padded_text, push_padded};
use crate::send::smtp::unix_time;

verus! {

broadcast use vstd::string::group_string_axioms;

/// `y` is a leap year of the Gregorian calendar.
pub open spec fn is_leap(y: int) -> bool {
    (y % 4 == 0 && y % 100 != 0) || y % 400 == 0
}

/// The number of days of year `y`.
pub open spec fn year_len(y: int) -> int {
    if is_leap(y) { 366 } else { 365 }
}

/// The number of days of month `m` (1-based) of year `y`.
pub open spec fn month_len(y: int, m: int) -> int {
    if m == 2 {
        if is_leap(y) { 29 } else { 28 }
    } else if m == 4 || m == 6 || m == 9 || m == 11 {
        30
    } else {
        31
    }
}

/// The days from 1 January 1970 to 1 January of year `y` (for `y` from
/// 1970 on).
pub open spec fn days_before_year(y: int) -> int
    decreases y - 1970,
{
    if y <= 1970 {
        0
    } else {
        days_before_year(y - 1) + year_len(y - 1)
    }
}

/// The days from 1 January to the first day of month `m` of year `y`.
pub open spec fn days_before_month(y: int, m: int) -> int
    decreases m,
{
    if m <= 1 {
        0
    } else {
        days_before_month(y, m - 1) + month_len(y, m - 1)
    }
}

/// The number of days from 1 January 1970 to the date `(y, m, d)`.
pub open spec fn days_from_civil(y: int, m: int, d: int) -> int {
    days_before_year(y) + days_before_month(y, m) + d - 1
}

/// `(y, m, d)` is a date from 1970 on: a month from 1 to 12, a day within
/// its month.
pub open spec fn valid_date(y: int, m: int, d: int) -> bool {
    y >= 1970 && 1 <= m <= 12 && 1 <= d <= month_len(y, m)
}

proof fn lemma_days_before_year_grows(y: int)
    requires
        y >= 1970,
    ensures
        days_before_year(y) >= (y - 1970) * 365,
    decreases y - 1970,
{
    if y > 1970 {
        lemma_days_before_year_grows(y - 1);
    }
}

proof fn lemma_months_fill_year(y: int)
    ensures
        days_before_month(y, 13) == year_len(y),
{
    reveal_with_fuel(days_before_month, 13);
}

/// The date `days` days after 1 January 1970: year, month (1-12) and day
/// of month (1-31), in the Gregorian calendar.
pub fn days_to_date(days: u64) -> (r: (u64, u64, u64))
    ensures
        valid_date(r.0 as int, r.1 as int, r.2 as int),
        days_from_civil(r.0 as int, r.1 as int, r.2 as int) == days,
{
    let mut y: u64 = 1970;
    let mut r: u64 = days;
    loop
        invariant
            1970 <= y,
            r <= days,
            days_before_year(y as int) + r == days,
        ensures
            1970 <= y,
            days_before_year(y as int) + r == days,
            r < year_len(y as int),
        decreases r,
    {
        proof {
            lemma_days_before_year_grows(y as int);
            assert(days_before_year(y as int) >= (y - 1970) * 365);
            assert((y - 1970) * 365 <= days);
        }
        let diy: u64 = if (y % 4 == 0 && y % 100 != 0) || y % 400 == 0 { 366 } else { 365 };
        if r < diy {
            break;
        }
        r = r - diy;
        y = y + 1;
    }
    let leap = (y % 4 == 0 && y % 100 != 0) || y % 400 == 0;
    let mut m: u64 = 0;
    proof {
        lemma_months_fill_year(y as int);
    }
    loop
        invariant
            m < 12,
            1970 <= y,
            days_before_year(y as int) + days_before_month(y as int, (m + 1) as int) + r == days,
            r < year_len(y as int) - days_before_month(y as int, (m + 1) as int),
            leap == is_leap(y as int),
            days_before_month(y as int, 13) == year_len(y as int),
        ensures
            m < 12,
            days_before_year(y as int) + days_before_month(y as int, (m + 1) as int) + r == days,
            r < month_len(y as int, (m + 1) as int),
        decreases 12 - m,
    {
        let md: u64 = if m == 1 {
            if leap { 29 } else { 28 }
        } else if m == 3 || m == 5 || m == 8 || m == 10 {
            30
        } else {
            31
        };
        assert(md == month_len(y as int, (m + 1) as int));
        if r < md {
            break;
        }
        r = r - md;
        m = m + 1;
        assert(m < 12) by {
            if m == 12 {
                assert(days_before_month(y as int, 13) == days_before_month(y as int, 12) + month_len(y as int, 12));
            }
        }
    }
    (y, m + 1, r + 1)
}

/// The UTC timestamp text of `secs` seconds after the epoch:
/// `YYYY-MM-DD HH:MM:SS UTC`, the year padded to four digits.
pub open spec fn utc_text(secs: u64, y: u64, mo: u64, d: u64) -> Seq<char> {
    let t = secs % 86400;
    padded_text(y as nat, 4) + "-"@ + padded_text(mo as nat, 2) + "-"@ + padded_text(d as nat, 2) + " "@
        + padded_text((t / 3600) as nat, 2) + ":"@ + padded_text(((t % 3600) / 60) as nat, 2) + ":"@
        + padded_text((t % 60) as nat, 2) + " UTC"@
}

/// The UTC timestamp text of a time given in seconds since the epoch.
pub fn format_utc(secs: u64) -> (s: String)
    ensures
        exists|y: u64, mo: u64, d: u64|
            valid_date(y as int, mo as int, d as int) && days_from_civil(y as int, mo as int, d as int)
                == secs / 86400 && s@ == #[trigger] utc_text(secs, y, mo, d),
{
    let days = secs / 86400;
    let t = secs % 86400;
    let (y, mo, d) = days_to_date(days);
    let mut s = String::new();
    push_padded(&mut s, y, 4);
    s.append("-");
    push_padded(&mut s, mo, 2);
    s.append("-");
    push_padded(&mut s, d, 2);
    s.append(" ");
    push_padded(&mut s, t / 3600, 2);
    s.append(":");
    push_padded(&mut s, (t % 3600) / 60, 2);
    s.append(":");
    push_padded(&mut s, t % 60, 2);
    s.append(" UTC");
    assert(s@ == utc_text(secs, y, mo, d));
    s
}

/// The current time as a UTC timestamp text.
pub fn now_string() -> (s: String)
    ensures
        exists|secs: u64, y: u64, mo: u64, d: u64|
            valid_date(y as int, mo as int, d as int) && days_from_civil(y as int, mo as int, d as int)
                == secs / 86400 && s@ == #[trigger] utc_text(secs, y, mo, d),
{
    let (secs, _) = unix_time();
    format_utc(secs)
}

} // verus!
