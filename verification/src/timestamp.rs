//! Normalizes the date/time fields carried by a zip entry.
//!
//! A zip entry stores its last-modified time as six integer fields (year,
//! month, day, hour, minute, second).  These fields may be malformed; a
//! malformed date falls back to 1970-01-01 and a malformed time-of-day to
//! 00:00:00 rather than failing record construction.  The archive gives no
//! timezone, so the fields are taken as UTC as they stand.

use crate::json::{pad2, pad4, push_pad2, push_pad4};
use vstd::prelude::*;
use vstd::string::StringExecFns;

verus! {

/// A calendar timestamp with UTC semantics, one field per zip time component.
#[derive(Clone, Copy, Debug, PartialEq, Eq, Structural)]
pub struct ZipTimestamp {
    pub year: u16,
    pub month: u8,
    pub day: u8,
    pub hour: u8,
    pub minute: u8,
    pub second: u8,
}

/// Whether `year` is a leap year in the proleptic Gregorian calendar.
pub open spec fn spec_is_leap_year(year: int) -> bool {
    year % 4 == 0 && (year % 100 != 0 || year % 400 == 0)
}

/// The number of days of month `month` (1 to 12) of year `year`.
pub open spec fn spec_days_in_month(year: int, month: int) -> int {
    if month == 2 {
        if spec_is_leap_year(year) {
            29
        } else {
            28
        }
    } else if month == 4 || month == 6 || month == 9 || month == 11 {
        30
    } else {
        31
    }
}

/// A valid Gregorian calendar date: month in range and day within the month.
pub open spec fn spec_valid_date(year: int, month: int, day: int) -> bool {
    &&& 1 <= month <= 12
    &&& 1 <= day <= spec_days_in_month(year, month)
}

/// A valid time of day, whole seconds only.
pub open spec fn spec_valid_time(hour: int, minute: int, second: int) -> bool {
    &&& 0 <= hour <= 23
    &&& 0 <= minute <= 59
    &&& 0 <= second <= 59
}

/// The normalized value of six raw zip time fields: a malformed date falls
/// back to 1970-01-01, a malformed time-of-day to 00:00:00, each
/// independently of the other.
pub open spec fn spec_normalize(
    year: u16,
    month: u8,
    day: u8,
    hour: u8,
    minute: u8,
    second: u8,
) -> ZipTimestamp {
    let date_ok = spec_valid_date(year as int, month as int, day as int);
    let time_ok = spec_valid_time(hour as int, minute as int, second as int);
    ZipTimestamp {
        year: if date_ok {
            year
        } else {
            1970
        },
        month: if date_ok {
            month
        } else {
            1
        },
        day: if date_ok {
            day
        } else {
            1
        },
        hour: if time_ok {
            hour
        } else {
            0
        },
        minute: if time_ok {
            minute
        } else {
            0
        },
        second: if time_ok {
            second
        } else {
            0
        },
    }
}

impl ZipTimestamp {
    /// The timestamp denotes a real calendar date and time of day.
    pub open spec fn well_formed(self) -> bool {
        &&& spec_valid_date(self.year as int, self.month as int, self.day as int)
        &&& spec_valid_time(self.hour as int, self.minute as int, self.second as int)
    }
}

fn is_leap_year(year: u16) -> (r: bool)
    ensures
        r == spec_is_leap_year(year as int),
{
    year % 4 == 0 && (year % 100 != 0 || year % 400 == 0)
}

fn days_in_month(year: u16, month: u8) -> (r: u8)
    requires
        1 <= month <= 12,
    ensures
        r as int == spec_days_in_month(year as int, month as int),
{
    if month == 2 {
        if is_leap_year(year) {
            29
        } else {
            28
        }
    } else if month == 4 || month == 6 || month == 9 || month == 11 {
        30
    } else {
        31
    }
}

/// Builds the normalized timestamp for six raw zip time fields, falling back
/// to the default date (1970-01-01) and the default time (00:00:00) where the
/// fields do not denote a real date or time of day.
pub fn normalize_datetime(year: u16, month: u8, day: u8, hour: u8, minute: u8, second: u8) -> (r:
    ZipTimestamp)
    ensures
        r == spec_normalize(year, month, day, hour, minute, second),
        r.well_formed(),
{
    let date_ok = 1 <= month && month <= 12 && 1 <= day && day <= days_in_month(year, month);
    let time_ok = hour <= 23 && minute <= 59 && second <= 59;
    ZipTimestamp {
        year: if date_ok {
            year
        } else {
            1970
        },
        month: if date_ok {
            month
        } else {
            1
        },
        day: if date_ok {
            day
        } else {
            1
        },
        hour: if time_ok {
            hour
        } else {
            0
        },
        minute: if time_ok {
            minute
        } else {
            0
        },
        second: if time_ok {
            second
        } else {
            0
        },
    }
}

/// The RFC-3339 text for `ts` with an explicit UTC offset: the year as at
/// least four digits, every other field as exactly two, as in
/// `1996-12-19T16:39:57+00:00`.
pub open spec fn rfc3339_chars(ts: ZipTimestamp) -> Seq<char> {
    pad4(ts.year as int) + "-"@ + pad2(ts.month as int) + "-"@ + pad2(ts.day as int) + "T"@ + pad2(
        ts.hour as int,
    ) + ":"@ + pad2(ts.minute as int) + ":"@ + pad2(ts.second as int) + "+00:00"@
}

/// Renders `ts` as RFC-3339 text with the UTC offset `+00:00`.
pub fn rfc3339_string(ts: &ZipTimestamp) -> (r: String)
    requires
        ts.well_formed(),
    ensures
        r@ == rfc3339_chars(*ts),
{
    let mut out = String::new();
    push_pad4(&mut out, ts.year);
    out.append("-");
    push_pad2(&mut out, ts.month);
    out.append("-");
    push_pad2(&mut out, ts.day);
    out.append("T");
    push_pad2(&mut out, ts.hour);
    out.append(":");
    push_pad2(&mut out, ts.minute);
    out.append(":");
    push_pad2(&mut out, ts.second);
    out.append("+00:00");
    proof {
        assert(out@ =~= rfc3339_chars(*ts));
    }
    out
}

/// The normalization of malformed fields is the defined default, never an
/// abort: whenever the date fields are not a real date, the normalized date
/// is 1970-01-01, and whenever the time fields are not a real time of day,
/// the normalized time is 00:00:00; a well-formed result comes out either
/// way.
pub proof fn lemma_malformed_fields_fall_back(
    year: u16,
    month: u8,
    day: u8,
    hour: u8,
    minute: u8,
    second: u8,
)
    ensures
        spec_normalize(year, month, day, hour, minute, second).well_formed(),
        !spec_valid_date(year as int, month as int, day as int) ==> {
            let r = spec_normalize(year, month, day, hour, minute, second);
            r.year == 1970 && r.month == 1 && r.day == 1
        },
        !spec_valid_time(hour as int, minute as int, second as int) ==> {
            let r = spec_normalize(year, month, day, hour, minute, second);
            r.hour == 0 && r.minute == 0 && r.second == 0
        },
{
}

} // verus!
