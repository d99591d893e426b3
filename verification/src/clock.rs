//! Broken-down UTC time and the timestamp that frames and console lines carry.

use crate::decimal::{decimal_text, padded_text};
use vstd::prelude::*;

verus! {

#[verifier::external_type_specification]
#[verifier::external_body]
pub struct ExParseError(time::ParseError);

/// A calendar date and time of day broken down into its components, field
/// for field what `time::Tm` holds.
#[derive(Clone, Copy, Debug, PartialEq, Eq)]
pub struct Moment {
    /// Seconds after the minute
    pub sec: i32,
    /// Minutes after the hour
    pub min: i32,
    /// Hours after midnight
    pub hour: i32,
    /// Day of the month, from 1
    pub mday: i32,
    /// Months since January
    pub mon: i32,
    /// Years since 1900
    pub year: i32,
    /// Days since Sunday
    pub wday: i32,
    /// Days since January 1
    pub yday: i32,
    /// Daylight saving time flag
    pub isdst: i32,
    /// Seconds east of UTC
    pub utcoff: i32,
    /// Nanoseconds after the second
    pub nsec: i32,
}

impl Moment {
    /// The day of the week and the month are ones that exist.
    pub open spec fn in_calendar(self) -> bool {
        0 <= self.wday <= 6 && 0 <= self.mon <= 11
    }

    /// The calendar year fits the machine's integers.
    pub open spec fn year_fits(self) -> bool {
        self.year <= i32::MAX - 1900
    }
}

/// The layout of a timestamp: the sub-second field is always `000` and the
/// offset always UTC.
pub open spec fn timestamp_format() -> Seq<char> {
    "%Y-%m-%dT%H:%M:%S.000+00:00"@
}

/// The timestamp of a moment, `YYYY-MM-DDTHH:MM:SS.000+00:00`.
pub open spec fn timestamp_text(at: Moment) -> Seq<char> {
    decimal_text(at.year + 1900) + "-"@ + padded_text(at.mon + 1) + "-"@ + padded_text(
        at.mday as int,
    ) + "T"@ + padded_text(at.hour as int) + ":"@ + padded_text(at.min as int) + ":"@
        + padded_text(at.sec as int) + ".000+00:00"@
}

/// Calls `time::strftime` on a `time::Tm` with the fields of `at`. Trusted, for
/// the timestamp layout alone: the call fails exactly where the day of the
/// week or the month is out of range, which `time` tests before it formats;
/// otherwise the text is the year plus 1900 in decimal, then month plus one,
/// day, hour, minute and second, each padded with a zero to two characters,
/// between the layout's literal characters. The year bound keeps the
/// addition of 1900 within `i32`.
#[verifier::external_body]
fn strftime(format: &str, at: &Moment) -> (r: Result<String, time::ParseError>)
    requires
        format@ == timestamp_format(),
        at.year_fits(),
    ensures
        r is Ok <==> at.in_calendar(),
        r matches Ok(s) ==> s@ == timestamp_text(*at),
{
    let tm = time::Tm {
        tm_sec: at.sec,
        tm_min: at.min,
        tm_hour: at.hour,
        tm_mday: at.mday,
        tm_mon: at.mon,
        tm_year: at.year,
        tm_wday: at.wday,
        tm_yday: at.yday,
        tm_isdst: at.isdst,
        tm_utcoff: at.utcoff,
        tm_nsec: at.nsec,
    };
    time::strftime(format, &tm)
}

/// The timestamp of `at` in the syslog layout; `None` where the moment names
/// no day of the week or month, or a year beyond the machine's integers.
pub fn syslog_time_format(at: &Moment) -> (r: Option<String>)
    ensures
        r is Some <==> at.in_calendar() && at.year_fits(),
        r matches Some(s) ==> s@ == timestamp_text(*at),
{
    if at.year > i32::MAX - 1900 {
        return None;
    }
    match strftime("%Y-%m-%dT%H:%M:%S.000+00:00", at) {
        Ok(s) => Some(s),
        Err(_) => None,
    }
}

} // verus!
