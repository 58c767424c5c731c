//! The moment a file was last changed, and what a calendar makes of it.

use vstd::prelude::*;
use std::fmt::Write;
use chrono::Datelike;

verus! {

/// The moment a file was last changed.
#[derive(Clone, Copy, Debug, PartialEq, Eq, Structural)]
pub struct ModificationTime {
    /// Whole seconds since the start of 1970 in UTC; negative before it.
    pub secs: i64,
    /// Nanoseconds into that second.
    pub nanos: u32,
    /// What local time is ahead of UTC at that moment, in seconds.
    pub utc_offset: i32,
}

/// The pattern by which a time is shown: `YYYY-MM-DD HH:MM:SS`.
pub const TIMESTAMP_FORMAT: &'static str = "%Y-%m-%d %T";

/// The text that `chrono::DateTime::format` makes, by `pattern`, of the
/// moment `nanos` nanoseconds into second `secs` of the UNIX epoch, seen
/// `utc_offset` seconds east of UTC; `None` where chrono has no such moment
/// or no such offset, or cannot format by that pattern.
pub uninterp spec fn formatted_time(
    secs: i64,
    nanos: u32,
    utc_offset: i32,
    pattern: Seq<char>,
) -> Option<Seq<char>>;

/// The calendar year that `chrono::Datelike::year` gives for that moment at
/// that offset; `None` where chrono has no such moment or no such offset.
pub uninterp spec fn calendar_year(secs: i64, nanos: u32, utc_offset: i32) -> Option<i32>;

/// The calendar month, from 1 to 12, that `chrono::Datelike::month` gives
/// for that moment at that offset; `None` where chrono has no such moment or
/// no such offset.
pub uninterp spec fn calendar_month(secs: i64, nanos: u32, utc_offset: i32) -> Option<u32>;

/// Calls `chrono::DateTime::format` with `pattern` on the moment that
/// `chrono::DateTime::from_timestamp` makes of `secs` and `nanos`, moved to
/// the offset that `chrono::FixedOffset::east_opt` makes of `utc_offset`,
/// and writes out what it gives.
///
/// Trusted: that the text is a function of the four arguments alone, and
/// that there is none exactly where one of the two constructors refuses
/// its arguments or the pattern cannot be written out.
#[verifier::external_body]
pub(crate) fn format_time(secs: i64, nanos: u32, utc_offset: i32, pattern: &str) -> (text: Option<
    String,
>)
    ensures
        text is Some <==> formatted_time(secs, nanos, utc_offset, pattern@) is Some,
        text matches Some(t) ==> formatted_time(secs, nanos, utc_offset, pattern@) == Some(t@),
{
    let zone = chrono::FixedOffset::east_opt(utc_offset)?;
    let moment = chrono::DateTime::from_timestamp(secs, nanos)?.with_timezone(&zone);
    let mut text = String::new();
    write!(text, "{}", moment.format(pattern)).ok()?;
    Some(text)
}

/// Calls `chrono::Datelike::year` on the moment built as in [`format_time`].
///
/// Trusted: that the year is a function of the three numbers alone, and
/// that there is none exactly where one of the two constructors refuses
/// its arguments.
#[verifier::external_body]
pub(crate) fn year_of(secs: i64, nanos: u32, utc_offset: i32) -> (year: Option<i32>)
    ensures
        year == calendar_year(secs, nanos, utc_offset),
{
    let zone = chrono::FixedOffset::east_opt(utc_offset)?;
    let moment = chrono::DateTime::from_timestamp(secs, nanos)?.with_timezone(&zone);
    Some(moment.year())
}

/// Calls `chrono::Datelike::month` on the moment built as in
/// [`format_time`].
///
/// Trusted: that the month is a function of the three numbers alone, and
/// that there is none exactly where one of the two constructors refuses
/// its arguments.
#[verifier::external_body]
pub(crate) fn month_of(secs: i64, nanos: u32, utc_offset: i32) -> (month: Option<u32>)
    ensures
        month == calendar_month(secs, nanos, utc_offset),
{
    let zone = chrono::FixedOffset::east_opt(utc_offset)?;
    let moment = chrono::DateTime::from_timestamp(secs, nanos)?.with_timezone(&zone);
    Some(moment.month())
}

impl ModificationTime {
    /// The time as `YYYY-MM-DD HH:MM:SS` in local time, where a calendar
    /// can express it.
    pub open spec fn spec_text(&self) -> Option<Seq<char>> {
        formatted_time(self.secs, self.nanos, self.utc_offset, TIMESTAMP_FORMAT@)
    }

    /// The calendar year of the time, in local time.
    pub open spec fn spec_year(&self) -> Option<i32> {
        calendar_year(self.secs, self.nanos, self.utc_offset)
    }

    /// The calendar month of the time, in local time.
    pub open spec fn spec_month(&self) -> Option<u32> {
        calendar_month(self.secs, self.nanos, self.utc_offset)
    }

    /// The moment in nanoseconds since the start of 1970 in UTC.
    pub open spec fn nanos_since_epoch(&self) -> int {
        self.secs * NANOS_PER_SEC + self.nanos
    }

    /// The moment `secs` seconds and `nanos` nanoseconds after the start of
    /// 1970, seen from UTC. There is none where `nanos` is a second or
    /// more, or the moment is later than the seconds can count.
    pub fn after_epoch(secs: u64, nanos: u32) -> (time: Option<ModificationTime>)
        ensures
            time is Some <==> nanos < NANOS_PER_SEC && secs <= i64::MAX,
            time matches Some(t) ==> t.nanos < NANOS_PER_SEC && t.utc_offset == 0
                && t.nanos_since_epoch() == secs * NANOS_PER_SEC + nanos,
    {
        if nanos >= NANOS_PER_SEC || secs > i64::MAX as u64 {
            return None;
        }
        Some(ModificationTime { secs: secs as i64, nanos, utc_offset: 0 })
    }

    /// The moment `secs` seconds and `nanos` nanoseconds before the start
    /// of 1970, seen from UTC. There is none where `nanos` is a second or
    /// more, or the moment is earlier than the seconds can count.
    pub fn before_epoch(secs: u64, nanos: u32) -> (time: Option<ModificationTime>)
        ensures
            time is Some <==> nanos < NANOS_PER_SEC && secs <= i64::MAX,
            time matches Some(t) ==> t.nanos < NANOS_PER_SEC && t.utc_offset == 0
                && t.nanos_since_epoch() == -(secs * NANOS_PER_SEC + nanos),
    {
        if nanos >= NANOS_PER_SEC || secs > i64::MAX as u64 {
            return None;
        }
        let whole: i64 = -(secs as i64);
        if nanos == 0 {
            Some(ModificationTime { secs: whole, nanos: 0, utc_offset: 0 })
        } else {
            // Nanoseconds count forward, so the moment lies in the second
            // before.
            Some(ModificationTime { secs: whole - 1, nanos: NANOS_PER_SEC - nanos, utc_offset: 0 })
        }
    }
}

/// Nanoseconds in a second.
pub const NANOS_PER_SEC: u32 = 1_000_000_000;

} // verus!
