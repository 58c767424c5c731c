//! What a walk of the storage directory finds, and how a listing picks and
//! orders it.

use vstd::prelude::*;
use crate::text::str_equal;
use crate::time::{month_of, year_of, ModificationTime, NANOS_PER_SEC};

verus! {

/// A stored file as a walk of the storage directory found it.
#[derive(Clone, Debug, PartialEq, Eq)]
pub struct DirectoryEntry {
    /// The path of the file, where it is text.
    pub path: Option<String>,
    /// When the file was last changed.
    pub modification_time: ModificationTime,
    /// The size of the file in bytes.
    pub size: u64,
}

/// One item of a directory, as a walk reads it.
#[derive(Clone, Debug, PartialEq, Eq)]
pub enum Listed {
    /// A directory, by its name within the directory read.
    Directory { name: String },
    /// Anything that is no directory.
    File(DirectoryEntry),
}

/// Which files a listing shows, by the local date of their last change.
#[derive(Clone, Copy, Debug, PartialEq, Eq, Structural)]
pub enum DateFilter {
    /// Every file.
    All,
    /// The files last changed in the given year.
    Year(i32),
    /// The files last changed in the given year and month.
    YearMonth(i32, u32),
}

/// The key by which a listing is ordered; the larger comes first.
#[derive(Clone, Copy, Debug, PartialEq, Eq, Structural)]
pub enum SortBy {
    /// The time of the last change: the newest file first.
    Date,
    /// The size: the largest file first.
    Size,
}

impl SortBy {
    /// The order that a request names: by size where it says `size`, by
    /// date where it says anything else or nothing.
    pub open spec fn spec_from_query(sort: Option<Seq<char>>) -> SortBy {
        if sort == Some("size"@) {
            SortBy::Size
        } else {
            SortBy::Date
        }
    }

    /// The order that a request names in its query.
    pub fn from_query(sort: Option<&str>) -> (by: SortBy)
        ensures
            by == SortBy::spec_from_query(
                match sort {
                    Some(text) => Some(text@),
                    None => None,
                },
            ),
    {
        match sort {
            Some(text) => if str_equal(text, "size") {
                SortBy::Size
            } else {
                SortBy::Date
            },
            None => SortBy::Date,
        }
    }
}

impl DateFilter {
    /// Whether a file last changed at `time` is shown.
    pub open spec fn spec_matches(&self, time: ModificationTime) -> bool {
        match self {
            DateFilter::All => true,
            DateFilter::Year(year) => time.spec_year() == Some(*year),
            DateFilter::YearMonth(year, month) => time.spec_year() == Some(*year)
                && time.spec_month() == Some(*month),
        }
    }

    /// The filter that a request names by the year and the month in its
    /// path: every file where it names no year, and a month only together
    /// with a year.
    pub open spec fn spec_from_segments(year: Option<i32>, month: Option<u32>) -> DateFilter {
        match (year, month) {
            (None, _) => DateFilter::All,
            (Some(y), None) => DateFilter::Year(y),
            (Some(y), Some(m)) => DateFilter::YearMonth(y, m),
        }
    }

    /// The filter that a request names by the year and the month in its
    /// path.
    pub fn from_segments(year: Option<i32>, month: Option<u32>) -> (filter: DateFilter)
        ensures
            filter == DateFilter::spec_from_segments(year, month),
    {
        match year {
            None => DateFilter::All,
            Some(y) => match month {
                None => DateFilter::Year(y),
                Some(m) => DateFilter::YearMonth(y, m),
            },
        }
    }

    /// Whether a file last changed at `time` is shown.
    pub fn matches(&self, time: &ModificationTime) -> (shown: bool)
        ensures
            shown == self.spec_matches(*time),
    {
        match self {
            DateFilter::All => true,
            DateFilter::Year(year) => {
                match year_of(time.secs, time.nanos, time.utc_offset) {
                    Some(y) => y == *year,
                    None => false,
                }
            },
            DateFilter::YearMonth(year, month) => {
                let same_year = match year_of(time.secs, time.nanos, time.utc_offset) {
                    Some(y) => y == *year,
                    None => false,
                };
                let same_month = match month_of(time.secs, time.nanos, time.utc_offset) {
                    Some(m) => m == *month,
                    None => false,
                };
                same_year && same_month
            },
        }
    }
}

/// Whether a key is at least as large as another: an entry with key `a` may
/// stand before one with key `b`.
pub open spec fn key_ge(a: int, b: int) -> bool {
    a >= b
}

/// Whether a key is larger than another: an entry with key `a` has to stand
/// before one with key `b`.
pub open spec fn key_gt(a: int, b: int) -> bool {
    a > b
}

impl DirectoryEntry {
    /// The key of the entry in a listing ordered by `by`: the moment of its
    /// last change, in nanoseconds since the start of 1970, or its size in
    /// bytes.
    pub open spec fn sort_key(&self, by: SortBy) -> int {
        match by {
            SortBy::Date => self.modification_time.nanos_since_epoch(),
            SortBy::Size => self.size as int,
        }
    }

    /// Whether this entry may stand before `other` in a listing ordered by
    /// `by`: it is no older, or no smaller.
    pub fn comes_first(&self, other: &DirectoryEntry, by: SortBy) -> (first: bool)
        ensures
            first == key_ge(self.sort_key(by), other.sort_key(by)),
    {
        match by {
            SortBy::Date => {
                let a = &self.modification_time;
                let b = &other.modification_time;
                assert(NANOS_PER_SEC == 1_000_000_000);
                let mine: i128 = (a.secs as i128) * 1_000_000_000 + (a.nanos as i128);
                let theirs: i128 = (b.secs as i128) * 1_000_000_000 + (b.nanos as i128);
                mine >= theirs
            },
            SortBy::Size => self.size >= other.size,
        }
    }
}

} // verus!
