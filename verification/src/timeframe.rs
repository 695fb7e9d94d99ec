//! Civil instants and the due-date windows used to filter tasks.
//!
//! A task's due date and the reference instant are both carried as a
//! [`Moment`]: the absolute second paired with the civil year and
//! day-of-year the instant falls on in the zone it was rendered in.
//! [`TimeFrame::inside`] decides whether a due date falls in a named
//! window relative to the reference.

use vstd::prelude::*;

verus! {

/// Seconds in one civil day.
pub const SECONDS_PER_DAY: i64 = 86400;

/// Earliest supported civil year.
pub const MIN_YEAR: i32 = -9999;

/// Latest supported civil year.
pub const MAX_YEAR: i32 = 9999;

/// Lower bound on the absolute second of a supported instant
/// (midnight opening year -9999).
pub const MIN_UNIX_SECONDS: i64 = -377705116800;

/// Upper bound on the absolute second of a supported instant
/// (last second of year 9999).
pub const MAX_UNIX_SECONDS: i64 = 253402300799;

/// A civil instant: the absolute second since the epoch together with
/// the civil year and the day of that year the instant falls on.
#[derive(Clone, Copy, PartialEq, Eq, Structural, Debug)]
pub struct Moment {
    /// Seconds since 1970-01-01T00:00:00 UTC.
    pub unix_seconds: i64,
    /// Civil year the instant falls in.
    pub year: i32,
    /// Day of that year, counted from 1.
    pub day_of_year: u16,
}

/// Whether `year` is a leap year of the proleptic Gregorian calendar.
/// The year is shifted by 10000, a multiple of the 400-year cycle, so
/// the remainders are taken of a non-negative number.
pub open spec fn is_leap_year(year: int) -> bool {
    let shifted = year + 10000;
    shifted % 4 == 0 && (shifted % 100 != 0 || shifted % 400 == 0)
}

/// The number of days in `year`: 366 in a leap year, 365 otherwise.
pub open spec fn spec_days_in_year(year: int) -> int {
    if is_leap_year(year) {
        366
    } else {
        365
    }
}

/// The number of days in `year`: 366 in a leap year, 365 otherwise.
pub fn days_in_year(year: i32) -> (n: u16)
    requires
        MIN_YEAR <= year <= MAX_YEAR,
    ensures
        n == spec_days_in_year(year as int),
{
    let shifted: i32 = year + 10000;
    if shifted % 4 == 0 && (shifted % 100 != 0 || shifted % 400 == 0) {
        366
    } else {
        365
    }
}

impl Moment {
    /// A moment is well formed when its year, day of year, and absolute
    /// second all lie in the supported civil range.
    pub open spec fn wf(self) -> bool {
        &&& MIN_YEAR <= self.year <= MAX_YEAR
        &&& 1 <= self.day_of_year <= spec_days_in_year(self.year as int)
        &&& MIN_UNIX_SECONDS <= self.unix_seconds <= MAX_UNIX_SECONDS
    }

    /// Builds a moment from its three components.
    pub fn new(unix_seconds: i64, year: i32, day_of_year: u16) -> (m: Moment)
        requires
            MIN_YEAR <= year <= MAX_YEAR,
            1 <= day_of_year <= spec_days_in_year(year as int),
            MIN_UNIX_SECONDS <= unix_seconds <= MAX_UNIX_SECONDS,
        ensures
            m == (Moment { unix_seconds, year, day_of_year }),
            m.wf(),
    {
        Moment { unix_seconds, year, day_of_year }
    }
}

/// The civil year of the day after `today`.
pub open spec fn spec_tomorrow_year(today: Moment) -> int {
    if today.day_of_year < spec_days_in_year(today.year as int) {
        today.year as int
    } else {
        today.year as int + 1
    }
}

/// The day-of-year of the day after `today`.
pub open spec fn spec_tomorrow_day_of_year(today: Moment) -> int {
    if today.day_of_year < spec_days_in_year(today.year as int) {
        today.day_of_year as int + 1
    } else {
        1
    }
}

/// A named due-date window relative to a reference instant.
#[derive(Clone, Copy, PartialEq, Eq, Structural, Debug)]
pub enum TimeFrame {
    /// Due on the reference's calendar day or any earlier one: the
    /// backlog view.
    Today,
    /// Due exactly on the civil day after the reference.
    Tomorrow,
    /// Due strictly less than seven days after the reference,
    /// overdue tasks included.
    Week,
    /// Every task.
    All,
}

impl TimeFrame {
    /// Whether `due` falls inside this window relative to `today`.
    ///
    /// `Today` keeps every due date whose calendar day is not after
    /// the reference's — earlier years included — so overdue tasks
    /// stay visible; `Tomorrow` wants the exact calendar day after the
    /// reference; `Week` compares the signed distance in seconds
    /// against seven days, mirroring `Today`'s inclusion of overdue
    /// tasks.
    pub open spec fn spec_inside(self, today: Moment, due: Moment) -> bool {
        match self {
            TimeFrame::Today => {
                due.year < today.year || (due.year == today.year && due.day_of_year
                    <= today.day_of_year)
            },
            TimeFrame::Tomorrow => {
                spec_tomorrow_day_of_year(today) == due.day_of_year as int
                    && spec_tomorrow_year(today) == due.year as int
            },
            TimeFrame::Week => {
                due.unix_seconds - today.unix_seconds < 7 * (SECONDS_PER_DAY as int)
            },
            TimeFrame::All => true,
        }
    }

    /// Decides [`Self::spec_inside`] for well-formed moments.
    pub fn inside(&self, today: &Moment, due: &Moment) -> (r: bool)
        requires
            today.wf(),
            due.wf(),
        ensures
            r == self.spec_inside(*today, *due),
    {
        match self {
            TimeFrame::Today => {
                due.year < today.year || (due.year == today.year && due.day_of_year
                    <= today.day_of_year)
            },
            TimeFrame::Tomorrow => {
                let year_len: u16 = days_in_year(today.year);
                if today.day_of_year < year_len {
                    due.day_of_year == today.day_of_year + 1 && due.year == today.year
                } else {
                    due.day_of_year == 1 && due.year == today.year + 1
                }
            },
            TimeFrame::Week => due.unix_seconds - today.unix_seconds < 7 * SECONDS_PER_DAY,
            TimeFrame::All => true,
        }
    }
}

} // verus!
