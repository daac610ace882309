//! Times of day at minute resolution, and daily windows that may wrap past
//! midnight.
use crate::clock::{
    format_hms, hms_text, is_valid_hms, local_hour_minute, parse_hms, parsed_hms,
};
use vstd::prelude::*;

verus! {

/// A wall-clock time of day; the seconds are always zero.
#[derive(Clone, Copy, Debug, PartialEq, Eq, Structural)]
pub struct TimeOfDay {
    pub hour: u32,
    pub minute: u32,
}

/// The reason a time of day was refused.
#[derive(Clone, Copy, Debug, PartialEq, Eq, Structural)]
pub enum TimeError {
    /// The hour is above 23 or the minute above 59.
    InvalidTime,
    /// The text is not `HH:MM:SS` with the seconds at zero.
    MalformedText,
}

impl TimeOfDay {
    pub open spec fn wf(self) -> bool {
        self.hour < 24 && self.minute < 60
    }

    /// Order within the day: by hour, then by minute.
    pub open spec fn spec_lt(self, other: TimeOfDay) -> bool {
        self.hour < other.hour || (self.hour == other.hour && self.minute < other.minute)
    }

    pub open spec fn spec_ge(self, other: TimeOfDay) -> bool {
        !self.spec_lt(other)
    }

    /// The record text of this time.
    pub open spec fn text(self) -> Seq<char> {
        hms_text(self.hour, self.minute, 0)
    }

    /// The time that `s` denotes, where it is `HH:MM:SS` as chrono reads it
    /// with whole minutes.
    pub open spec fn from_text(s: Seq<char>) -> Option<TimeOfDay> {
        match parsed_hms(s) {
            Some((h, m, sec, nano)) => if sec == 0 && nano == 0 {
                Some(TimeOfDay { hour: h, minute: m })
            } else {
                None
            },
            None => None,
        }
    }

    /// A time from its hour (0 to 23) and minute (0 to 59).
    pub fn new(hour: u32, minute: u32) -> (r: Result<TimeOfDay, TimeError>)
        ensures
            (hour < 24 && minute < 60) ==> r == Ok::<TimeOfDay, TimeError>(
                TimeOfDay { hour, minute },
            ),
            !(hour < 24 && minute < 60) ==> r == Err::<TimeOfDay, TimeError>(
                TimeError::InvalidTime,
            ),
    {
        if is_valid_hms(hour, minute, 0) {
            Ok(TimeOfDay { hour, minute })
        } else {
            Err(TimeError::InvalidTime)
        }
    }

    /// Whether the hour and minute are in range.
    pub fn is_valid(&self) -> (r: bool)
        ensures
            r == self.wf(),
    {
        self.hour < 24 && self.minute < 60
    }

    /// The local time of day now, to the minute.
    pub fn now_local() -> (r: TimeOfDay)
        ensures
            r.wf(),
    {
        let (hour, minute) = local_hour_minute();
        TimeOfDay { hour, minute }
    }

    /// Whether `self` comes strictly before `other` in the day.
    pub fn lt(&self, other: &TimeOfDay) -> (r: bool)
        ensures
            r == self.spec_lt(*other),
    {
        self.hour < other.hour || (self.hour == other.hour && self.minute < other.minute)
    }

    /// Whether `self` comes at or after `other` in the day.
    pub fn ge(&self, other: &TimeOfDay) -> (r: bool)
        ensures
            r == self.spec_ge(*other),
    {
        !self.lt(other)
    }

    /// The text `HH:MM:SS` of this time, the seconds at zero.
    pub fn to_hms_string(&self) -> (r: String)
        requires
            self.wf(),
        ensures
            r@ == self.text(),
    {
        format_hms(self.hour, self.minute, 0)
    }

    /// Reads `HH:MM:SS`; a time with seconds other than zero is refused.
    pub fn parse(s: &str) -> (r: Result<TimeOfDay, TimeError>)
        ensures
            r matches Ok(t) ==> t.wf(),
            TimeOfDay::from_text(s@) matches Some(t) ==> r == Ok::<TimeOfDay, TimeError>(t),
            TimeOfDay::from_text(s@) is None ==> r == Err::<TimeOfDay, TimeError>(
                TimeError::MalformedText,
            ),
            forall|t: TimeOfDay| t.wf() && s@ == t.text() ==> r == Ok::<TimeOfDay, TimeError>(t),
    {
        match parse_hms(s) {
            Some((hour, minute, second, nano)) => {
                if second == 0 && nano == 0 {
                    Ok(TimeOfDay { hour, minute })
                } else {
                    Err(TimeError::MalformedText)
                }
            },
            None => Err(TimeError::MalformedText),
        }
    }
}

/// A daily window from `start` (inclusive) to `end` (exclusive), read as
/// wrapping through midnight: a time is inside when it is at or after
/// `start`, or before `end`.
#[derive(Clone, Copy, Debug, PartialEq, Eq, Structural)]
pub struct TimeWindow {
    pub start: TimeOfDay,
    pub end: TimeOfDay,
}

impl TimeWindow {
    pub open spec fn wf(self) -> bool {
        self.start.wf() && self.end.wf()
    }

    pub open spec fn spec_contains(self, now: TimeOfDay) -> bool {
        now.spec_ge(self.start) || now.spec_lt(self.end)
    }

    pub fn new(start: TimeOfDay, end: TimeOfDay) -> (r: TimeWindow)
        ensures
            r.start == start,
            r.end == end,
    {
        TimeWindow { start, end }
    }

    /// Whether `now` falls inside the window.
    pub fn contains(&self, now: TimeOfDay) -> (r: bool)
        ensures
            r == self.spec_contains(now),
            r == (now.spec_ge(self.start) || now.spec_lt(self.end)),
    {
        now.ge(&self.start) || now.lt(&self.end)
    }
}

/// A window whose start and end coincide covers the whole day.
pub proof fn lemma_equal_ends_cover_day(e: TimeOfDay, now: TimeOfDay)
    ensures
        (TimeWindow { start: e, end: e }).spec_contains(now),
{
}

} // verus!
