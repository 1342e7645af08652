//! The wall clock: the local hour and minute that drive the dashboard.

use chrono::Local;
use chrono::NaiveTime;
use chrono::Timelike;
use vstd::prelude::*;
use crate::text::digit_char;

verus! {

/// A reading of the local wall clock: an hour from 0 to 23 and a minute
/// from 0 to 59.
#[derive(Clone, Copy, Debug, PartialEq, Eq)]
pub struct WallClock {
    hour: u32,
    minute: u32,
}

/// The clock-face text of a time of day: two digits of the hour, a colon,
/// two digits of the minute.
pub open spec fn clock_face_text(hour: int, minute: int) -> Seq<char> {
    seq![
        digit_char(hour / 10),
        digit_char(hour % 10),
        ':',
        digit_char(minute / 10),
        digit_char(minute % 10),
    ]
}

/// Reads the local time with `chrono::Local::now` and takes its hour and
/// minute with `Timelike::hour` and `Timelike::minute`, which chrono
/// documents as a number from 0 to 23 and a number from 0 to 59. Which
/// numbers come back depends on when the call is made. chrono panics where
/// the system clock stands before 1970.
#[verifier::external_body]
fn local_hour_minute() -> (now: (u32, u32))
    ensures
        now.0 < 24,
        now.1 < 60,
{
    let now = Local::now();
    (now.hour(), now.minute())
}

/// Builds the time of day with `chrono::NaiveTime::from_hms_opt`, which
/// accepts every hour below 24 with every minute below 60, and formats it
/// with `NaiveTime::format` and the pattern `%H:%M`: for chrono `%H` is the
/// hour and `%M` the minute, each padded with a zero to two digits.
#[verifier::external_body]
fn format_hour_minute(hour: u32, minute: u32) -> (text: String)
    requires
        hour < 24,
        minute < 60,
    ensures
        text@ == clock_face_text(hour as int, minute as int),
{
    match NaiveTime::from_hms_opt(hour, minute, 0) {
        Some(time) => time.format("%H:%M").to_string(),
        None => String::new(),
    }
}

impl WallClock {
    #[verifier::type_invariant]
    spec fn in_range(self) -> bool {
        self.hour < 24 && self.minute < 60
    }

    /// The hour of the reading.
    pub closed spec fn hour_value(self) -> int {
        self.hour as int
    }

    /// The minute of the reading.
    pub closed spec fn minute_value(self) -> int {
        self.minute as int
    }

    /// The reading with the given hour and minute, if they are a time of day.
    pub fn new(hour: u32, minute: u32) -> (clock: Option<WallClock>)
        ensures
            clock is Some <==> hour < 24 && minute < 60,
            clock matches Some(c) ==> c.hour_value() == hour && c.minute_value() == minute,
    {
        if hour < 24 && minute < 60 {
            Some(WallClock { hour, minute })
        } else {
            None
        }
    }

    /// The local time at the moment of the call.
    pub fn now() -> (clock: WallClock)
        ensures
            0 <= clock.hour_value() < 24,
            0 <= clock.minute_value() < 60,
    {
        let (hour, minute) = local_hour_minute();
        WallClock { hour, minute }
    }

    /// The hour of the reading.
    pub fn hour(&self) -> (hour: u32)
        ensures
            hour == self.hour_value(),
            hour < 24,
    {
        proof {
            use_type_invariant(self);
        }
        self.hour
    }

    /// The minute of the reading.
    pub fn minute(&self) -> (minute: u32)
        ensures
            minute == self.minute_value(),
            minute < 60,
    {
        proof {
            use_type_invariant(self);
        }
        self.minute
    }

    /// The text that the clock face shows for the reading.
    pub fn face_text(&self) -> (text: String)
        ensures
            text@ == clock_face_text(self.hour_value(), self.minute_value()),
    {
        proof {
            use_type_invariant(self);
        }
        format_hour_minute(self.hour, self.minute)
    }
}

} // verus!
