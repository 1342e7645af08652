//! The four phases of the day that the background follows.

use vstd::prelude::*;
use crate::clock::WallClock;

verus! {

/// The part of the day that a wall-clock hour falls in.
#[derive(Clone, Copy, Debug, PartialEq, Eq, Structural)]
pub enum TimePhase {
    Night,
    Sunrise,
    Day,
    Sunset,
}

/// Night lasts from 21 o'clock to the end of the day and from midnight to 5.
pub open spec fn in_night(hour: int) -> bool {
    21 <= hour < 24 || 0 <= hour < 5
}

/// Sunrise lasts from 5 o'clock to 8.
pub open spec fn in_sunrise(hour: int) -> bool {
    5 <= hour < 8
}

/// Day lasts from 8 o'clock to 17.
pub open spec fn in_day(hour: int) -> bool {
    8 <= hour < 17
}

/// Sunset lasts from 17 o'clock to 21.
pub open spec fn in_sunset(hour: int) -> bool {
    17 <= hour < 21
}

/// The phase of an hour. What is neither night, sunrise nor sunset is day,
/// a number that is no hour of the day included.
pub open spec fn phase_of(hour: int) -> TimePhase {
    if in_night(hour) {
        TimePhase::Night
    } else if in_sunrise(hour) {
        TimePhase::Sunrise
    } else if in_sunset(hour) {
        TimePhase::Sunset
    } else {
        TimePhase::Day
    }
}

/// The phase of the given wall-clock hour.
pub fn time_phase(hour: u32) -> (phase: TimePhase)
    ensures
        phase == phase_of(hour as int),
{
    if hour < 5 {
        TimePhase::Night
    } else if hour < 8 {
        TimePhase::Sunrise
    } else if hour < 17 {
        TimePhase::Day
    } else if hour < 21 {
        TimePhase::Sunset
    } else if hour < 24 {
        TimePhase::Night
    } else {
        TimePhase::Day
    }
}

/// The phase of the day at the moment of the call. It is never kept from
/// one call to the next: the phase may change while the dashboard runs.
pub fn get_time_phase() -> (phase: TimePhase)
    ensures
        exists|hour: int| 0 <= hour < 24 && phase == phase_of(hour),
{
    let now = WallClock::now();
    let hour = now.hour();
    time_phase(hour)
}

/// The four ranges of hours cut the day into four parts: every hour of the
/// day lies in exactly one of them, and its phase is the one whose range it
/// lies in.
pub proof fn lemma_phases_partition_day(hour: int)
    requires
        0 <= hour < 24,
    ensures
        in_night(hour) || in_sunrise(hour) || in_day(hour) || in_sunset(hour),
        !(in_night(hour) && in_sunrise(hour)),
        !(in_night(hour) && in_day(hour)),
        !(in_night(hour) && in_sunset(hour)),
        !(in_sunrise(hour) && in_day(hour)),
        !(in_sunrise(hour) && in_sunset(hour)),
        !(in_day(hour) && in_sunset(hour)),
        phase_of(hour) == TimePhase::Night <==> in_night(hour),
        phase_of(hour) == TimePhase::Sunrise <==> in_sunrise(hour),
        phase_of(hour) == TimePhase::Day <==> in_day(hour),
        phase_of(hour) == TimePhase::Sunset <==> in_sunset(hour),
{
}

} // verus!
