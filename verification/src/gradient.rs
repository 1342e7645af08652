//! The background gradient: fixed by the phase of the day, and by the
//! weather only while it is day.

use vstd::prelude::*;
use crate::phase::get_time_phase;
use crate::phase::phase_of;
use crate::phase::TimePhase;

verus! {

/// The two colours of the background gradient, each as red, green and blue.
#[derive(Clone, Copy, Debug, PartialEq, Eq)]
pub struct GradientColors {
    pub start: (u8, u8, u8),
    pub end: (u8, u8, u8),
}

/// What the weather looks like, as far as the daytime gradient tells it apart.
#[derive(Clone, Copy, Debug, PartialEq, Eq, Structural)]
pub enum WeatherClass {
    Rain,
    Snow,
    Cloudy,
    Clear,
}

/// The weather codes of drizzle, rain, rain showers and thunderstorms.
pub open spec fn rain_codes() -> Set<int> {
    set![51, 53, 55, 61, 63, 65, 80, 81, 82, 95, 96, 99]
}

/// The weather codes of snowfall, snow grains and snow showers.
pub open spec fn snow_codes() -> Set<int> {
    set![71, 73, 75, 77, 85, 86]
}

/// The weather codes of clouds and fog.
pub open spec fn cloudy_codes() -> Set<int> {
    set![2, 3, 45, 48]
}

/// The class of a weather code: the set that holds it, or `Clear` where
/// none does.
pub open spec fn class_of(code: int) -> WeatherClass {
    if rain_codes().contains(code) {
        WeatherClass::Rain
    } else if snow_codes().contains(code) {
        WeatherClass::Snow
    } else if cloudy_codes().contains(code) {
        WeatherClass::Cloudy
    } else {
        WeatherClass::Clear
    }
}

/// The gradient of a day with the given weather.
pub open spec fn day_gradient(class: WeatherClass) -> GradientColors {
    match class {
        WeatherClass::Rain => GradientColors { start: (91, 75, 138), end: (60, 47, 88) },
        WeatherClass::Snow => GradientColors { start: (168, 192, 255), end: (63, 43, 150) },
        WeatherClass::Cloudy => GradientColors { start: (127, 141, 161), end: (84, 99, 119) },
        WeatherClass::Clear => GradientColors { start: (77, 163, 255), end: (43, 111, 214) },
    }
}

/// The gradient of a phase under a weather code. The phase comes first: the
/// code counts only by day.
pub open spec fn gradient_of(phase: TimePhase, code: int) -> GradientColors {
    match phase {
        TimePhase::Night => GradientColors { start: (11, 29, 58), end: (10, 25, 48) },
        TimePhase::Sunrise => GradientColors { start: (255, 207, 113), end: (255, 140, 66) },
        TimePhase::Sunset => GradientColors { start: (255, 159, 104), end: (46, 26, 71) },
        TimePhase::Day => day_gradient(class_of(code)),
    }
}

/// Classifies a weather code for the daytime gradient.
pub fn weather_class(code: i32) -> (class: WeatherClass)
    ensures
        class == class_of(code as int),
{
    match code {
        51 | 53 | 55 | 61 | 63 | 65 | 80 | 81 | 82 | 95 | 96 | 99 => WeatherClass::Rain,
        71 | 73 | 75 | 77 | 85 | 86 => WeatherClass::Snow,
        2 | 3 | 45 | 48 => WeatherClass::Cloudy,
        _ => WeatherClass::Clear,
    }
}

/// The gradient for the given phase of the day and weather code.
pub fn gradient_for(phase: TimePhase, code: i32) -> (gradient: GradientColors)
    ensures
        gradient == gradient_of(phase, code as int),
{
    match phase {
        TimePhase::Night => GradientColors { start: (11, 29, 58), end: (10, 25, 48) },
        TimePhase::Sunrise => GradientColors { start: (255, 207, 113), end: (255, 140, 66) },
        TimePhase::Sunset => GradientColors { start: (255, 159, 104), end: (46, 26, 71) },
        TimePhase::Day => match weather_class(code) {
            WeatherClass::Rain => GradientColors { start: (91, 75, 138), end: (60, 47, 88) },
            WeatherClass::Snow => GradientColors { start: (168, 192, 255), end: (63, 43, 150) },
            WeatherClass::Cloudy => GradientColors {
                start: (127, 141, 161),
                end: (84, 99, 119),
            },
            WeatherClass::Clear => GradientColors { start: (77, 163, 255), end: (43, 111, 214) },
        },
    }
}

/// The gradient for the weather code at the moment of the call: that of the
/// phase in which the local hour lies.
pub fn compute_gradient(weather_code: i32) -> (gradient: GradientColors)
    ensures
        exists|hour: int|
            0 <= hour < 24 && gradient == gradient_of(phase_of(hour), weather_code as int),
{
    let phase = get_time_phase();
    gradient_for(phase, weather_code)
}

/// No weather code lies in two of the three sets, so the class of a code
/// says which set holds it: `Rain`, `Snow` and `Cloudy` stand for the codes
/// of their sets, and `Clear` for every code that is in none.
pub proof fn lemma_class_names_the_set(code: int)
    ensures
        class_of(code) == WeatherClass::Rain <==> rain_codes().contains(code),
        class_of(code) == WeatherClass::Snow <==> snow_codes().contains(code),
        class_of(code) == WeatherClass::Cloudy <==> cloudy_codes().contains(code),
        class_of(code) == WeatherClass::Clear <==> !rain_codes().contains(code)
            && !snow_codes().contains(code) && !cloudy_codes().contains(code),
{
}

/// By night, at sunrise and at sunset the gradient is the same under every
/// weather code.
pub proof fn lemma_gradient_ignores_weather_outside_day(phase: TimePhase, code: int, other: int)
    requires
        phase != TimePhase::Day,
    ensures
        gradient_of(phase, code) == gradient_of(phase, other),
{
}

/// By day two weather codes of the same class have the same gradient.
pub proof fn lemma_day_gradient_follows_class(code: int, other: int)
    requires
        class_of(code) == class_of(other),
    ensures
        gradient_of(TimePhase::Day, code) == gradient_of(TimePhase::Day, other),
{
}

} // verus!
