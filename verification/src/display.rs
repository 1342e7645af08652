//! What is pushed to the display surface: one update for each of its
//! fields, computed from the readings before anything is drawn.

use vstd::prelude::*;
use crate::clock::clock_face_text;
use crate::clock::WallClock;
use crate::condition::condition_text;
use crate::condition::icon_of;
use crate::condition::icon_path_text;
use crate::condition::weather_code_to_condition;
use crate::condition::weather_code_to_icon_path;
use crate::gateway::AirQualitySnapshot;
use crate::gateway::FetchError;
use crate::gateway::WeatherSnapshot;
use crate::gradient::compute_gradient;
use crate::gradient::gradient_of;
use crate::gradient::GradientColors;
use crate::phase::phase_of;
use crate::text::append_decimal;
use crate::text::decimal_text;

verus! {

/// One push to the display surface. Each sets one field, and the surface
/// takes them in any order.
#[derive(Debug, PartialEq, Eq)]
pub enum DisplayUpdate {
    TimeText(String),
    TemperatureText(String),
    ConditionText(String),
    /// The path of the image to show.
    ConditionIcon(String),
    GradientStart((u8, u8, u8)),
    GradientEnd((u8, u8, u8)),
    AirQualityText(String),
    AqiValue(i32),
}

/// A `DisplayUpdate` with its text as a sequence of characters.
pub enum DisplayUpdateView {
    TimeText(Seq<char>),
    TemperatureText(Seq<char>),
    ConditionText(Seq<char>),
    ConditionIcon(Seq<char>),
    GradientStart((u8, u8, u8)),
    GradientEnd((u8, u8, u8)),
    AirQualityText(Seq<char>),
    AqiValue(int),
}

impl View for DisplayUpdate {
    type V = DisplayUpdateView;

    open spec fn view(&self) -> DisplayUpdateView {
        match *self {
            DisplayUpdate::TimeText(text) => DisplayUpdateView::TimeText(text@),
            DisplayUpdate::TemperatureText(text) => DisplayUpdateView::TemperatureText(text@),
            DisplayUpdate::ConditionText(text) => DisplayUpdateView::ConditionText(text@),
            DisplayUpdate::ConditionIcon(path) => DisplayUpdateView::ConditionIcon(path@),
            DisplayUpdate::GradientStart(color) => DisplayUpdateView::GradientStart(color),
            DisplayUpdate::GradientEnd(color) => DisplayUpdateView::GradientEnd(color),
            DisplayUpdate::AirQualityText(text) => DisplayUpdateView::AirQualityText(text@),
            DisplayUpdate::AqiValue(value) => DisplayUpdateView::AqiValue(value as int),
        }
    }
}

/// The views of a list of updates, in the order of the list.
pub open spec fn views(updates: Seq<DisplayUpdate>) -> Seq<DisplayUpdateView> {
    updates.map_values(|update: DisplayUpdate| update@)
}

/// The temperature as the display shows it: the whole degrees and the
/// degree sign.
pub open spec fn temperature_text(degrees: int) -> Seq<char> {
    decimal_text(degrees) + "\u{b0}"@
}

/// The temperature as the display shows it.
pub fn temperature_label(degrees: i32) -> (label: String)
    ensures
        label@ == temperature_text(degrees as int),
{
    let mut label = String::new();
    append_decimal(&mut label, degrees);
    label.append("\u{b0}");
    label
}

/// The update of the clock face for a reading of the wall clock.
pub fn clock_face_update(now: &WallClock) -> (update: DisplayUpdate)
    ensures
        update@ == DisplayUpdateView::TimeText(
            clock_face_text(now.hour_value(), now.minute_value()),
        ),
{
    DisplayUpdate::TimeText(now.face_text())
}

/// What the display shows of a weather snapshot under a gradient:
/// temperature, condition, icon, and the two ends of the gradient, in this
/// order.
pub open spec fn weather_views(snapshot: WeatherSnapshot, gradient: GradientColors) -> Seq<
    DisplayUpdateView,
> {
    seq![
        DisplayUpdateView::TemperatureText(temperature_text(snapshot.temperature as int)),
        DisplayUpdateView::ConditionText(condition_text(snapshot.code as int)),
        DisplayUpdateView::ConditionIcon(icon_path_text(icon_of(snapshot.code as int))),
        DisplayUpdateView::GradientStart(gradient.start),
        DisplayUpdateView::GradientEnd(gradient.end),
    ]
}

/// The updates that show a weather snapshot under the given gradient.
pub fn render_weather(snapshot: &WeatherSnapshot, gradient: GradientColors) -> (updates: Vec<
    DisplayUpdate,
>)
    ensures
        views(updates@) == weather_views(*snapshot, gradient),
{
    let mut updates: Vec<DisplayUpdate> = Vec::new();
    updates.push(DisplayUpdate::TemperatureText(temperature_label(snapshot.temperature)));
    updates.push(DisplayUpdate::ConditionText(weather_code_to_condition(snapshot.code)));
    updates.push(DisplayUpdate::ConditionIcon(weather_code_to_icon_path(snapshot.code)));
    updates.push(DisplayUpdate::GradientStart(gradient.start));
    updates.push(DisplayUpdate::GradientEnd(gradient.end));
    updates
}

/// The updates that follow a weather fetch. A failed fetch pushes nothing:
/// the display keeps what it showed. A snapshot is shown under the gradient
/// of the moment, that of the phase in which the local hour lies.
pub fn weather_updates(outcome: &Result<WeatherSnapshot, FetchError>) -> (updates: Vec<
    DisplayUpdate,
>)
    ensures
        match *outcome {
            Ok(snapshot) => exists|hour: int|
                0 <= hour < 24 && views(updates@) == weather_views(
                    snapshot,
                    gradient_of(phase_of(hour), snapshot.code as int),
                ),
            Err(_) => updates@.len() == 0,
        },
{
    match outcome {
        Ok(snapshot) => {
            let gradient = compute_gradient(snapshot.code);
            render_weather(snapshot, gradient)
        },
        Err(_) => Vec::new(),
    }
}

/// What the display shows of an air-quality snapshot: its label, then its
/// value.
pub open spec fn air_quality_views(snapshot: AirQualitySnapshot) -> Seq<DisplayUpdateView> {
    seq![
        DisplayUpdateView::AirQualityText(snapshot.status_label@),
        DisplayUpdateView::AqiValue(snapshot.caqi_value as int),
    ]
}

/// The updates that follow an air-quality fetch. A failed fetch pushes
/// nothing: the display keeps what it showed.
pub fn air_quality_updates(outcome: &Result<AirQualitySnapshot, FetchError>) -> (updates: Vec<
    DisplayUpdate,
>)
    ensures
        match *outcome {
            Ok(snapshot) => views(updates@) == air_quality_views(snapshot),
            Err(_) => updates@.len() == 0,
        },
{
    let mut updates: Vec<DisplayUpdate> = Vec::new();
    match outcome {
        Ok(snapshot) => {
            updates.push(DisplayUpdate::AirQualityText(snapshot.status_label.clone()));
            updates.push(DisplayUpdate::AqiValue(snapshot.caqi_value));
        },
        Err(_) => {},
    }
    updates
}

} // verus!
