//! The refresh scheduler: which of the three refresh actions are due on each
//! tick of the one-minute clock.
//!
//! The clock face is refreshed on every tick, the weather on every tick
//! whose number is a multiple of the weather interval, and the air quality
//! once for each trigger hour. The scheduler only decides; the caller
//! performs what is due.

use vstd::arithmetic::div_mod::lemma_fundamental_div_mod;
use vstd::arithmetic::div_mod::lemma_fundamental_div_mod_converse;
use vstd::prelude::*;
use crate::clock::WallClock;

verus! {

/// The number of ticks from one weather refresh to the next.
pub const WEATHER_INTERVAL_TICKS: u32 = 60;

/// One of the three refreshes that a tick can ask for.
#[derive(Clone, Copy, Debug, PartialEq, Eq, Structural)]
pub enum RefreshAction {
    ClockFace,
    Weather,
    AirQuality,
}

/// The hours of the day at which the air quality is refreshed.
pub open spec fn trigger_hours() -> Set<int> {
    set![6, 15, 20]
}

/// Whether a credential turns the air-quality track on: it is there, and it
/// is not the placeholder that an unedited configuration holds.
pub open spec fn usable(credential: Option<&str>) -> bool {
    credential matches Some(key) && key@ != "your_airly_api_key_here"@
}

/// Whether a credential turns the air-quality track on.
pub fn credential_usable(credential: Option<&str>) -> (yes: bool)
    ensures
        yes == usable(credential),
{
    match credential {
        Some(key) => {
            let given = String::from_str(key);
            let placeholder = String::from_str("your_airly_api_key_here");
            !(given == placeholder)
        },
        None => false,
    }
}

/// What the scheduler remembers from one tick to the next.
pub struct SchedulerState {
    /// The number of ticks from one weather refresh to the next.
    pub weather_interval: nat,
    /// The ticks since the start or the last weather refresh.
    pub ticks_since_weather: nat,
    /// Whether the air-quality track is on. It never changes.
    pub air_quality_enabled: bool,
    /// The hour for which the air quality was last refreshed on a tick.
    pub last_aqi_hour_fired: Option<int>,
}

impl SchedulerState {
    /// The state of a scheduler that has seen no tick.
    pub open spec fn fresh(weather_interval: nat, air_quality_enabled: bool) -> SchedulerState {
        SchedulerState {
            weather_interval,
            ticks_since_weather: 0,
            air_quality_enabled,
            last_aqi_hour_fired: None,
        }
    }

    /// What holds of every state that a scheduler is ever in.
    pub open spec fn wf(self) -> bool {
        self.ticks_since_weather < self.weather_interval
    }

    /// Whether the next tick refreshes the weather.
    pub open spec fn weather_due(self) -> bool {
        self.ticks_since_weather + 1 == self.weather_interval
    }

    /// Whether a tick in the given hour refreshes the air quality: the
    /// track is on, the hour is a trigger hour, and it is not the hour for
    /// which the air quality was last refreshed.
    pub open spec fn air_quality_due(self, hour: int) -> bool {
        &&& self.air_quality_enabled
        &&& trigger_hours().contains(hour)
        &&& self.last_aqi_hour_fired != Some(hour)
    }

    /// What a tick in the given hour asks for: the clock face first, then
    /// the weather and the air quality as far as they are due.
    pub open spec fn tick_actions(self, hour: int) -> Seq<RefreshAction> {
        seq![RefreshAction::ClockFace] + (if self.weather_due() {
            seq![RefreshAction::Weather]
        } else {
            seq![]
        }) + (if self.air_quality_due(hour) {
            seq![RefreshAction::AirQuality]
        } else {
            seq![]
        })
    }

    /// The state after a tick in the given hour. The hour is remembered
    /// only where the tick refreshes the air quality.
    pub open spec fn after_tick(self, hour: int) -> SchedulerState {
        SchedulerState {
            weather_interval: self.weather_interval,
            ticks_since_weather: if self.weather_due() {
                0
            } else {
                self.ticks_since_weather + 1
            },
            air_quality_enabled: self.air_quality_enabled,
            last_aqi_hour_fired: if self.air_quality_due(hour) {
                Some(hour)
            } else {
                self.last_aqi_hour_fired
            },
        }
    }

    /// What the start of the scheduler asks for, before any tick: the clock
    /// face, the weather, and the air quality if its track is on.
    pub open spec fn startup_actions(self) -> Seq<RefreshAction> {
        seq![RefreshAction::ClockFace, RefreshAction::Weather] + (if self.air_quality_enabled {
            seq![RefreshAction::AirQuality]
        } else {
            seq![]
        })
    }

    /// The state after one tick in each of the given hours, in their order.
    pub open spec fn after_ticks(self, hours: Seq<int>) -> SchedulerState
        decreases hours.len(),
    {
        if hours.len() == 0 {
            self
        } else {
            self.after_ticks(hours.drop_last()).after_tick(hours.last())
        }
    }

    /// Whether, of one tick in each of the given hours, the one at position
    /// `at` refreshes the weather.
    pub open spec fn weather_fires_at(self, hours: Seq<int>, at: int) -> bool {
        self.after_ticks(hours.take(at)).weather_due()
    }

    /// Whether, of one tick in each of the given hours, the one at position
    /// `at` refreshes the air quality.
    pub open spec fn air_quality_fires_at(self, hours: Seq<int>, at: int) -> bool {
        self.after_ticks(hours.take(at)).air_quality_due(hours[at])
    }
}

/// The scheduler. It is made once, at the start, and then only ticks change
/// it.
#[derive(Debug)]
pub struct Scheduler {
    weather_interval: u32,
    ticks_since_weather: u32,
    air_quality_enabled: bool,
    last_aqi_hour_fired: Option<u32>,
}

/// What one tick found: the reading of the wall clock that it was decided
/// by, and the refreshes that are due.
#[derive(Debug)]
pub struct Tick {
    pub now: WallClock,
    pub actions: Vec<RefreshAction>,
}

impl View for Scheduler {
    type V = SchedulerState;

    closed spec fn view(&self) -> SchedulerState {
        SchedulerState {
            weather_interval: self.weather_interval as nat,
            ticks_since_weather: self.ticks_since_weather as nat,
            air_quality_enabled: self.air_quality_enabled,
            last_aqi_hour_fired: match self.last_aqi_hour_fired {
                Some(hour) => Some(hour as int),
                None => None,
            },
        }
    }
}

impl Scheduler {
    #[verifier::type_invariant]
    spec fn cycle_in_range(self) -> bool {
        self.ticks_since_weather < self.weather_interval
    }

    /// A scheduler that refreshes the weather every
    /// `WEATHER_INTERVAL_TICKS` ticks, and the air quality if the
    /// credential is usable.
    pub fn new(credential: Option<&str>) -> (scheduler: Scheduler)
        ensures
            scheduler@ == SchedulerState::fresh(
                WEATHER_INTERVAL_TICKS as nat,
                usable(credential),
            ),
    {
        Scheduler {
            weather_interval: WEATHER_INTERVAL_TICKS,
            ticks_since_weather: 0,
            air_quality_enabled: credential_usable(credential),
            last_aqi_hour_fired: None,
        }
    }

    /// A scheduler that refreshes the weather every `weather_interval`
    /// ticks; none where the interval is zero.
    pub fn with_weather_interval(weather_interval: u32, credential: Option<&str>) -> (scheduler:
        Option<Scheduler>)
        ensures
            scheduler is Some <==> weather_interval > 0,
            scheduler matches Some(s) ==> s@ == SchedulerState::fresh(
                weather_interval as nat,
                usable(credential),
            ),
    {
        if weather_interval == 0 {
            None
        } else {
            Some(
                Scheduler {
                    weather_interval,
                    ticks_since_weather: 0,
                    air_quality_enabled: credential_usable(credential),
                    last_aqi_hour_fired: None,
                },
            )
        }
    }

    /// Whether the air-quality track is on.
    pub fn air_quality_enabled(&self) -> (enabled: bool)
        ensures
            enabled == self@.air_quality_enabled,
    {
        self.air_quality_enabled
    }

    /// The hour for which the air quality was last refreshed on a tick.
    pub fn last_aqi_hour_fired(&self) -> (hour: Option<u32>)
        ensures
            match hour {
                Some(h) => self@.last_aqi_hour_fired == Some(h as int),
                None => self@.last_aqi_hour_fired is None,
            },
    {
        self.last_aqi_hour_fired
    }

    /// The refreshes to perform once at the start, before the first tick.
    /// They leave the scheduler as it is.
    pub fn startup_actions(&self) -> (actions: Vec<RefreshAction>)
        ensures
            actions@ == self@.startup_actions(),
    {
        let mut actions: Vec<RefreshAction> = Vec::new();
        actions.push(RefreshAction::ClockFace);
        actions.push(RefreshAction::Weather);
        if self.air_quality_enabled {
            actions.push(RefreshAction::AirQuality);
        }
        actions
    }

    /// One tick of the clock in the given hour of the day: says what is
    /// due, and remembers the tick.
    pub fn on_tick(&mut self, hour: u32) -> (actions: Vec<RefreshAction>)
        ensures
            final(self)@ == old(self)@.after_tick(hour as int),
            actions@ == old(self)@.tick_actions(hour as int),
            old(self)@.wf(),
            final(self)@.wf(),
    {
        proof {
            use_type_invariant(&*self);
        }
        let mut actions: Vec<RefreshAction> = Vec::new();
        actions.push(RefreshAction::ClockFace);
        let elapsed: u32 = self.ticks_since_weather + 1;
        if elapsed == self.weather_interval {
            self.ticks_since_weather = 0;
            actions.push(RefreshAction::Weather);
        } else {
            self.ticks_since_weather = elapsed;
        }
        let fired_for_this_hour = match self.last_aqi_hour_fired {
            Some(last) => last == hour,
            None => false,
        };
        if self.air_quality_enabled && (hour == 6 || hour == 15 || hour == 20)
            && !fired_for_this_hour {
            self.last_aqi_hour_fired = Some(hour);
            actions.push(RefreshAction::AirQuality);
        }
        actions
    }

    /// One tick of the clock at the moment of the call: reads the wall
    /// clock and ticks in its hour.
    pub fn tick(&mut self) -> (tick: Tick)
        ensures
            final(self)@ == old(self)@.after_tick(tick.now.hour_value()),
            tick.actions@ == old(self)@.tick_actions(tick.now.hour_value()),
            0 <= tick.now.hour_value() < 24,
            old(self)@.wf(),
            final(self)@.wf(),
    {
        let now = WallClock::now();
        let actions = self.on_tick(now.hour());
        Tick { now, actions }
    }
}

/// Every tick refreshes the clock face, and before anything else.
pub proof fn lemma_clock_face_comes_first(state: SchedulerState, hour: int)
    ensures
        state.tick_actions(hour).len() >= 1,
        state.tick_actions(hour)[0] == RefreshAction::ClockFace,
{
}

/// A tick changes neither the weather interval nor whether the air-quality
/// track is on, and it keeps the count of ticks below the interval.
pub proof fn lemma_tick_keeps_settings(state: SchedulerState, hour: int)
    requires
        state.wf(),
    ensures
        state.after_tick(hour).wf(),
        state.after_tick(hour).weather_interval == state.weather_interval,
        state.after_tick(hour).air_quality_enabled == state.air_quality_enabled,
{
}

/// The state before the tick at position `at + 1` is the state before the
/// tick at position `at`, after that tick.
pub proof fn lemma_ticks_unfold(start: SchedulerState, hours: Seq<int>, at: int)
    requires
        0 <= at < hours.len(),
    ensures
        start.after_ticks(hours.take(at + 1)) == start.after_ticks(hours.take(at)).after_tick(
            hours[at],
        ),
{
    assert(hours.take(at + 1).drop_last() =~= hours.take(at));
}

/// Ticks change neither the weather interval nor whether the air-quality
/// track is on, and the count of ticks since the last weather refresh goes
/// round the interval.
pub proof fn lemma_ticks_go_round(start: SchedulerState, hours: Seq<int>)
    requires
        start.wf(),
    ensures
        start.after_ticks(hours).wf(),
        start.after_ticks(hours).weather_interval == start.weather_interval,
        start.after_ticks(hours).air_quality_enabled == start.air_quality_enabled,
        start.after_ticks(hours).ticks_since_weather == (start.ticks_since_weather as int
            + hours.len()) % (start.weather_interval as int),
    decreases hours.len(),
{
    let interval = start.weather_interval as int;
    if hours.len() == 0 {
        lemma_fundamental_div_mod_converse(
            start.ticks_since_weather as int,
            interval,
            0,
            start.ticks_since_weather as int,
        );
    } else {
        lemma_ticks_go_round(start, hours.drop_last());
        let seen = start.ticks_since_weather + hours.len() - 1;
        lemma_step_round(seen, interval);
    }
}

/// One more than a number is a multiple of `interval` exactly where the
/// number's remainder is the last before `interval`, and else it has the
/// next remainder.
proof fn lemma_step_round(seen: int, interval: int)
    requires
        0 <= seen,
        0 < interval,
    ensures
        (seen + 1) % interval == 0 <==> seen % interval + 1 == interval,
        seen % interval + 1 != interval ==> (seen + 1) % interval == seen % interval + 1,
        0 <= seen % interval < interval,
{
    let quotient = seen / interval;
    let remainder = seen % interval;
    lemma_fundamental_div_mod(seen, interval);
    assert(interval * quotient == quotient * interval) by (nonlinear_arith);
    if remainder + 1 == interval {
        assert(seen + 1 == (quotient + 1) * interval + 0) by (nonlinear_arith)
            requires
                seen == quotient * interval + remainder,
                remainder + 1 == interval,
        ;
        lemma_fundamental_div_mod_converse(seen + 1, interval, quotient + 1, 0);
    } else {
        lemma_fundamental_div_mod_converse(seen + 1, interval, quotient, remainder + 1);
    }
}

/// Counting the ticks from the last weather refresh, or from the start
/// where there was none yet, the weather is refreshed on exactly the ticks
/// whose number is a multiple of the weather interval. Nothing else that
/// happens on a tick hastens or delays it.
pub proof fn lemma_weather_cadence(start: SchedulerState, hours: Seq<int>, at: int)
    requires
        start.wf(),
        0 <= at < hours.len(),
    ensures
        start.weather_fires_at(hours, at) <==> (start.ticks_since_weather + at + 1) % (
        start.weather_interval as int) == 0,
{
    lemma_ticks_go_round(start, hours.take(at));
    lemma_step_round(start.ticks_since_weather + at, start.weather_interval as int);
}

/// A scheduler that has seen no tick refreshes the weather on the ticks
/// `interval`, `2 * interval` and so on, the first tick being tick 1.
pub proof fn lemma_weather_cadence_from_start(
    weather_interval: nat,
    air_quality_enabled: bool,
    hours: Seq<int>,
    at: int,
)
    requires
        weather_interval > 0,
        0 <= at < hours.len(),
    ensures
        SchedulerState::fresh(weather_interval, air_quality_enabled).weather_fires_at(hours, at)
            <==> (at + 1) % (weather_interval as int) == 0,
{
    lemma_weather_cadence(SchedulerState::fresh(weather_interval, air_quality_enabled), hours, at);
}

/// Where the air-quality track is off, neither the start nor any tick ever
/// asks for an air-quality refresh.
pub proof fn lemma_disabled_track_never_fires(start: SchedulerState, hours: Seq<int>, at: int)
    requires
        start.wf(),
        !start.air_quality_enabled,
        0 <= at < hours.len(),
    ensures
        !start.startup_actions().contains(RefreshAction::AirQuality),
        !start.air_quality_fires_at(hours, at),
        !start.after_ticks(hours.take(at)).tick_actions(hours[at]).contains(
            RefreshAction::AirQuality,
        ),
{
    lemma_ticks_go_round(start, hours.take(at));
}

/// A tick that follows a tick in the same hour never refreshes the air
/// quality.
pub proof fn lemma_no_refresh_twice_in_a_row(state: SchedulerState, hour: int)
    ensures
        !state.after_tick(hour).air_quality_due(hour),
{
}

/// From the tick after an air-quality refresh on, the hour of that refresh
/// stays remembered as long as no tick refreshes the air quality for
/// another hour.
proof fn lemma_hour_stays_remembered(
    start: SchedulerState,
    hours: Seq<int>,
    first: int,
    upto: int,
)
    requires
        0 <= first < upto <= hours.len(),
        start.air_quality_fires_at(hours, first),
        forall|between: int|
            first < between < upto && hours[between] != hours[first]
                ==> !#[trigger] start.air_quality_fires_at(hours, between),
    ensures
        start.after_ticks(hours.take(upto)).last_aqi_hour_fired == Some(hours[first]),
    decreases upto - first,
{
    lemma_ticks_unfold(start, hours, upto - 1);
    if upto - 1 > first {
        lemma_hour_stays_remembered(start, hours, first, upto - 1);
        if hours[upto - 1] != hours[first] {
            assert(!start.air_quality_fires_at(hours, upto - 1));
        }
    }
}

/// The air quality is refreshed at most once for each hour: between two
/// refreshes for the same hour lies a refresh for another hour.
pub proof fn lemma_refresh_again_needs_another_hour(
    start: SchedulerState,
    hours: Seq<int>,
    first: int,
    second: int,
)
    requires
        0 <= first < second < hours.len(),
        hours[first] == hours[second],
        start.air_quality_fires_at(hours, first),
        start.air_quality_fires_at(hours, second),
    ensures
        exists|between: int|
            first < between < second && hours[between] != hours[first]
                && #[trigger] start.air_quality_fires_at(hours, between),
{
    if forall|between: int|
        first < between < second && hours[between] != hours[first]
            ==> !#[trigger] start.air_quality_fires_at(hours, between) {
        lemma_hour_stays_remembered(start, hours, first, second);
    }
}

/// While the hour stays the same, the air quality is refreshed at most
/// once, however many ticks fall in the hour.
pub proof fn lemma_one_refresh_while_hour_stays(
    start: SchedulerState,
    hours: Seq<int>,
    first: int,
    second: int,
)
    requires
        0 <= first < second < hours.len(),
        forall|at: int| first <= at <= second ==> hours[at] == hours[first],
        start.air_quality_fires_at(hours, first),
    ensures
        !start.air_quality_fires_at(hours, second),
{
    if start.air_quality_fires_at(hours, second) {
        lemma_refresh_again_needs_another_hour(start, hours, first, second);
    }
}

} // verus!
