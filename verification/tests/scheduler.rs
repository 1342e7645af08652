use ambient_dashboard::display::air_quality_updates;
use ambient_dashboard::display::render_weather;
use ambient_dashboard::display::weather_updates;
use ambient_dashboard::display::DisplayUpdate;
use ambient_dashboard::gateway::after_station_lookup;
use ambient_dashboard::gateway::weather_result;
use ambient_dashboard::gateway::AirQualitySnapshot;
use ambient_dashboard::gateway::FetchError;
use ambient_dashboard::gateway::FetchErrorKind;
use ambient_dashboard::gateway::HttpReply;
use ambient_dashboard::gateway::HttpStatus;
use ambient_dashboard::gateway::LookupStep;
use ambient_dashboard::gateway::WeatherSnapshot;
use ambient_dashboard::gradient::gradient_for;
use ambient_dashboard::phase::TimePhase;
use ambient_dashboard::scheduler::credential_usable;
use ambient_dashboard::scheduler::RefreshAction;
use ambient_dashboard::scheduler::Scheduler;
use ambient_dashboard::scheduler::WEATHER_INTERVAL_TICKS;

fn air_quality_fires(scheduler: &mut Scheduler, hours: &[u32]) -> Vec<bool> {
    hours
        .iter()
        .map(|hour| scheduler.on_tick(*hour).contains(&RefreshAction::AirQuality))
        .collect()
}

#[test]
fn a_credential_counts_unless_missing_or_placeholder() {
    assert!(credential_usable(Some("0123456789abcdef")));
    assert!(credential_usable(Some("")));
    assert!(credential_usable(Some("your_airly_api_key_here ")));
    assert!(!credential_usable(Some("your_airly_api_key_here")));
    assert!(!credential_usable(None));
    assert!(Scheduler::new(Some("k")).air_quality_enabled());
    assert!(!Scheduler::new(Some("your_airly_api_key_here")).air_quality_enabled());
    assert!(!Scheduler::new(None).air_quality_enabled());
}

#[test]
fn the_start_refreshes_everything_that_is_on() {
    assert_eq!(
        Scheduler::new(Some("k")).startup_actions(),
        vec![RefreshAction::ClockFace, RefreshAction::Weather, RefreshAction::AirQuality]
    );
    assert_eq!(
        Scheduler::new(None).startup_actions(),
        vec![RefreshAction::ClockFace, RefreshAction::Weather]
    );
}

#[test]
fn the_start_does_not_count_as_a_refresh_for_its_hour() {
    let mut scheduler = Scheduler::new(Some("k"));
    let _ = scheduler.startup_actions();
    assert_eq!(scheduler.last_aqi_hour_fired(), None);
    assert_eq!(
        scheduler.on_tick(6),
        vec![RefreshAction::ClockFace, RefreshAction::AirQuality]
    );
    assert_eq!(scheduler.last_aqi_hour_fired(), Some(6));
}

#[test]
fn every_tick_refreshes_the_clock_face_first() {
    let mut scheduler = Scheduler::with_weather_interval(1, Some("k")).unwrap();
    for hour in [0, 6, 6, 15, 20, 23, 24, 99] {
        let actions = scheduler.on_tick(hour);
        assert_eq!(actions[0], RefreshAction::ClockFace);
        assert_eq!(actions.iter().filter(|a| **a == RefreshAction::ClockFace).count(), 1);
    }
}

#[test]
fn the_weather_is_refreshed_every_sixty_ticks() {
    assert_eq!(WEATHER_INTERVAL_TICKS, 60);
    let mut scheduler = Scheduler::new(None);
    for tick in 1..=600u32 {
        let due = scheduler.on_tick(12).contains(&RefreshAction::Weather);
        assert_eq!(due, tick % 60 == 0, "tick {}", tick);
    }
}

#[test]
fn the_weather_interval_can_be_ten_ticks() {
    let mut scheduler = Scheduler::with_weather_interval(10, None).unwrap();
    for tick in 1..=100u32 {
        let due = scheduler.on_tick(3).contains(&RefreshAction::Weather);
        assert_eq!(due, tick % 10 == 0, "tick {}", tick);
    }
}

#[test]
fn an_interval_of_one_tick_refreshes_on_every_tick() {
    let mut scheduler = Scheduler::with_weather_interval(1, None).unwrap();
    for _ in 0..5 {
        assert_eq!(
            scheduler.on_tick(12),
            vec![RefreshAction::ClockFace, RefreshAction::Weather]
        );
    }
}

#[test]
fn an_interval_of_no_ticks_is_refused() {
    assert!(Scheduler::with_weather_interval(0, None).is_none());
    assert!(Scheduler::with_weather_interval(0, Some("k")).is_none());
    assert!(Scheduler::with_weather_interval(u32::MAX, None).is_some());
}

#[test]
fn sixty_ticks_in_a_trigger_hour_refresh_the_air_quality_once() {
    let mut scheduler = Scheduler::new(Some("k"));
    let fired = air_quality_fires(&mut scheduler, &[6; 60]);
    assert!(fired[0]);
    assert_eq!(fired.iter().filter(|f| **f).count(), 1);
}

#[test]
fn only_six_fifteen_and_twenty_are_trigger_hours() {
    for hour in 0..30u32 {
        let mut scheduler = Scheduler::new(Some("k"));
        let fired = scheduler.on_tick(hour).contains(&RefreshAction::AirQuality);
        assert_eq!(fired, hour == 6 || hour == 15 || hour == 20, "hour {}", hour);
    }
}

#[test]
fn a_day_of_ticks_refreshes_the_air_quality_three_times() {
    let mut scheduler = Scheduler::new(Some("k"));
    let mut fired_at = Vec::new();
    for day in 0..3u32 {
        for hour in 0..24u32 {
            for minute in 0..60u32 {
                if scheduler.on_tick(hour).contains(&RefreshAction::AirQuality) {
                    fired_at.push((day, hour, minute));
                }
            }
        }
    }
    assert_eq!(
        fired_at,
        vec![
            (0, 6, 0),
            (0, 15, 0),
            (0, 20, 0),
            (1, 6, 0),
            (1, 15, 0),
            (1, 20, 0),
            (2, 6, 0),
            (2, 15, 0),
            (2, 20, 0)
        ]
    );
}

#[test]
fn the_hour_stays_remembered_until_another_trigger_hour_fires() {
    let mut scheduler = Scheduler::new(Some("k"));
    assert_eq!(
        air_quality_fires(&mut scheduler, &[6, 6, 6, 7, 6]),
        vec![true, false, false, false, false]
    );
    assert_eq!(scheduler.last_aqi_hour_fired(), Some(6));
}

#[test]
fn another_trigger_hour_lets_the_first_fire_again() {
    let mut scheduler = Scheduler::new(Some("k"));
    assert_eq!(
        air_quality_fires(&mut scheduler, &[6, 6, 6, 15, 6]),
        vec![true, false, false, true, true]
    );
    assert_eq!(scheduler.last_aqi_hour_fired(), Some(6));
}

#[test]
fn a_start_within_a_trigger_hour_fires_on_the_first_tick() {
    let mut scheduler = Scheduler::new(Some("k"));
    assert_eq!(
        air_quality_fires(&mut scheduler, &[20, 20, 21, 22]),
        vec![true, false, false, false]
    );
}

#[test]
fn without_a_credential_the_air_quality_is_never_refreshed() {
    for credential in [None, Some("your_airly_api_key_here")] {
        let mut scheduler = Scheduler::new(credential);
        assert!(!scheduler.startup_actions().contains(&RefreshAction::AirQuality));
        for _day in 0..2 {
            for hour in 0..24u32 {
                for _minute in 0..60 {
                    assert!(!scheduler.on_tick(hour).contains(&RefreshAction::AirQuality));
                }
            }
        }
        assert_eq!(scheduler.last_aqi_hour_fired(), None);
    }
}

#[test]
fn weather_and_air_quality_can_fall_on_one_tick() {
    let mut scheduler = Scheduler::with_weather_interval(2, Some("k")).unwrap();
    assert_eq!(scheduler.on_tick(5), vec![RefreshAction::ClockFace]);
    assert_eq!(
        scheduler.on_tick(6),
        vec![RefreshAction::ClockFace, RefreshAction::Weather, RefreshAction::AirQuality]
    );
    assert_eq!(scheduler.on_tick(6), vec![RefreshAction::ClockFace]);
    assert_eq!(
        scheduler.on_tick(6),
        vec![RefreshAction::ClockFace, RefreshAction::Weather]
    );
}

#[test]
fn a_tick_of_the_moment_reports_the_clock_it_read() {
    let mut scheduler = Scheduler::with_weather_interval(1, Some("k")).unwrap();
    let tick = scheduler.tick();
    let hour = tick.now.hour();
    assert!(hour < 24);
    let mut expected = vec![RefreshAction::ClockFace, RefreshAction::Weather];
    if hour == 6 || hour == 15 || hour == 20 {
        expected.push(RefreshAction::AirQuality);
        assert_eq!(scheduler.last_aqi_hour_fired(), Some(hour));
    } else {
        assert_eq!(scheduler.last_aqi_hour_fired(), None);
    }
    assert_eq!(tick.actions, expected);
}

#[test]
fn a_failed_weather_fetch_pushes_nothing_and_the_next_one_is_on_time() {
    let mut scheduler = Scheduler::new(None);
    let mut weather_ticks = Vec::new();
    for tick in 1..=120u32 {
        if scheduler.on_tick(10).contains(&RefreshAction::Weather) {
            weather_ticks.push(tick);
            if tick == 60 {
                let reply: HttpReply<WeatherSnapshot> =
                    HttpReply::Unreachable { cause: "network is unreachable".to_string() };
                let outcome = weather_result(reply);
                assert_eq!(
                    outcome,
                    Err(FetchError {
                        kind: FetchErrorKind::Transport,
                        cause: "network is unreachable".to_string()
                    })
                );
                assert_eq!(weather_updates(&outcome), Vec::new());
            }
        }
    }
    assert_eq!(weather_ticks, vec![60, 120]);
}

#[test]
fn a_weather_snapshot_is_shown_field_by_field() {
    let snapshot = WeatherSnapshot { temperature: -4, code: 73 };
    let gradient = gradient_for(TimePhase::Day, 73);
    assert_eq!(
        render_weather(&snapshot, gradient),
        vec![
            DisplayUpdate::TemperatureText("-4\u{b0}".to_string()),
            DisplayUpdate::ConditionText("Light Snow".to_string()),
            DisplayUpdate::ConditionIcon("assets/icons/noun-snow-1367717.png".to_string()),
            DisplayUpdate::GradientStart((168, 192, 255)),
            DisplayUpdate::GradientEnd((63, 43, 150)),
        ]
    );
}

#[test]
fn a_weather_snapshot_is_shown_under_the_gradient_of_the_moment() {
    let snapshot = WeatherSnapshot { temperature: 18, code: 61 };
    let updates = weather_updates(&Ok(snapshot));
    let phases = [TimePhase::Night, TimePhase::Sunrise, TimePhase::Day, TimePhase::Sunset];
    assert!(phases
        .iter()
        .any(|phase| updates == render_weather(&snapshot, gradient_for(*phase, 61))));
}

#[test]
fn an_air_quality_snapshot_is_shown_as_label_and_value() {
    let snapshot = AirQualitySnapshot { caqi_value: 42, status_label: "Take a breath in".to_string() };
    assert_eq!(
        air_quality_updates(&Ok(snapshot)),
        vec![
            DisplayUpdate::AirQualityText("Take a breath in".to_string()),
            DisplayUpdate::AqiValue(42),
        ]
    );
}

#[test]
fn a_failed_air_quality_fetch_pushes_nothing() {
    let outcome = Err(FetchError { kind: FetchErrorKind::Decode, cause: "EOF".to_string() });
    assert_eq!(air_quality_updates(&outcome), Vec::new());
}

#[test]
fn no_station_nearby_is_shown_as_no_data_and_is_no_error() {
    let status = HttpStatus::new(200).unwrap();
    let reply = HttpReply::Answered { status, payload: Ok(Vec::new()) };
    let outcome = match after_station_lookup(reply) {
        LookupStep::Finished(outcome) => outcome,
        LookupStep::Measure { .. } => panic!("no station was found"),
    };
    assert!(outcome.is_ok());
    assert_eq!(
        air_quality_updates(&outcome),
        vec![DisplayUpdate::AirQualityText("No AQI data".to_string()), DisplayUpdate::AqiValue(0)]
    );
}
