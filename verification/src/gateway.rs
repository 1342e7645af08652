//! The fetch gateway: what the two remote sources are asked, and how the
//! outcome of each exchange becomes a snapshot or a single kind of error.
//!
//! The exchanges themselves are made by the caller. The gateway names the
//! addresses, judges each reply, and decides what follows it.

use vstd::prelude::*;
use crate::air_quality::caqi_to_status;
use crate::air_quality::level_of;
use crate::text::append_decimal;
use crate::text::decimal_text;

verus! {

/// The seconds after which an exchange that has not ended counts as failed
/// in transport. The gateway never waits without a bound.
pub const FETCH_TIMEOUT_SECONDS: u64 = 10;

/// The three remote operations that the dashboard uses.
#[derive(Clone, Copy, Debug, PartialEq, Eq, Structural)]
pub enum Endpoint {
    Weather,
    NearestStation,
    Measurements,
}

impl Endpoint {
    /// How the operation is called in an error's cause.
    pub open spec fn name_text(self) -> Seq<char> {
        match self {
            Endpoint::Weather => "Weather API"@,
            Endpoint::NearestStation => "Airly installations API"@,
            Endpoint::Measurements => "Airly measurements API"@,
        }
    }

    /// How the operation is called in an error's cause.
    pub fn name(self) -> (text: &'static str)
        ensures
            text@ == self.name_text(),
    {
        match self {
            Endpoint::Weather => "Weather API",
            Endpoint::NearestStation => "Airly installations API",
            Endpoint::Measurements => "Airly measurements API",
        }
    }
}

/// The status code of an HTTP response: a number from 100 to 999.
#[derive(Clone, Copy, Debug, PartialEq, Eq)]
pub struct HttpStatus {
    code: u16,
}

impl HttpStatus {
    #[verifier::type_invariant]
    spec fn in_range(self) -> bool {
        100 <= self.code <= 999
    }

    /// The numeric code.
    pub closed spec fn value(self) -> u16 {
        self.code
    }

    /// Whether the code is one of the success codes, 200 to 299.
    pub open spec fn accepted(self) -> bool {
        200 <= self.value() <= 299
    }

    /// The status with the given code, if the code is a status code at all.
    pub fn new(code: u16) -> (status: Option<HttpStatus>)
        ensures
            status is Some <==> 100 <= code <= 999,
            status matches Some(s) ==> s.value() == code,
    {
        if 100 <= code && code <= 999 {
            Some(HttpStatus { code })
        } else {
            None
        }
    }

    /// The numeric code.
    pub fn code(&self) -> (code: u16)
        ensures
            code == self.value(),
            100 <= code <= 999,
    {
        proof {
            use_type_invariant(self);
        }
        self.code
    }

    /// Whether the code is one of the success codes, 200 to 299.
    pub fn is_success(&self) -> (ok: bool)
        ensures
            ok == self.accepted(),
    {
        200 <= self.code && self.code <= 299
    }
}

/// Why a fetch failed.
#[derive(Clone, Copy, Debug, PartialEq, Eq, Structural)]
pub enum FetchErrorKind {
    /// No response arrived: the network failed or the request timed out.
    Transport,
    /// A response arrived with a status outside the success range.
    Protocol,
    /// The response's payload could not be decoded.
    Decode,
}

/// The one error that a fetch can end in, with a cause for human readers.
#[derive(Clone, Debug, PartialEq, Eq)]
pub struct FetchError {
    pub kind: FetchErrorKind,
    pub cause: String,
}

/// A `FetchError` with its cause as a sequence of characters.
pub struct FetchErrorView {
    pub kind: FetchErrorKind,
    pub cause: Seq<char>,
}

impl View for FetchError {
    type V = FetchErrorView;

    open spec fn view(&self) -> FetchErrorView {
        FetchErrorView { kind: self.kind, cause: self.cause@ }
    }
}

/// What `reqwest::StatusCode` displays for a status code: the number, a
/// space, and the reason phrase that the crate holds for the code, or
/// `<unknown status code>` where it holds none.
pub uninterp spec fn status_line(code: u16) -> Seq<char>;

/// Calls `reqwest::StatusCode::from_u16` and the `Display` of the status it
/// returns. The conversion succeeds for every code from 100 to 999, and what
/// is displayed depends on the code alone; `status_line` is the name of that
/// text.
#[verifier::external_body]
fn status_line_string(code: u16) -> (line: String)
    requires
        100 <= code <= 999,
    ensures
        line@ == status_line(code),
{
    match reqwest::StatusCode::from_u16(code) {
        Ok(status) => status.to_string(),
        Err(_) => String::new(),
    }
}

/// The cause of a protocol error: the operation's name, the words
/// ` returned status: `, and the status line.
pub open spec fn protocol_cause(endpoint: Endpoint, status: HttpStatus) -> Seq<char> {
    endpoint.name_text() + " returned status: "@ + status_line(status.value())
}

/// The protocol error for a response that `endpoint` gave with `status`.
pub fn protocol_error(endpoint: Endpoint, status: HttpStatus) -> (error: FetchError)
    ensures
        error@ == (FetchErrorView {
            kind: FetchErrorKind::Protocol,
            cause: protocol_cause(endpoint, status),
        }),
{
    let mut cause = String::from_str(endpoint.name());
    cause.append(" returned status: ");
    let line = status_line_string(status.code());
    cause.append(line.as_str());
    FetchError { kind: FetchErrorKind::Protocol, cause }
}

/// How one exchange with a remote source ended, as the caller that made it
/// observed it.
#[derive(Debug, PartialEq, Eq)]
pub enum HttpReply<T> {
    /// No response arrived; `cause` says why.
    Unreachable { cause: String },
    /// A response arrived. `payload` is what decoding its body gave: the
    /// value, or the decoder's complaint. It is read only where `status` is
    /// a success code, so for any other status it may hold anything.
    Answered { status: HttpStatus, payload: Result<T, String> },
}

/// The result of a fetch, with the error seen through its view.
pub open spec fn outcome_view<T>(outcome: Result<T, FetchError>) -> Result<T, FetchErrorView> {
    match outcome {
        Ok(value) => Ok(value),
        Err(error) => Err(error@),
    }
}

/// What a reply amounts to: a transport error where no response arrived, a
/// protocol error where the status is no success code, a decode error where
/// the payload could not be decoded, and the payload otherwise.
pub open spec fn normalized<T>(endpoint: Endpoint, reply: HttpReply<T>) -> Result<
    T,
    FetchErrorView,
> {
    match reply {
        HttpReply::Unreachable { cause } => Err(
            FetchErrorView { kind: FetchErrorKind::Transport, cause: cause@ },
        ),
        HttpReply::Answered { status, payload } => if !status.accepted() {
            Err(
                FetchErrorView {
                    kind: FetchErrorKind::Protocol,
                    cause: protocol_cause(endpoint, status),
                },
            )
        } else {
            match payload {
                Ok(value) => Ok(value),
                Err(cause) => Err(FetchErrorView { kind: FetchErrorKind::Decode, cause: cause@ }),
            }
        },
    }
}

/// Judges the reply of one exchange with `endpoint`. Nothing is retried.
pub fn normalize<T>(endpoint: Endpoint, reply: HttpReply<T>) -> (outcome: Result<T, FetchError>)
    ensures
        outcome_view(outcome) == normalized(endpoint, reply),
{
    match reply {
        HttpReply::Unreachable { cause } => Err(
            FetchError { kind: FetchErrorKind::Transport, cause },
        ),
        HttpReply::Answered { status, payload } => {
            if !status.is_success() {
                Err(protocol_error(endpoint, status))
            } else {
                match payload {
                    Ok(value) => Ok(value),
                    Err(cause) => Err(FetchError { kind: FetchErrorKind::Decode, cause }),
                }
            }
        },
    }
}

/// The weather of the moment: the temperature in whole degrees Celsius and
/// the weather code.
#[derive(Clone, Copy, Debug, PartialEq, Eq)]
pub struct WeatherSnapshot {
    pub temperature: i32,
    pub code: i32,
}

/// The air quality of the moment: the CAQI value, truncated to an integer,
/// and its status label. The value 0 also stands where there is no reading.
#[derive(Clone, Debug, PartialEq, Eq)]
pub struct AirQualitySnapshot {
    pub caqi_value: i32,
    pub status_label: String,
}

/// An `AirQualitySnapshot` with its label as a sequence of characters.
pub struct AirQualitySnapshotView {
    pub caqi_value: int,
    pub status_label: Seq<char>,
}

impl View for AirQualitySnapshot {
    type V = AirQualitySnapshotView;

    open spec fn view(&self) -> AirQualitySnapshotView {
        AirQualitySnapshotView {
            caqi_value: self.caqi_value as int,
            status_label: self.status_label@,
        }
    }
}

/// One named index of a station's current measurements, its value truncated
/// to an integer.
#[derive(Clone, Debug, PartialEq, Eq)]
pub struct AqiIndex {
    pub name: String,
    pub value: i32,
}

/// The address of the current weather at the given coordinates.
pub open spec fn weather_url_text(latitude: Seq<char>, longitude: Seq<char>) -> Seq<char> {
    "https://api.open-meteo.com/v1/forecast?latitude="@ + latitude + "&longitude="@ + longitude
        + "&current=temperature_2m,weather_code&timezone=auto"@
}

/// The address of the station nearest to the given coordinates: one station
/// at most, no further than 5 km away.
pub open spec fn nearest_station_url_text(latitude: Seq<char>, longitude: Seq<char>) -> Seq<
    char,
> {
    "https://airapi.airly.eu/v2/installations/nearest?lat="@ + latitude + "&lng="@ + longitude
        + "&maxDistanceKM=5&maxResults=1"@
}

/// The address of the current measurements of a station.
pub open spec fn measurements_url_text(station_id: int) -> Seq<char> {
    "https://airapi.airly.eu/v2/measurements/installation?installationId="@ + decimal_text(
        station_id,
    )
}

/// The address of the current weather at the given coordinates, each
/// written as a decimal number of degrees.
pub fn weather_url(latitude: &str, longitude: &str) -> (url: String)
    ensures
        url@ == weather_url_text(latitude@, longitude@),
{
    let mut url = String::from_str("https://api.open-meteo.com/v1/forecast?latitude=");
    url.append(latitude);
    url.append("&longitude=");
    url.append(longitude);
    url.append("&current=temperature_2m,weather_code&timezone=auto");
    url
}

/// The address of the station nearest to the given coordinates, each
/// written as a decimal number of degrees.
pub fn nearest_station_url(latitude: &str, longitude: &str) -> (url: String)
    ensures
        url@ == nearest_station_url_text(latitude@, longitude@),
{
    let mut url = String::from_str("https://airapi.airly.eu/v2/installations/nearest?lat=");
    url.append(latitude);
    url.append("&lng=");
    url.append(longitude);
    url.append("&maxDistanceKM=5&maxResults=1");
    url
}

/// The address of the current measurements of the station with the given id.
pub fn measurements_url(station_id: i32) -> (url: String)
    ensures
        url@ == measurements_url_text(station_id as int),
{
    let mut url = String::from_str(
        "https://airapi.airly.eu/v2/measurements/installation?installationId=",
    );
    append_decimal(&mut url, station_id);
    url
}

/// The result of the weather fetch, given how its one exchange ended.
pub fn weather_result(reply: HttpReply<WeatherSnapshot>) -> (outcome: Result<
    WeatherSnapshot,
    FetchError,
>)
    ensures
        outcome_view(outcome) == normalized(Endpoint::Weather, reply),
{
    normalize(Endpoint::Weather, reply)
}

/// What stands for the air quality where no station is near enough.
pub open spec fn no_station_view() -> AirQualitySnapshotView {
    AirQualitySnapshotView { caqi_value: 0, status_label: "No AQI data"@ }
}

/// What stands for the air quality where the station reports no CAQI index.
pub open spec fn index_missing_view() -> AirQualitySnapshotView {
    AirQualitySnapshotView { caqi_value: 0, status_label: "AQI unavailable"@ }
}

/// The snapshot of a CAQI value: the value with the label of its bucket.
pub open spec fn reading_view(caqi: int) -> AirQualitySnapshotView {
    AirQualitySnapshotView { caqi_value: caqi, status_label: level_of(caqi).label_text() }
}

/// What the air-quality fetch does after the nearest-station exchange.
pub enum LookupStep {
    /// Ask for the current measurements of this station.
    Measure { station_id: i32 },
    /// The fetch is over, with this result.
    Finished(Result<AirQualitySnapshot, FetchError>),
}

/// A `LookupStep` with the texts in it as sequences of characters.
pub enum LookupStepView {
    Measure { station_id: int },
    Finished(Result<AirQualitySnapshotView, FetchErrorView>),
}

impl View for LookupStep {
    type V = LookupStepView;

    open spec fn view(&self) -> LookupStepView {
        match *self {
            LookupStep::Measure { station_id } => LookupStepView::Measure {
                station_id: station_id as int,
            },
            LookupStep::Finished(Ok(snapshot)) => LookupStepView::Finished(Ok(snapshot@)),
            LookupStep::Finished(Err(error)) => LookupStepView::Finished(Err(error@)),
        }
    }
}

/// What follows the nearest-station exchange: its error, if it failed; the
/// end of the fetch without a reading, if no station was found, which is no
/// error; and else the measurements of the first station found.
pub open spec fn station_step(reply: HttpReply<Vec<i32>>) -> LookupStepView {
    match normalized(Endpoint::NearestStation, reply) {
        Err(error) => LookupStepView::Finished(Err(error)),
        Ok(stations) => if stations@.len() == 0 {
            LookupStepView::Finished(Ok(no_station_view()))
        } else {
            LookupStepView::Measure { station_id: stations@[0] as int }
        },
    }
}

/// Decides what follows the nearest-station exchange, whose payload is the
/// list of the ids of the stations found.
pub fn after_station_lookup(reply: HttpReply<Vec<i32>>) -> (step: LookupStep)
    ensures
        step@ == station_step(reply),
{
    match normalize(Endpoint::NearestStation, reply) {
        Err(error) => LookupStep::Finished(Err(error)),
        Ok(stations) => {
            if stations.len() == 0 {
                LookupStep::Finished(
                    Ok(
                        AirQualitySnapshot {
                            caqi_value: 0,
                            status_label: String::from_str("No AQI data"),
                        },
                    ),
                )
            } else {
                LookupStep::Measure { station_id: stations[0] }
            }
        },
    }
}

/// Whether an index is the one that the dashboard reads.
pub open spec fn is_caqi(index: AqiIndex) -> bool {
    index.name@ == "AIRLY_CAQI"@
}

/// Whether the index at position `at` is the first CAQI index of the list.
pub open spec fn first_caqi_at(indexes: Seq<AqiIndex>, at: int) -> bool {
    &&& 0 <= at < indexes.len()
    &&& is_caqi(indexes[at])
    &&& forall|before: int| 0 <= before < at ==> !is_caqi(#[trigger] indexes[before])
}

/// What a list of indexes reports: the reading of its first CAQI index, or
/// no reading where it has no CAQI index.
pub open spec fn reported(indexes: Seq<AqiIndex>) -> AirQualitySnapshotView {
    if exists|at: int| first_caqi_at(indexes, at) {
        let at = choose|at: int| first_caqi_at(indexes, at);
        reading_view(indexes[at].value as int)
    } else {
        index_missing_view()
    }
}

/// A list has one first CAQI index at most, and it is the one reported.
pub proof fn lemma_first_caqi_is_reported(indexes: Seq<AqiIndex>, at: int)
    requires
        first_caqi_at(indexes, at),
    ensures
        reported(indexes) == reading_view(indexes[at].value as int),
{
    let chosen = choose|at: int| first_caqi_at(indexes, at);
    assert(first_caqi_at(indexes, chosen));
    if chosen < at {
        assert(!is_caqi(indexes[chosen]));
    } else if at < chosen {
        assert(!is_caqi(indexes[at]));
    }
}

/// A list without a CAQI index reports no reading.
pub proof fn lemma_no_caqi_reports_nothing(indexes: Seq<AqiIndex>)
    requires
        forall|at: int| 0 <= at < indexes.len() ==> !is_caqi(#[trigger] indexes[at]),
    ensures
        reported(indexes) == index_missing_view(),
{
}

/// Reads the air quality out of a station's indexes.
pub fn snapshot_from_indexes(indexes: &Vec<AqiIndex>) -> (snapshot: AirQualitySnapshot)
    ensures
        snapshot@ == reported(indexes@),
{
    let key = String::from_str("AIRLY_CAQI");
    let mut at: usize = 0;
    while at < indexes.len()
        invariant
            at <= indexes.len(),
            key@ == "AIRLY_CAQI"@,
            forall|before: int| 0 <= before < at ==> !is_caqi(#[trigger] indexes@[before]),
        decreases indexes.len() - at,
    {
        if indexes[at].name == key {
            let value = indexes[at].value;
            proof {
                lemma_first_caqi_is_reported(indexes@, at as int);
            }
            return AirQualitySnapshot { caqi_value: value, status_label: caqi_to_status(value) };
        }
        at += 1;
    }
    proof {
        lemma_no_caqi_reports_nothing(indexes@);
    }
    AirQualitySnapshot { caqi_value: 0, status_label: String::from_str("AQI unavailable") }
}

/// The result of an air-quality fetch, with the texts in it as sequences of
/// characters.
pub open spec fn snapshot_outcome_view(outcome: Result<AirQualitySnapshot, FetchError>) -> Result<
    AirQualitySnapshotView,
    FetchErrorView,
> {
    match outcome {
        Ok(snapshot) => Ok(snapshot@),
        Err(error) => Err(error@),
    }
}

/// How the fetch ends after the measurements exchange: with the exchange's
/// error, if it failed, and else with what the station's indexes report.
pub open spec fn measurement_result(reply: HttpReply<Vec<AqiIndex>>) -> Result<
    AirQualitySnapshotView,
    FetchErrorView,
> {
    match normalized(Endpoint::Measurements, reply) {
        Ok(indexes) => Ok(reported(indexes@)),
        Err(error) => Err(error),
    }
}

/// Decides how the air-quality fetch ends after the measurements exchange,
/// whose payload is the list of the station's indexes.
pub fn after_measurements(reply: HttpReply<Vec<AqiIndex>>) -> (outcome: Result<
    AirQualitySnapshot,
    FetchError,
>)
    ensures
        snapshot_outcome_view(outcome) == measurement_result(reply),
{
    match normalize(Endpoint::Measurements, reply) {
        Err(error) => Err(error),
        Ok(indexes) => Ok(snapshot_from_indexes(&indexes)),
    }
}

/// Data that is absent is no failure: once an exchange gave a payload, the
/// fetch does not end in an error, whatever the payload holds. A station
/// list without a station ends it with the value 0 and the label for no
/// data, and a station without a CAQI index with the value 0 and the label
/// for no reading.
pub proof fn lemma_absent_data_is_no_error(
    stations: HttpReply<Vec<i32>>,
    measurements: HttpReply<Vec<AqiIndex>>,
)
    ensures
        normalized(Endpoint::NearestStation, stations) is Ok ==> !(station_step(
            stations,
        ) matches LookupStepView::Finished(Err(_))),
        normalized(Endpoint::NearestStation, stations) matches Ok(found) && found@.len() == 0
            ==> station_step(stations) == LookupStepView::Finished(Ok(no_station_view())),
        normalized(Endpoint::Measurements, measurements) is Ok ==> measurement_result(
            measurements,
        ) is Ok,
        normalized(Endpoint::Measurements, measurements) matches Ok(indexes) && (forall|at: int|
            0 <= at < indexes@.len() ==> !is_caqi(#[trigger] indexes@[at])) ==> measurement_result(
            measurements,
        ) == Ok::<AirQualitySnapshotView, FetchErrorView>(index_missing_view()),
{
    if let Ok(indexes) = normalized(Endpoint::Measurements, measurements) {
        if forall|at: int| 0 <= at < indexes@.len() ==> !is_caqi(#[trigger] indexes@[at]) {
            lemma_no_caqi_reports_nothing(indexes@);
        }
    }
}

} // verus!
