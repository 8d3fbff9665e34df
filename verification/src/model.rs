//! The provider payloads and the view model the gateway renders.
//!
//! Measurements that the provider reports as fractional numbers are carried
//! as scaled integers: temperatures, feels-like values and wind speeds in
//! tenths of their unit, coordinates in hundredths of a degree.

use vstd::prelude::*;
use vstd::string::StrSliceExecFns;

verus! {

/// One weather condition of an observation or forecast point.
#[derive(Clone, Debug)]
pub struct Condition {
    pub id: u32,
    pub main: String,
    pub description: String,
    pub icon: String,
}

/// Wind data, optional in the provider schema.
#[derive(Clone, Debug)]
pub struct Wind {
    pub speed_deci: i64,
    pub deg: Option<u32>,
    pub gust_deci: Option<i64>,
}

/// The provider's current-weather payload, as decoded from its reply.
#[derive(Clone, Debug)]
pub struct RawWeather {
    pub name: String,
    pub country: String,
    pub lat_centi: i64,
    pub lon_centi: i64,
    pub temp_deci: i64,
    pub feels_like_deci: i64,
    pub temp_min_deci: i64,
    pub temp_max_deci: i64,
    pub pressure: u32,
    pub humidity: u32,
    pub conditions: Vec<Condition>,
    pub wind: Option<Wind>,
    pub cloudiness: Option<u32>,
    pub visibility: Option<u32>,
    pub dt: i64,
    pub sunrise: i64,
    pub sunset: i64,
}

/// The normalized current-weather view: the same data with a non-empty
/// conditions sequence.
#[derive(Clone, Debug)]
pub struct WeatherObservation {
    pub name: String,
    pub country: String,
    pub lat_centi: i64,
    pub lon_centi: i64,
    pub temp_deci: i64,
    pub feels_like_deci: i64,
    pub temp_min_deci: i64,
    pub temp_max_deci: i64,
    pub pressure: u32,
    pub humidity: u32,
    pub conditions: Vec<Condition>,
    pub wind: Option<Wind>,
    pub cloudiness: Option<u32>,
    pub visibility: Option<u32>,
    pub dt: i64,
    pub sunrise: i64,
    pub sunset: i64,
}

impl WeatherObservation {
    /// The rendering logic reads the first condition and the first two
    /// characters of its icon code, so both must be there.
    pub open spec fn wf(self) -> bool {
        self.conditions@.len() > 0 && self.conditions@[0].icon@.len() >= 2
    }
}

/// Whether a raw weather payload fits the expected schema: a first condition
/// exists and its icon code carries a two-character prefix.
pub open spec fn raw_weather_wf(raw: RawWeather) -> bool {
    raw.conditions@.len() > 0 && raw.conditions@[0].icon@.len() >= 2
}

/// One fixed three-hour entry of a forecast series.
#[derive(Clone, Debug)]
pub struct ForecastPoint {
    pub dt: i64,
    pub dt_txt: String,
    pub temp_deci: i64,
    pub feels_like_deci: i64,
    pub temp_min_deci: i64,
    pub temp_max_deci: i64,
    pub pressure: u32,
    pub humidity: u32,
    pub conditions: Vec<Condition>,
    pub wind: Option<Wind>,
    pub cloudiness: Option<u32>,
    pub visibility: Option<u32>,
}

/// A forecast point the renderers can display: a first condition exists
/// with a two-character icon prefix, and the preformatted timestamp text
/// reaches past its clock digits.
pub open spec fn point_wf(p: ForecastPoint) -> bool {
    p.conditions@.len() > 0 && p.conditions@[0].icon@.len() >= 2 && p.dt_txt@.len() >= 16
}

/// The provider's forecast payload, as decoded from its reply.
#[derive(Clone, Debug)]
pub struct RawForecast {
    pub city: String,
    pub country: String,
    pub lat_centi: i64,
    pub lon_centi: i64,
    pub sunrise: i64,
    pub sunset: i64,
    pub points: Vec<ForecastPoint>,
}

/// The normalized forecast view: at most forty well-formed points.
#[derive(Clone, Debug)]
pub struct ForecastSeries {
    pub city: String,
    pub country: String,
    pub lat_centi: i64,
    pub lon_centi: i64,
    pub sunrise: i64,
    pub sunset: i64,
    pub points: Vec<ForecastPoint>,
}

impl ForecastSeries {
    pub open spec fn wf(self) -> bool {
        self.points@.len() <= 40 && forall|i: int|
            0 <= i < self.points@.len() ==> point_wf(#[trigger] self.points@[i])
    }
}

/// The gateway's failure conditions.
#[derive(Clone, Copy, Debug, PartialEq, Eq, Structural)]
pub enum GatewayError {
    /// The caller's `city` parameter is missing or blank.
    Validation,
    /// The provider API key is not configured.
    Config,
    /// The outbound call did not reach the provider.
    Network,
    /// The provider answered with the carried non-success status.
    Upstream(u16),
    /// The provider's reply does not fit the expected schema.
    Parse,
}

/// The number of forecast points kept for rendering: at most forty.
pub open spec fn spec_kept_len(n: nat) -> nat {
    if n <= 40 {
        n
    } else {
        40
    }
}

/// The observation a raw weather payload normalizes to.
pub open spec fn spec_obs_of(raw: RawWeather) -> WeatherObservation {
    WeatherObservation {
        name: raw.name,
        country: raw.country,
        lat_centi: raw.lat_centi,
        lon_centi: raw.lon_centi,
        temp_deci: raw.temp_deci,
        feels_like_deci: raw.feels_like_deci,
        temp_min_deci: raw.temp_min_deci,
        temp_max_deci: raw.temp_max_deci,
        pressure: raw.pressure,
        humidity: raw.humidity,
        conditions: raw.conditions,
        wind: raw.wind,
        cloudiness: raw.cloudiness,
        visibility: raw.visibility,
        dt: raw.dt,
        sunrise: raw.sunrise,
        sunset: raw.sunset,
    }
}

/// Normalizes a current-weather payload: an empty conditions sequence, or an
/// icon code with no two-character prefix, is an upstream-schema violation
/// and becomes a parse error; everything else is kept as it is.
pub fn normalize_weather(raw: RawWeather) -> (r: Result<WeatherObservation, GatewayError>)
    ensures
        !raw_weather_wf(raw) ==> r == Err::<WeatherObservation, GatewayError>(GatewayError::Parse),
        raw_weather_wf(raw) ==> r == Ok::<WeatherObservation, GatewayError>(spec_obs_of(raw)),
        r matches Ok(o) ==> o.wf(),
{
    if raw.conditions.len() == 0 || raw.conditions[0].icon.as_str().unicode_len() < 2 {
        return Err(GatewayError::Parse);
    }
    Ok(
        WeatherObservation {
            name: raw.name,
            country: raw.country,
            lat_centi: raw.lat_centi,
            lon_centi: raw.lon_centi,
            temp_deci: raw.temp_deci,
            feels_like_deci: raw.feels_like_deci,
            temp_min_deci: raw.temp_min_deci,
            temp_max_deci: raw.temp_max_deci,
            pressure: raw.pressure,
            humidity: raw.humidity,
            conditions: raw.conditions,
            wind: raw.wind,
            cloudiness: raw.cloudiness,
            visibility: raw.visibility,
            dt: raw.dt,
            sunrise: raw.sunrise,
            sunset: raw.sunset,
        },
    )
}

/// Normalizes a forecast payload: the series is cut to its first forty
/// points, and a kept point with no condition, or with timestamp text too
/// short to carry a clock, is an upstream-schema violation and becomes a
/// parse error.
pub fn normalize_forecast(raw: RawForecast) -> (r: Result<ForecastSeries, GatewayError>)
    ensures
        (forall|i: int|
            0 <= i < spec_kept_len(raw.points@.len()) ==> point_wf(#[trigger] raw.points@[i]))
            ==> (r matches Ok(s) && s.city == raw.city && s.country == raw.country && s.lat_centi
            == raw.lat_centi && s.lon_centi == raw.lon_centi && s.sunrise == raw.sunrise
            && s.sunset == raw.sunset && s.points@ == raw.points@.take(
            spec_kept_len(raw.points@.len()) as int,
        )),
        !(forall|i: int|
            0 <= i < spec_kept_len(raw.points@.len()) ==> point_wf(#[trigger] raw.points@[i]))
            ==> r == Err::<ForecastSeries, GatewayError>(GatewayError::Parse),
        r matches Ok(s) ==> s.wf(),
{
    let mut points = raw.points;
    points.truncate(40);
    proof {
        assert(points@ =~= raw.points@.take(spec_kept_len(raw.points@.len()) as int));
    }
    let n = points.len();
    let mut i: usize = 0;
    while i < n
        invariant
            i <= n,
            n == points@.len(),
            points@ == raw.points@.take(spec_kept_len(raw.points@.len()) as int),
            forall|m: int| 0 <= m < i ==> point_wf(#[trigger] points@[m]),
        decreases n - i,
    {
        let ok = points[i].conditions.len() > 0 && points[i].conditions[0].icon.as_str().unicode_len() >= 2
            && points[i].dt_txt.as_str().unicode_len() >= 16;
        if !ok {
            proof {
                let kept = raw.points@.take(spec_kept_len(raw.points@.len()) as int);
                assert(!point_wf(kept[i as int]));
            }
            return Err(GatewayError::Parse);
        }
        i = i + 1;
    }
    proof {
        assert forall|m: int|
            0 <= m < spec_kept_len(raw.points@.len()) implies point_wf(
            #[trigger] raw.points@[m],
        ) by {
            assert(point_wf(points@[m]));
        }
    }
    Ok(
        ForecastSeries {
            city: raw.city,
            country: raw.country,
            lat_centi: raw.lat_centi,
            lon_centi: raw.lon_centi,
            sunrise: raw.sunrise,
            sunset: raw.sunset,
            points,
        },
    )
}

} // verus!
