//! The request dispatcher: validates the query, plans the outbound provider
//! call, and turns the call's outcome into the final HTTP reply.
//!
//! The outbound call itself is I/O and stays with the caller: the caller
//! asks `prepare_request` for the URL, performs the fetch, and hands the
//! outcome back to `respond_weather` or `respond_forecast`.

use vstd::prelude::*;
use vstd::string::StringExecFns;

use crate::errors::{error_body, error_status, spec_error_body, spec_error_status};
use crate::json::{forecast_json, spec_forecast_json, spec_weather_json, weather_json};
use crate::model::{
    raw_weather_wf, point_wf, spec_kept_len, spec_obs_of, GatewayError, RawForecast, RawWeather,
};
use crate::report::{forecast_text, spec_forecast_text, spec_weather_text, weather_text};
use crate::strutil::str_eq;
use crate::timefmt::ts_formattable;
use crate::trim::{is_space_char, lemma_all_space_trims_empty, spec_trimmed, trim_str};
use crate::urlenc::{percent_encoded, url_encode};
use vstd::utf8::encode_utf8;

verus! {

/// The two provider endpoints the gateway fronts.
#[derive(Clone, Copy, Debug, PartialEq, Eq, Structural)]
pub enum Endpoint {
    Weather,
    Forecast,
}

/// The query parameters a request carries.
#[derive(Clone, Debug)]
pub struct Query {
    pub city: Option<String>,
    pub format: Option<String>,
}

/// A finished HTTP reply: status, content type and body.
#[derive(Clone, Debug)]
pub struct HttpReply {
    pub status: u16,
    pub content_type: String,
    pub body: String,
}

/// A validated request, ready for the outbound call.
#[derive(Clone, Debug)]
pub struct PreparedRequest {
    pub city: String,
    pub wants_json: bool,
    pub url: String,
}

/// Whether the query carries a city that is non-blank after trimming.
pub open spec fn spec_city_valid(q: Query) -> bool {
    match q.city {
        Some(c) => spec_trimmed(c@).len() > 0,
        None => false,
    }
}

/// The trimmed city text of a valid query.
pub open spec fn spec_city_of(q: Query) -> Seq<char> {
    match q.city {
        Some(c) => spec_trimmed(c@),
        None => Seq::<char>::empty(),
    }
}

/// Whether the caller asked for the JSON rendering: exactly `"json"`, any
/// other value or absence selects the text rendering.
pub open spec fn spec_wants_json(q: Query) -> bool {
    match q.format {
        Some(f) => f@ == "json"@,
        None => false,
    }
}

/// The outbound provider URL: the endpoint path, the percent-encoded city,
/// the API key, and the fixed metric-units parameter.
pub open spec fn spec_url(kind: Endpoint, city: Seq<char>, key: Seq<char>) -> Seq<char> {
    "https://api.openweathermap.org/data/2.5/"@ + (match kind {
        Endpoint::Weather => "weather"@,
        Endpoint::Forecast => "forecast"@,
    }) + "?q="@ + percent_encoded(encode_utf8(city)) + "&appid="@ + key + "&units=metric"@
}

/// Builds the outbound provider URL.
pub fn build_url(kind: Endpoint, city: &str, key: &str) -> (r: String)
    ensures
        r@ == spec_url(kind, city@, key@),
{
    let mut out = String::from_str("https://api.openweathermap.org/data/2.5/");
    match kind {
        Endpoint::Weather => out.append("weather"),
        Endpoint::Forecast => out.append("forecast"),
    }
    out.append("?q=");
    out.append(url_encode(city).as_str());
    out.append("&appid=");
    out.append(key);
    out.append("&units=metric");
    proof {
        assert(out@ =~= spec_url(kind, city@, key@));
    }
    out
}

/// Whether an HTTP status code lies in the 2xx success range, the range on
/// which the provider's reply carries a payload.
pub fn is_success_status(status: u16) -> (r: bool)
    ensures
        r == (200 <= status && status < 300),
{
    200 <= status && status < 300
}

/// The reply that announces a failure condition: its classified status, a
/// plain-text content type, and the JSON error body.
pub open spec fn reply_is_error(r: HttpReply, e: GatewayError, city: Seq<char>) -> bool {
    r.status == spec_error_status(e) && r.content_type@ == "text/plain; charset=utf-8"@ && r.body@
        == spec_error_body(e, city)
}

fn error_reply(e: &GatewayError, city: &str) -> (r: HttpReply)
    ensures
        reply_is_error(r, *e, city@),
{
    HttpReply {
        status: error_status(e),
        content_type: String::from_str("text/plain; charset=utf-8"),
        body: error_body(e, city),
    }
}

/// Validates the query and plans the outbound call: a missing or blank city
/// is rejected with status 400, a missing API key with status 500, and a
/// valid request yields the trimmed city, the chosen rendering and the URL.
pub fn prepare_request(kind: Endpoint, q: &Query, api_key: &Option<String>) -> (r: Result<
    PreparedRequest,
    HttpReply,
>)
    ensures
        !spec_city_valid(*q) ==> (r matches Err(rep) && reply_is_error(
            rep,
            GatewayError::Validation,
            Seq::<char>::empty(),
        )),
        spec_city_valid(*q) && api_key is None ==> (r matches Err(rep) && reply_is_error(
            rep,
            GatewayError::Config,
            Seq::<char>::empty(),
        )),
        spec_city_valid(*q) ==> (api_key matches Some(k) ==> (r matches Ok(p) && p.city@
            == spec_city_of(*q) && p.wants_json == spec_wants_json(*q) && p.url@ == spec_url(
            kind,
            spec_city_of(*q),
            k@,
        ))),
{
    match &q.city {
        None => Err(error_reply(&GatewayError::Validation, "")),
        Some(c) => {
            let t = trim_str(c.as_str());
            if t.as_str().is_empty() {
                return Err(error_reply(&GatewayError::Validation, ""));
            }
            match api_key {
                None => Err(error_reply(&GatewayError::Config, "")),
                Some(k) => {
                    let wants_json = match &q.format {
                        Some(f) => str_eq(f.as_str(), "json"),
                        None => false,
                    };
                    let url = build_url(kind, t.as_str(), k.as_str());
                    Ok(PreparedRequest { city: t, wants_json, url })
                },
            }
        },
    }
}

/// What came of the outbound current-weather call.
#[derive(Debug)]
pub enum WeatherEvent {
    /// The provider could not be reached.
    TransportFailure,
    /// The provider answered with the carried non-success status.
    ErrorStatus(u16),
    /// The provider's reply did not decode against the expected schema.
    Malformed,
    /// The provider's decoded payload.
    Payload(RawWeather),
}

/// What came of the outbound forecast call.
#[derive(Debug)]
pub enum ForecastEvent {
    /// The provider could not be reached.
    TransportFailure,
    /// The provider answered with the carried non-success status.
    ErrorStatus(u16),
    /// The provider's reply did not decode against the expected schema.
    Malformed,
    /// The provider's decoded payload.
    Payload(RawForecast),
}

/// The reply owed for each outcome of the current-weather call.
pub open spec fn weather_reply_spec(p: PreparedRequest, ev: WeatherEvent, r: HttpReply) -> bool {
    match ev {
        WeatherEvent::TransportFailure => reply_is_error(r, GatewayError::Network, p.city@),
        WeatherEvent::ErrorStatus(s) => reply_is_error(r, GatewayError::Upstream(s), p.city@),
        WeatherEvent::Malformed => reply_is_error(r, GatewayError::Parse, p.city@),
        WeatherEvent::Payload(w) => {
            if !raw_weather_wf(w) {
                reply_is_error(r, GatewayError::Parse, p.city@)
            } else if p.wants_json {
                r.status == 200 && r.content_type@ == "application/json"@ && r.body@
                    == spec_weather_json(spec_obs_of(w))
            } else {
                r.status == 200 && r.content_type@ == "text/plain; charset=utf-8"@ && r.body@
                    == spec_weather_text(spec_obs_of(w))
            }
        },
    }
}

/// Turns the outcome of the current-weather call into the final reply.
pub fn respond_weather(p: &PreparedRequest, ev: WeatherEvent) -> (r: HttpReply)
    requires
        ev matches WeatherEvent::Payload(w) ==> ts_formattable(w.dt as int) && ts_formattable(
            w.sunrise as int,
        ) && ts_formattable(w.sunset as int),
    ensures
        weather_reply_spec(*p, ev, r),
{
    match ev {
        WeatherEvent::TransportFailure => error_reply(&GatewayError::Network, p.city.as_str()),
        WeatherEvent::ErrorStatus(s) => error_reply(
            &GatewayError::Upstream(s),
            p.city.as_str(),
        ),
        WeatherEvent::Malformed => error_reply(&GatewayError::Parse, p.city.as_str()),
        WeatherEvent::Payload(w) => match crate::model::normalize_weather(w) {
            Err(e) => error_reply(&e, p.city.as_str()),
            Ok(obs) => {
                if p.wants_json {
                    HttpReply {
                        status: 200,
                        content_type: String::from_str("application/json"),
                        body: weather_json(&obs),
                    }
                } else {
                    HttpReply {
                        status: 200,
                        content_type: String::from_str("text/plain; charset=utf-8"),
                        body: weather_text(&obs),
                    }
                }
            },
        },
    }
}

/// Whether every kept point of a forecast payload fits the expected schema.
pub open spec fn forecast_payload_wf(f: RawForecast) -> bool {
    forall|i: int| 0 <= i < spec_kept_len(f.points@.len()) ==> point_wf(#[trigger] f.points@[i])
}

/// The reply owed for each outcome of the forecast call; the series is cut
/// to its first forty points before rendering.
pub open spec fn forecast_reply_spec(p: PreparedRequest, ev: ForecastEvent, r: HttpReply) -> bool {
    match ev {
        ForecastEvent::TransportFailure => reply_is_error(r, GatewayError::Network, p.city@),
        ForecastEvent::ErrorStatus(s) => reply_is_error(r, GatewayError::Upstream(s), p.city@),
        ForecastEvent::Malformed => reply_is_error(r, GatewayError::Parse, p.city@),
        ForecastEvent::Payload(f) => {
            if !forecast_payload_wf(f) {
                reply_is_error(r, GatewayError::Parse, p.city@)
            } else if p.wants_json {
                r.status == 200 && r.content_type@ == "application/json"@ && r.body@
                    == spec_forecast_json(
                    f.city@,
                    f.country@,
                    f.points@.take(spec_kept_len(f.points@.len()) as int),
                )
            } else {
                r.status == 200 && r.content_type@ == "text/plain; charset=utf-8"@ && r.body@
                    == spec_forecast_text(
                    f.city@,
                    f.country@,
                    f.points@.take(spec_kept_len(f.points@.len()) as int),
                )
            }
        },
    }
}

/// Turns the outcome of the forecast call into the final reply.
pub fn respond_forecast(p: &PreparedRequest, ev: ForecastEvent) -> (r: HttpReply)
    ensures
        forecast_reply_spec(*p, ev, r),
{
    match ev {
        ForecastEvent::TransportFailure => error_reply(&GatewayError::Network, p.city.as_str()),
        ForecastEvent::ErrorStatus(s) => error_reply(
            &GatewayError::Upstream(s),
            p.city.as_str(),
        ),
        ForecastEvent::Malformed => error_reply(&GatewayError::Parse, p.city.as_str()),
        ForecastEvent::Payload(f) => match crate::model::normalize_forecast(f) {
            Err(e) => error_reply(&e, p.city.as_str()),
            Ok(series) => {
                if p.wants_json {
                    HttpReply {
                        status: 200,
                        content_type: String::from_str("application/json"),
                        body: forecast_json(&series),
                    }
                } else {
                    HttpReply {
                        status: 200,
                        content_type: String::from_str("text/plain; charset=utf-8"),
                        body: forecast_text(&series),
                    }
                }
            },
        },
    }
}

/// A `city` that is missing, or made only of white space, fails validation,
/// on either endpoint; `prepare_request` then answers with status 400 and
/// the validation error body.
pub proof fn lemma_whitespace_city_invalid(q: Query)
    requires
        q.city matches Some(c) ==> forall|i: int| 0 <= i < c@.len() ==> is_space_char(c@[i]),
    ensures
        !spec_city_valid(q),
{
    match q.city {
        Some(c) => {
            lemma_all_space_trims_empty(c@);
        },
        None => {},
    }
}

/// Identical requests whose outbound calls end the same way get replies with
/// the same status, content type and body: the reply is a function of the
/// prepared request and the upstream outcome, with no hidden state.
pub proof fn lemma_weather_reply_deterministic(
    p: PreparedRequest,
    ev: WeatherEvent,
    r1: HttpReply,
    r2: HttpReply,
)
    requires
        weather_reply_spec(p, ev, r1),
        weather_reply_spec(p, ev, r2),
    ensures
        r1.status == r2.status,
        r1.content_type@ == r2.content_type@,
        r1.body@ == r2.body@,
{
}

/// The forecast endpoint answers identical requests and outcomes with
/// byte-identical replies, just as the weather endpoint does.
pub proof fn lemma_forecast_reply_deterministic(
    p: PreparedRequest,
    ev: ForecastEvent,
    r1: HttpReply,
    r2: HttpReply,
)
    requires
        forecast_reply_spec(p, ev, r1),
        forecast_reply_spec(p, ev, r2),
    ensures
        r1.status == r2.status,
        r1.content_type@ == r2.content_type@,
        r1.body@ == r2.body@,
{
}

} // verus!
