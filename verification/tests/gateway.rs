use weatherapp::dispatch::{
    is_success_status, prepare_request, respond_forecast, respond_weather, Endpoint, ForecastEvent,
    Query, WeatherEvent,
};
use weatherapp::model::{Condition, ForecastPoint, RawForecast, RawWeather, Wind};

fn query(city: Option<&str>, format: Option<&str>) -> Query {
    Query { city: city.map(String::from), format: format.map(String::from) }
}

fn raw_weather() -> RawWeather {
    RawWeather {
        name: String::from("London"),
        country: String::from("GB"),
        lat_centi: 5151,
        lon_centi: -13,
        temp_deci: 213,
        feels_like_deci: 208,
        temp_min_deci: 198,
        temp_max_deci: 225,
        pressure: 1012,
        humidity: 60,
        conditions: vec![Condition {
            id: 800,
            main: String::from("Clear"),
            description: String::from("clear sky"),
            icon: String::from("01d"),
        }],
        wind: Some(Wind { speed_deci: 36, deg: Some(250), gust_deci: None }),
        cloudiness: Some(0),
        visibility: Some(10000),
        dt: 86400,
        sunrise: 0,
        sunset: 50000,
    }
}

fn raw_point(dt_txt: &str) -> ForecastPoint {
    ForecastPoint {
        dt: 0,
        dt_txt: String::from(dt_txt),
        temp_deci: 150,
        feels_like_deci: 145,
        temp_min_deci: 140,
        temp_max_deci: 160,
        pressure: 1000,
        humidity: 70,
        conditions: vec![Condition {
            id: 500,
            main: String::from("Rain"),
            description: String::from("light rain"),
            icon: String::from("10d"),
        }],
        wind: None,
        cloudiness: Some(40),
        visibility: None,
    }
}

fn raw_forecast(n: usize) -> RawForecast {
    let mut points = Vec::new();
    for i in 0..n {
        points.push(raw_point(&format!("2024-06-01 {:02}:00:00", i % 24)));
    }
    RawForecast {
        city: String::from("Paris"),
        country: String::from("FR"),
        lat_centi: 4885,
        lon_centi: 235,
        sunrise: 0,
        sunset: 0,
        points,
    }
}

fn some_key() -> Option<String> {
    Some(String::from("SECRET-REDACTED"))
}

#[test]
fn missing_city_is_rejected_with_400() {
    for kind in [Endpoint::Weather, Endpoint::Forecast] {
        let rep = prepare_request(kind, &query(None, None), &some_key()).unwrap_err();
        assert_eq!(rep.status, 400);
        let v: serde_json::Value = serde_json::from_str(&rep.body).expect("valid json");
        assert_eq!(v["error"], "Missing or empty `city` query parameter");
        assert_eq!(v["message"], "Please provide a valid city name");
    }
}

#[test]
fn whitespace_city_is_rejected_with_400() {
    for kind in [Endpoint::Weather, Endpoint::Forecast] {
        let rep = prepare_request(kind, &query(Some("   \t"), None), &some_key()).unwrap_err();
        assert_eq!(rep.status, 400);
        let v: serde_json::Value = serde_json::from_str(&rep.body).expect("valid json");
        assert!(v.get("error").is_some());
    }
}

#[test]
fn missing_key_is_a_distinguishable_500() {
    let rep = prepare_request(Endpoint::Weather, &query(Some("London"), None), &None).unwrap_err();
    assert_eq!(rep.status, 500);
    let v: serde_json::Value = serde_json::from_str(&rep.body).expect("valid json");
    assert_eq!(v["error"], "Missing OPENWEATHER_API_KEY");
    assert_eq!(v["message"], "Server configuration error");

    let p = prepare_request(Endpoint::Weather, &query(Some("London"), None), &some_key()).unwrap();
    let network = respond_weather(&p, WeatherEvent::TransportFailure);
    let parse = respond_weather(&p, WeatherEvent::Malformed);
    assert_eq!(network.status, 500);
    assert_eq!(parse.status, 500);
    assert_ne!(rep.body, network.body);
    assert_ne!(rep.body, parse.body);
    assert_ne!(network.body, parse.body);
}

#[test]
fn upstream_failure_becomes_404_with_city_searched() {
    let p = prepare_request(Endpoint::Weather, &query(Some(" London "), None), &some_key())
        .unwrap();
    let rep = respond_weather(&p, WeatherEvent::ErrorStatus(503));
    assert_eq!(rep.status, 404);
    let v: serde_json::Value = serde_json::from_str(&rep.body).expect("valid json");
    assert_eq!(v["error"], "City not found");
    assert_eq!(v["message"], "Weather API returned status: 503");
    assert_eq!(v["city_searched"], "London");
}

#[test]
fn forecast_upstream_failure_also_carries_city_searched() {
    let p = prepare_request(Endpoint::Forecast, &query(Some("Paris"), None), &some_key()).unwrap();
    let rep = respond_forecast(&p, ForecastEvent::ErrorStatus(404));
    assert_eq!(rep.status, 404);
    let v: serde_json::Value = serde_json::from_str(&rep.body).expect("valid json");
    assert_eq!(v["city_searched"], "Paris");
    assert_eq!(v["message"], "Weather API returned status: 404");
}

#[test]
fn url_carries_encoded_city_key_and_units() {
    let p = prepare_request(
        Endpoint::Weather,
        &query(Some("  New York  "), None),
        &Some(String::from("k123")),
    )
    .unwrap();
    assert_eq!(
        p.url,
        "https://api.openweathermap.org/data/2.5/weather?q=New%20York&appid=k123&units=metric"
    );
    let pf = prepare_request(
        Endpoint::Forecast,
        &query(Some("S\u{e3}o Paulo"), None),
        &Some(String::from("k123")),
    )
    .unwrap();
    assert_eq!(
        pf.url,
        "https://api.openweathermap.org/data/2.5/forecast?q=S%C3%A3o%20Paulo&appid=k123&units=metric"
    );
}

#[test]
fn format_json_must_match_exactly() {
    let key = some_key();
    let p = prepare_request(Endpoint::Weather, &query(Some("London"), Some("json")), &key).unwrap();
    assert!(p.wants_json);
    let p = prepare_request(Endpoint::Weather, &query(Some("London"), Some("JSON")), &key).unwrap();
    assert!(!p.wants_json);
    let p = prepare_request(Endpoint::Weather, &query(Some("London"), None), &key).unwrap();
    assert!(!p.wants_json);
}

#[test]
fn success_replies_carry_the_right_content_type() {
    let key = some_key();
    let p = prepare_request(Endpoint::Weather, &query(Some("London"), Some("json")), &key).unwrap();
    let rep = respond_weather(&p, WeatherEvent::Payload(raw_weather()));
    assert_eq!(rep.status, 200);
    assert_eq!(rep.content_type, "application/json");

    let p = prepare_request(Endpoint::Weather, &query(Some("London"), None), &key).unwrap();
    let rep = respond_weather(&p, WeatherEvent::Payload(raw_weather()));
    assert_eq!(rep.status, 200);
    assert_eq!(rep.content_type, "text/plain; charset=utf-8");
    assert!(rep.body.contains("London Weather Report"));

    let rep = respond_weather(&p, WeatherEvent::TransportFailure);
    assert_eq!(rep.content_type, "text/plain; charset=utf-8");
}

#[test]
fn empty_conditions_become_a_parse_error() {
    let key = some_key();
    let p = prepare_request(Endpoint::Weather, &query(Some("London"), Some("json")), &key).unwrap();
    let mut w = raw_weather();
    w.conditions = Vec::new();
    let rep = respond_weather(&p, WeatherEvent::Payload(w));
    assert_eq!(rep.status, 500);
    let v: serde_json::Value = serde_json::from_str(&rep.body).expect("valid json");
    assert_eq!(v["error"], "Data parsing error");

    let pf = prepare_request(Endpoint::Forecast, &query(Some("Paris"), None), &key).unwrap();
    let mut f = raw_forecast(3);
    f.points[1].conditions = Vec::new();
    let rep = respond_forecast(&pf, ForecastEvent::Payload(f));
    assert_eq!(rep.status, 500);
}

#[test]
fn forecast_is_truncated_to_forty_points() {
    let key = some_key();
    let p = prepare_request(Endpoint::Forecast, &query(Some("Paris"), Some("json")), &key)
        .unwrap();
    let rep = respond_forecast(&p, ForecastEvent::Payload(raw_forecast(45)));
    assert_eq!(rep.status, 200);
    let v: serde_json::Value = serde_json::from_str(&rep.body).expect("valid json");
    assert_eq!(v["forecasts"].as_array().expect("array").len(), 40);

    let rep = respond_forecast(&p, ForecastEvent::Payload(raw_forecast(5)));
    let v: serde_json::Value = serde_json::from_str(&rep.body).expect("valid json");
    assert_eq!(v["forecasts"].as_array().expect("array").len(), 5);
}

#[test]
fn a_bad_point_past_forty_does_not_matter() {
    let key = some_key();
    let p = prepare_request(Endpoint::Forecast, &query(Some("Paris"), Some("json")), &key)
        .unwrap();
    let mut f = raw_forecast(42);
    f.points[41].conditions = Vec::new();
    let rep = respond_forecast(&p, ForecastEvent::Payload(f));
    assert_eq!(rep.status, 200);
}

#[test]
fn identical_requests_get_identical_replies() {
    let key = some_key();
    for format in [None, Some("json")] {
        let p1 = prepare_request(Endpoint::Weather, &query(Some("London"), format), &key).unwrap();
        let p2 = prepare_request(Endpoint::Weather, &query(Some("London"), format), &key).unwrap();
        assert_eq!(p1.url, p2.url);
        let r1 = respond_weather(&p1, WeatherEvent::Payload(raw_weather()));
        let r2 = respond_weather(&p2, WeatherEvent::Payload(raw_weather()));
        assert_eq!(r1.status, r2.status);
        assert_eq!(r1.content_type, r2.content_type);
        assert_eq!(r1.body, r2.body);

        let pf1 = prepare_request(Endpoint::Forecast, &query(Some("Paris"), format), &key)
            .unwrap();
        let pf2 = prepare_request(Endpoint::Forecast, &query(Some("Paris"), format), &key)
            .unwrap();
        let f1 = respond_forecast(&pf1, ForecastEvent::Payload(raw_forecast(40)));
        let f2 = respond_forecast(&pf2, ForecastEvent::Payload(raw_forecast(40)));
        assert_eq!(f1.status, f2.status);
        assert_eq!(f1.content_type, f2.content_type);
        assert_eq!(f1.body, f2.body);
    }
}

#[test]
fn success_status_range_is_2xx() {
    assert!(is_success_status(200));
    assert!(is_success_status(204));
    assert!(is_success_status(299));
    assert!(!is_success_status(199));
    assert!(!is_success_status(300));
    assert!(!is_success_status(404));
    assert!(!is_success_status(500));
}
