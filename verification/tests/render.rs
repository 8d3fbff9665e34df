use weatherapp::emoji::get_weather_emoji;
use weatherapp::model::{Condition, ForecastPoint, ForecastSeries, Wind, WeatherObservation};
use weatherapp::numfmt::{centi_str, dec_u64, deci_str};
use weatherapp::report::{forecast_text, weather_text};
use weatherapp::trim::trim_str;

fn cond(description: &str, icon: &str) -> Condition {
    Condition {
        id: 800,
        main: String::from("Clear"),
        description: String::from(description),
        icon: String::from(icon),
    }
}

fn fixture_observation() -> WeatherObservation {
    WeatherObservation {
        name: String::from("London"),
        country: String::from("GB"),
        lat_centi: 5151,
        lon_centi: -13,
        temp_deci: 213,
        feels_like_deci: 208,
        temp_min_deci: 198,
        temp_max_deci: 225,
        pressure: 1012,
        humidity: 60,
        conditions: vec![cond("clear sky", "01d")],
        wind: Some(Wind { speed_deci: 36, deg: Some(250), gust_deci: None }),
        cloudiness: Some(0),
        visibility: Some(10000),
        dt: 86400,
        sunrise: 0,
        sunset: 50000,
    }
}

fn point(dt_txt: &str, icon: &str, temp_deci: i64, wind: Option<Wind>) -> ForecastPoint {
    ForecastPoint {
        dt: 0,
        dt_txt: String::from(dt_txt),
        temp_deci,
        feels_like_deci: temp_deci - 5,
        temp_min_deci: temp_deci - 10,
        temp_max_deci: temp_deci + 10,
        pressure: 1000,
        humidity: 70,
        conditions: vec![cond("light rain", icon)],
        wind,
        cloudiness: Some(40),
        visibility: None,
    }
}

#[test]
fn emoji_covers_documented_prefixes() {
    assert_eq!(get_weather_emoji("01d"), "\u{2600}\u{fe0f}");
    assert_eq!(get_weather_emoji("02n"), "\u{26c5}");
    assert_eq!(get_weather_emoji("03d"), "\u{2601}\u{fe0f}");
    assert_eq!(get_weather_emoji("04x"), "\u{2601}\u{fe0f}");
    assert_eq!(get_weather_emoji("09d"), "\u{1f327}\u{fe0f}");
    assert_eq!(get_weather_emoji("10n"), "\u{1f326}\u{fe0f}");
    assert_eq!(get_weather_emoji("11d"), "\u{26c8}\u{fe0f}");
    assert_eq!(get_weather_emoji("13d"), "\u{1f328}\u{fe0f}");
    assert_eq!(get_weather_emoji("50d"), "\u{1f32b}\u{fe0f}");
}

#[test]
fn emoji_unknown_prefix_falls_back() {
    assert_eq!(get_weather_emoji("99d"), "\u{1f324}\u{fe0f}");
    assert_eq!(get_weather_emoji("ab"), "\u{1f324}\u{fe0f}");
    assert_eq!(get_weather_emoji("12d"), "\u{1f324}\u{fe0f}");
}

#[test]
fn decimal_rendering() {
    assert_eq!(dec_u64(0), "0");
    assert_eq!(dec_u64(907), "907");
    assert_eq!(deci_str(213), "21.3");
    assert_eq!(deci_str(-5), "-0.5");
    assert_eq!(deci_str(-213), "-21.3");
    assert_eq!(deci_str(200), "20.0");
    assert_eq!(centi_str(5151), "51.51");
    assert_eq!(centi_str(-13), "-0.13");
    assert_eq!(centi_str(700), "7.00");
}

#[test]
fn trim_removes_edges_only() {
    assert_eq!(trim_str("  New York  "), "New York");
    assert_eq!(trim_str("London"), "London");
    assert_eq!(trim_str(" \t\n "), "");
    assert_eq!(trim_str(""), "");
}

#[test]
fn weather_json_fields_mirror_fixture() {
    let o = fixture_observation();
    let body = weatherapp::json::weather_json(&o);
    let v: serde_json::Value = serde_json::from_str(&body).expect("valid json");
    let obj = v.as_object().expect("object");
    assert_eq!(obj.len(), 18);
    assert_eq!(v["city"], "London");
    assert_eq!(v["country"], "GB");
    assert_eq!(v["temperature"].as_f64(), Some(21.3));
    assert_eq!(v["feels_like"].as_f64(), Some(20.8));
    assert_eq!(v["temp_min"].as_f64(), Some(19.8));
    assert_eq!(v["temp_max"].as_f64(), Some(22.5));
    assert_eq!(v["humidity"], 60);
    assert_eq!(v["pressure"], 1012);
    assert_eq!(v["description"], "clear sky");
    assert_eq!(v["icon"], "01d");
    assert_eq!(v["wind_speed"].as_f64(), Some(3.6));
    assert_eq!(v["wind_direction"], 250);
    assert_eq!(v["cloudiness"], 0);
    assert_eq!(v["visibility"], 10000);
    assert_eq!(v["sunrise"], "1970-01-01 00:00:00 UTC");
    assert_eq!(v["sunset"], "1970-01-01 13:53:20 UTC");
    assert_eq!(v["timestamp"], "1970-01-02 00:00:00 UTC");
    assert_eq!(v["coordinates"][0].as_f64(), Some(51.51));
    assert_eq!(v["coordinates"][1].as_f64(), Some(-0.13));
}

#[test]
fn weather_json_absent_fields_are_null() {
    let mut o = fixture_observation();
    o.wind = None;
    o.cloudiness = None;
    o.visibility = None;
    let body = weatherapp::json::weather_json(&o);
    let v: serde_json::Value = serde_json::from_str(&body).expect("valid json");
    assert!(v["wind_speed"].is_null());
    assert!(v["wind_direction"].is_null());
    assert!(v["cloudiness"].is_null());
    assert!(v["visibility"].is_null());
}

#[test]
fn weather_json_escapes_strings() {
    let mut o = fixture_observation();
    o.name = String::from("Quote\"City\\Town");
    let body = weatherapp::json::weather_json(&o);
    let v: serde_json::Value = serde_json::from_str(&body).expect("valid json");
    assert_eq!(v["city"], "Quote\"City\\Town");
}

#[test]
fn weather_text_report_sections() {
    let o = fixture_observation();
    let text = weather_text(&o);
    assert!(text.starts_with("\u{2600}\u{fe0f} London Weather Report \u{2600}\u{fe0f}"));
    assert!(text.contains("\u{1f4cd} Location: London, GB"));
    assert!(text.contains("Coordinates: 51.51\u{b0}N, -0.13\u{b0}E"));
    assert!(text.contains("Temperature: 21.3\u{b0}C (feels like 20.8\u{b0}C)"));
    assert!(text.contains("Min/Max: 19.8\u{b0}C / 22.5\u{b0}C"));
    assert!(text.contains("Humidity: 60%"));
    assert!(text.contains("Pressure: 1012 hPa"));
    assert!(text.contains("Conditions: clear sky"));
    assert!(text.contains("Wind: 3.6 m/s at 250\u{b0}"));
    assert!(text.contains("Visibility: 10.0 km"));
    assert!(text.contains("Cloudiness: 0%"));
    assert!(text.contains("Sunrise: 1970-01-01 00:00:00 UTC"));
    assert!(text.contains("Sunset: 1970-01-01 13:53:20 UTC"));
    assert!(text.contains("Last Updated: 1970-01-02 00:00:00 UTC"));
}

#[test]
fn weather_text_no_data_markers() {
    let mut o = fixture_observation();
    o.wind = None;
    o.cloudiness = None;
    o.visibility = None;
    let text = weather_text(&o);
    assert!(text.contains("Wind: No data"));
    assert!(text.contains("Visibility: No data"));
    assert!(text.contains("Cloudiness: No data"));
}

fn forty_points() -> Vec<ForecastPoint> {
    let mut pts = Vec::new();
    for day in 0..5 {
        for slot in 0..8 {
            let txt = format!("2024-06-0{} {:02}:00:00", day + 1, slot * 3);
            pts.push(point(&txt, "10d", 150 + day as i64, None));
        }
    }
    pts
}

#[test]
fn forecast_text_groups_forty_points_into_five_days() {
    let series = ForecastSeries {
        city: String::from("Paris"),
        country: String::from("FR"),
        lat_centi: 4885,
        lon_centi: 235,
        sunrise: 0,
        sunset: 0,
        points: forty_points(),
    };
    let text = forecast_text(&series);
    assert!(text.starts_with("\u{1f52e} 5-Day Forecast for Paris, FR\n"));
    assert_eq!(text.matches("\u{1f4c5} Day ").count(), 5);
    for day in 1..=5 {
        assert!(text.contains(&format!("\u{1f4c5} Day {} Forecast:", day)));
    }
    let d1 = text.find("Day 1").unwrap();
    let d2 = text.find("Day 2").unwrap();
    let d5 = text.find("Day 5").unwrap();
    assert!(d1 < d2 && d2 < d5);
    let between = &text[d1..d2];
    assert_eq!(between.matches(" | \u{1f4a7}").count(), 8);
    assert_eq!(text.matches(" | \u{1f4a7}").count(), 40);
    assert!(text.contains("00:00 \u{1f326}\u{fe0f} | 15.0\u{b0}C (feels 14.5\u{b0}C) | \u{1f4a7}70% | light rain \n"));
}

#[test]
fn forecast_text_wind_suffix_present_only_with_wind() {
    let series = ForecastSeries {
        city: String::from("Oslo"),
        country: String::from("NO"),
        lat_centi: 5991,
        lon_centi: 1075,
        sunrise: 0,
        sunset: 0,
        points: vec![point(
            "2024-06-01 09:00:00",
            "13d",
            -12,
            Some(Wind { speed_deci: 52, deg: None, gust_deci: None }),
        )],
    };
    let text = forecast_text(&series);
    assert!(text.contains("09:00 \u{1f328}\u{fe0f} | -1.2\u{b0}C (feels -1.7\u{b0}C) | \u{1f4a7}70% | light rain  | \u{1f4a8} 5.2m/s\n"));
}

#[test]
fn forecast_json_lists_points_verbatim() {
    let series = ForecastSeries {
        city: String::from("Paris"),
        country: String::from("FR"),
        lat_centi: 4885,
        lon_centi: 235,
        sunrise: 0,
        sunset: 0,
        points: vec![
            point("2024-06-01 00:00:00", "10d", 150, Some(Wind { speed_deci: 31, deg: Some(10), gust_deci: None })),
            point("2024-06-01 03:00:00", "01n", 140, None),
        ],
    };
    let body = weatherapp::json::forecast_json(&series);
    let v: serde_json::Value = serde_json::from_str(&body).expect("valid json");
    assert_eq!(v["city"], "Paris");
    assert_eq!(v["country"], "FR");
    let list = v["forecasts"].as_array().expect("array");
    assert_eq!(list.len(), 2);
    assert_eq!(list[0]["datetime"], "2024-06-01 00:00:00");
    assert_eq!(list[0]["temperature"].as_f64(), Some(15.0));
    assert_eq!(list[0]["wind_speed"].as_f64(), Some(3.1));
    assert_eq!(list[1]["wind_speed"], serde_json::Value::Null);
    assert_eq!(list[1]["icon"], "01n");
    assert_eq!(list[1]["cloudiness"], 40);
}
