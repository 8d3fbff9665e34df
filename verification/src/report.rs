//! The decorated text reports: a multi-section current-weather report and a
//! forecast listing grouped into day blocks of eight three-hour points.

use vstd::prelude::*;
use vstd::string::{StrSliceExecFns, StringExecFns};

use crate::emoji::{get_weather_emoji, spec_emoji};
use crate::model::{point_wf, ForecastPoint, ForecastSeries, Wind, WeatherObservation};
use crate::numfmt::{dec_u64, deci_str, centi_str, spec_dec, spec_deci, spec_centi};
use crate::timefmt::{format_timestamp, ts_formattable, utc_text_of};

verus! {

/// The wind line of the weather report: speed, direction when it came, an
/// explicit no-data marker when no wind data came.
pub open spec fn spec_wind_info(w: Option<Wind>) -> Seq<char> {
    match w {
        Some(wind) => match wind.deg {
            Some(deg) => "💨 Wind: "@ + spec_deci(wind.speed_deci as int) + " m/s at "@
                + spec_dec(deg as nat) + "°"@,
            None => "💨 Wind: "@ + spec_deci(wind.speed_deci as int) + " m/s"@,
        },
        None => "💨 Wind: No data"@,
    }
}

fn wind_info_str(w: &Option<Wind>) -> (r: String)
    ensures
        r@ == spec_wind_info(*w),
{
    match w {
        Some(wind) => {
            let mut out = String::from_str("💨 Wind: ");
            out.append(deci_str(wind.speed_deci).as_str());
            match wind.deg {
                Some(deg) => {
                    out.append(" m/s at ");
                    out.append(dec_u64(deg as u64).as_str());
                    out.append("°");
                    proof {
                        assert(out@ =~= spec_wind_info(*w));
                    }
                },
                None => {
                    out.append(" m/s");
                    proof {
                        assert(out@ =~= spec_wind_info(*w));
                    }
                },
            }
            out
        },
        None => String::from_str("💨 Wind: No data"),
    }
}

/// Metres rounded to tenths of a kilometre, half upward.
pub open spec fn spec_km_deci(v: u32) -> int {
    (v + 50) / 100
}

/// The visibility line of the weather report, in kilometres.
pub open spec fn spec_visibility_info(v: Option<u32>) -> Seq<char> {
    match v {
        Some(m) => "👁️ Visibility: "@ + spec_deci(spec_km_deci(m)) + " km"@,
        None => "👁️ Visibility: No data"@,
    }
}

fn visibility_info_str(v: &Option<u32>) -> (r: String)
    ensures
        r@ == spec_visibility_info(*v),
{
    match v {
        Some(m) => {
            let km_deci: i64 = ((*m as u64 + 50) / 100) as i64;
            let mut out = String::from_str("👁️ Visibility: ");
            out.append(deci_str(km_deci).as_str());
            out.append(" km");
            proof {
                assert(km_deci as int == spec_km_deci(*m));
                assert(out@ =~= spec_visibility_info(*v));
            }
            out
        },
        None => String::from_str("👁️ Visibility: No data"),
    }
}

/// The cloud-cover line of the weather report.
pub open spec fn spec_clouds_info(c: Option<u32>) -> Seq<char> {
    match c {
        Some(all) => "☁️ Cloudiness: "@ + spec_dec(all as nat) + "%"@,
        None => "☁️ Cloudiness: No data"@,
    }
}

fn clouds_info_str(c: &Option<u32>) -> (r: String)
    ensures
        r@ == spec_clouds_info(*c),
{
    match c {
        Some(all) => {
            let mut out = String::from_str("☁️ Cloudiness: ");
            out.append(dec_u64(*all as u64).as_str());
            out.append("%");
            proof {
                assert(out@ =~= spec_clouds_info(*c));
            }
            out
        },
        None => String::from_str("☁️ Cloudiness: No data"),
    }
}

/// The text current-weather report.
pub open spec fn spec_weather_text(o: WeatherObservation) -> Seq<char>
    recommends
        o.wf(),
{
    spec_emoji(o.conditions@[0].icon@) + " "@ + o.name@ + " Weather Report "@ + spec_emoji(
        o.conditions@[0].icon@,
    ) + "\n\n📍 Location: "@ + o.name@ + ", "@ + o.country@ + "\n🌐 Coordinates: "@ + spec_centi(
        o.lat_centi as int,
    ) + "°N, "@ + spec_centi(o.lon_centi as int) + "°E\n\n🌡️ Temperature: "@ + spec_deci(
        o.temp_deci as int,
    ) + "°C (feels like "@ + spec_deci(o.feels_like_deci as int) + "°C)\n📊 Min/Max: "@
        + spec_deci(o.temp_min_deci as int) + "°C / "@ + spec_deci(o.temp_max_deci as int)
        + "°C\n💧 Humidity: "@ + spec_dec(o.humidity as nat) + "%\n🔽 Pressure: "@ + spec_dec(
        o.pressure as nat,
    ) + " hPa\n☁️ Conditions: "@ + o.conditions@[0].description@ + "\n"@ + spec_wind_info(o.wind)
        + "\n"@ + spec_visibility_info(o.visibility) + "\n"@ + spec_clouds_info(o.cloudiness)
        + "\n\n🌅 Sunrise: "@ + utc_text_of(o.sunrise as int) + "\n🌇 Sunset: "@ + utc_text_of(
        o.sunset as int,
    ) + "\n⏰ Last Updated: "@ + utc_text_of(o.dt as int)
}

/// Renders the text current-weather report.
pub fn weather_text(o: &WeatherObservation) -> (r: String)
    requires
        o.wf(),
        ts_formattable(o.sunrise as int),
        ts_formattable(o.sunset as int),
        ts_formattable(o.dt as int),
    ensures
        r@ == spec_weather_text(*o),
{
    let emoji = get_weather_emoji(o.conditions[0].icon.as_str());
    let mut out = String::from_str(emoji);
    out.append(" ");
    out.append(o.name.as_str());
    out.append(" Weather Report ");
    out.append(emoji);
    out.append("\n\n📍 Location: ");
    out.append(o.name.as_str());
    out.append(", ");
    out.append(o.country.as_str());
    out.append("\n🌐 Coordinates: ");
    out.append(centi_str(o.lat_centi).as_str());
    out.append("°N, ");
    out.append(centi_str(o.lon_centi).as_str());
    out.append("°E\n\n🌡️ Temperature: ");
    out.append(deci_str(o.temp_deci).as_str());
    out.append("°C (feels like ");
    out.append(deci_str(o.feels_like_deci).as_str());
    out.append("°C)\n📊 Min/Max: ");
    out.append(deci_str(o.temp_min_deci).as_str());
    out.append("°C / ");
    out.append(deci_str(o.temp_max_deci).as_str());
    out.append("°C\n💧 Humidity: ");
    out.append(dec_u64(o.humidity as u64).as_str());
    out.append("%\n🔽 Pressure: ");
    out.append(dec_u64(o.pressure as u64).as_str());
    out.append(" hPa\n☁️ Conditions: ");
    out.append(o.conditions[0].description.as_str());
    out.append("\n");
    out.append(wind_info_str(&o.wind).as_str());
    out.append("\n");
    out.append(visibility_info_str(&o.visibility).as_str());
    out.append("\n");
    out.append(clouds_info_str(&o.cloudiness).as_str());
    out.append("\n\n🌅 Sunrise: ");
    out.append(format_timestamp(o.sunrise).as_str());
    out.append("\n🌇 Sunset: ");
    out.append(format_timestamp(o.sunset).as_str());
    out.append("\n⏰ Last Updated: ");
    out.append(format_timestamp(o.dt).as_str());
    proof {
        assert(out@ =~= spec_weather_text(*o));
    }
    out
}

/// Whether a day header stands before the point at this series index.
pub open spec fn spec_has_day_header(i: int) -> bool {
    i % 8 == 0
}

/// The day number shown in the header before the point at this index.
pub open spec fn spec_day_number(i: int) -> int {
    i / 8 + 1
}

/// The day header inserted before the point at this index.
pub open spec fn spec_day_header(i: int) -> Seq<char>
    recommends
        i >= 0,
{
    "\n📅 Day "@ + spec_dec(spec_day_number(i) as nat)
        + " Forecast:\n------------------------------\n"@
}

/// The wind suffix of a forecast line: present only when wind data came.
pub open spec fn spec_wind_suffix(w: Option<Wind>) -> Seq<char> {
    match w {
        Some(wind) => " | 💨 "@ + spec_deci(wind.speed_deci as int) + "m/s"@,
        None => Seq::<char>::empty(),
    }
}

fn wind_suffix_str(w: &Option<Wind>) -> (r: String)
    ensures
        r@ == spec_wind_suffix(*w),
{
    match w {
        Some(wind) => {
            let mut out = String::from_str(" | 💨 ");
            out.append(deci_str(wind.speed_deci).as_str());
            out.append("m/s");
            proof {
                assert(out@ =~= spec_wind_suffix(*w));
            }
            out
        },
        None => String::new(),
    }
}

/// One line of the forecast listing: the clock digits of the preformatted
/// timestamp, the glyph, temperatures, humidity, the description and the
/// wind suffix.
pub open spec fn spec_forecast_line(p: ForecastPoint) -> Seq<char>
    recommends
        point_wf(p),
{
    p.dt_txt@.subrange(11, 16) + " "@ + spec_emoji(p.conditions@[0].icon@) + " | "@ + spec_deci(
        p.temp_deci as int,
    ) + "°C (feels "@ + spec_deci(p.feels_like_deci as int) + "°C) | 💧"@ + spec_dec(
        p.humidity as nat,
    ) + "% | "@ + p.conditions@[0].description@ + " "@ + spec_wind_suffix(p.wind) + "\n"@
}

fn forecast_line(p: &ForecastPoint) -> (r: String)
    requires
        point_wf(*p),
    ensures
        r@ == spec_forecast_line(*p),
{
    let time = p.dt_txt.as_str().substring_char(11, 16);
    let mut out = String::from_str(time);
    out.append(" ");
    out.append(get_weather_emoji(p.conditions[0].icon.as_str()));
    out.append(" | ");
    out.append(deci_str(p.temp_deci).as_str());
    out.append("°C (feels ");
    out.append(deci_str(p.feels_like_deci).as_str());
    out.append("°C) | 💧");
    out.append(dec_u64(p.humidity as u64).as_str());
    out.append("% | ");
    out.append(p.conditions[0].description.as_str());
    out.append(" ");
    out.append(wind_suffix_str(&p.wind).as_str());
    out.append("\n");
    proof {
        assert(out@ =~= spec_forecast_line(*p));
    }
    out
}

/// The forecast listing from index `i` on: a day header before every eighth
/// point, then the point's line.
pub open spec fn spec_forecast_lines(pts: Seq<ForecastPoint>, i: int) -> Seq<char>
    decreases pts.len() - i,
{
    if i < 0 || i >= pts.len() {
        Seq::<char>::empty()
    } else {
        (if spec_has_day_header(i) {
            spec_day_header(i)
        } else {
            Seq::<char>::empty()
        }) + spec_forecast_line(pts[i]) + spec_forecast_lines(pts, i + 1)
    }
}

/// The text forecast report: a header naming the city and country, then the
/// day-grouped listing.
pub open spec fn spec_forecast_text(
    city: Seq<char>,
    country: Seq<char>,
    pts: Seq<ForecastPoint>,
) -> Seq<char> {
    "🔮 5-Day Forecast for "@ + city + ", "@ + country
        + "\n==================================================\n\n"@ + spec_forecast_lines(pts, 0)
}

/// Renders the text forecast report.
pub fn forecast_text(s: &ForecastSeries) -> (r: String)
    requires
        s.wf(),
    ensures
        r@ == spec_forecast_text(s.city@, s.country@, s.points@),
{
    let mut out = String::from_str("🔮 5-Day Forecast for ");
    out.append(s.city.as_str());
    out.append(", ");
    out.append(s.country.as_str());
    out.append("\n==================================================\n\n");
    let ghost head = out@;
    let n = s.points.len();
    let mut i: usize = 0;
    while i < n
        invariant
            i <= n,
            n == s.points@.len(),
            s.wf(),
            head + spec_forecast_lines(s.points@, 0) == out@ + spec_forecast_lines(
                s.points@,
                i as int,
            ),
        decreases n - i,
    {
        if i % 8 == 0 {
            out.append("\n📅 Day ");
            out.append(dec_u64((i / 8 + 1) as u64).as_str());
            out.append(" Forecast:\n------------------------------\n");
        }
        out.append(forecast_line(&s.points[i]).as_str());
        proof {
            assert(head + spec_forecast_lines(s.points@, 0) =~= out@ + spec_forecast_lines(
                s.points@,
                i + 1,
            ));
        }
        i = i + 1;
    }
    proof {
        assert(spec_forecast_lines(s.points@, n as int) =~= Seq::<char>::empty());
        assert(out@ =~= spec_forecast_text(s.city@, s.country@, s.points@));
    }
    out
}

/// Over a forty-point series the day headers stand exactly at indices 0, 8,
/// 16, 24 and 32; their day numbers lie between one and five and grow with
/// the index, so the days read one to five in order.
pub proof fn lemma_day_headers_forty(i: int, j: int)
    requires
        0 <= i < 40,
        0 <= j < 40,
    ensures
        spec_has_day_header(i) <==> (i == 0 || i == 8 || i == 16 || i == 24 || i == 32),
        spec_has_day_header(i) ==> 1 <= spec_day_number(i) <= 5,
        spec_has_day_header(i) && spec_has_day_header(j) && i < j ==> spec_day_number(i)
            < spec_day_number(j),
{
}

} // verus!
