//! The JSON view of the weather data: a fixed field set written directly as
//! text, with strings escaped as JSON requires.

use vstd::prelude::*;
use vstd::string::{StrSliceExecFns, StringExecFns};

use crate::model::{ForecastPoint, Wind, WeatherObservation};
use crate::numfmt::{dec_u64, deci_str, centi_str, spec_dec, spec_deci, spec_centi, spec_digit};
use crate::strutil::push_char;
use crate::timefmt::{format_timestamp, ts_formattable, utc_text_of};

verus! {

/// The lower-case hexadecimal digit for a value below sixteen.
pub open spec fn spec_hex_lower(d: nat) -> char
    recommends
        d < 16,
{
    if d < 10 {
        spec_digit(d)
    } else if d == 10 {
        'a'
    } else if d == 11 {
        'b'
    } else if d == 12 {
        'c'
    } else if d == 13 {
        'd'
    } else if d == 14 {
        'e'
    } else {
        'f'
    }
}

/// How one character is written inside a JSON string: quotes, backslashes
/// and control characters are escaped, everything else stands as itself.
pub open spec fn spec_escape_char(c: char) -> Seq<char> {
    if c == '"' {
        seq!['\\', '"']
    } else if c == '\\' {
        seq!['\\', '\\']
    } else if c == '\u{08}' {
        seq!['\\', 'b']
    } else if c == '\u{0C}' {
        seq!['\\', 'f']
    } else if c == '\n' {
        seq!['\\', 'n']
    } else if c == '\r' {
        seq!['\\', 'r']
    } else if c == '\t' {
        seq!['\\', 't']
    } else if (c as u32) < 32 {
        seq!['\\', 'u', '0', '0', spec_hex_lower((c as u32 / 16) as nat), spec_hex_lower(
            (c as u32 % 16) as nat,
        )]
    } else {
        seq![c]
    }
}

/// A text with each character escaped as JSON requires.
pub open spec fn spec_json_escaped(s: Seq<char>) -> Seq<char>
    decreases s.len(),
{
    if s.len() == 0 {
        Seq::<char>::empty()
    } else {
        spec_escape_char(s[0]) + spec_json_escaped(s.drop_first())
    }
}

/// A JSON string literal: the escaped text between double quotes.
pub open spec fn spec_json_string(s: Seq<char>) -> Seq<char> {
    seq!['"'] + spec_json_escaped(s) + seq!['"']
}

proof fn lemma_json_escaped_snoc(s: Seq<char>, c: char)
    ensures
        spec_json_escaped(s.push(c)) == spec_json_escaped(s) + spec_escape_char(c),
    decreases s.len(),
{
    if s.len() == 0 {
        assert(s.push(c).drop_first() =~= Seq::<char>::empty());
        assert(s.push(c)[0] == c);
        assert(spec_json_escaped(Seq::<char>::empty()) =~= Seq::<char>::empty());
        assert(spec_json_escaped(s.push(c)) =~= spec_json_escaped(s) + spec_escape_char(c));
    } else {
        assert(s.push(c).drop_first() =~= s.drop_first().push(c));
        lemma_json_escaped_snoc(s.drop_first(), c);
        assert(spec_json_escaped(s.push(c)) =~= spec_json_escaped(s) + spec_escape_char(c));
    }
}

fn hex_lower_str(d: u32) -> (r: &'static str)
    requires
        d < 16,
    ensures
        r@ == seq![spec_hex_lower(d as nat)],
{
    if d < 10 {
        crate::numfmt::digit_str(d as u64)
    } else if d == 10 {
        proof {
            reveal_strlit("a");
            assert("a"@ =~= seq![spec_hex_lower(d as nat)]);
        }
        "a"
    } else if d == 11 {
        proof {
            reveal_strlit("b");
            assert("b"@ =~= seq![spec_hex_lower(d as nat)]);
        }
        "b"
    } else if d == 12 {
        proof {
            reveal_strlit("c");
            assert("c"@ =~= seq![spec_hex_lower(d as nat)]);
        }
        "c"
    } else if d == 13 {
        proof {
            reveal_strlit("d");
            assert("d"@ =~= seq![spec_hex_lower(d as nat)]);
        }
        "d"
    } else if d == 14 {
        proof {
            reveal_strlit("e");
            assert("e"@ =~= seq![spec_hex_lower(d as nat)]);
        }
        "e"
    } else {
        proof {
            reveal_strlit("f");
            assert("f"@ =~= seq![spec_hex_lower(d as nat)]);
        }
        "f"
    }
}

/// Writes a text as a JSON string literal.
pub fn json_string_of(s: &str) -> (r: String)
    ensures
        r@ == spec_json_string(s@),
{
    let n = s.unicode_len();
    let mut out = String::from_str("\"");
    proof {
        reveal_strlit("\"");
        assert(out@ =~= seq!['"'] + spec_json_escaped(s@.take(0)));
    }
    let mut i: usize = 0;
    while i < n
        invariant
            i <= n,
            n == s@.len(),
            out@ == seq!['"'] + spec_json_escaped(s@.take(i as int)),
        decreases n - i,
    {
        let ghost before = out@;
        let c = s.get_char(i);
        if c == '"' {
            out.append("\\\"");
            proof {
                reveal_strlit("\\\"");
                assert("\\\""@ =~= spec_escape_char(c));
            }
        } else if c == '\\' {
            out.append("\\\\");
            proof {
                reveal_strlit("\\\\");
                assert("\\\\"@ =~= spec_escape_char(c));
            }
        } else if c == '\u{08}' {
            out.append("\\b");
            proof {
                reveal_strlit("\\b");
                assert("\\b"@ =~= spec_escape_char(c));
            }
        } else if c == '\u{0C}' {
            out.append("\\f");
            proof {
                reveal_strlit("\\f");
                assert("\\f"@ =~= spec_escape_char(c));
            }
        } else if c == '\n' {
            out.append("\\n");
            proof {
                reveal_strlit("\\n");
                assert("\\n"@ =~= spec_escape_char(c));
            }
        } else if c == '\r' {
            out.append("\\r");
            proof {
                reveal_strlit("\\r");
                assert("\\r"@ =~= spec_escape_char(c));
            }
        } else if c == '\t' {
            out.append("\\t");
            proof {
                reveal_strlit("\\t");
                assert("\\t"@ =~= spec_escape_char(c));
            }
        } else if (c as u32) < 32 {
            out.append("\\u00");
            out.append(hex_lower_str((c as u32) / 16));
            out.append(hex_lower_str((c as u32) % 16));
            proof {
                reveal_strlit("\\u00");
                assert(out@ =~= before + spec_escape_char(c));
            }
        } else {
            push_char(&mut out, c);
            proof {
                assert(before.push(c) =~= before + seq![c]);
                assert(seq![c] =~= spec_escape_char(c));
            }
        }
        proof {
            assert(out@ == before + spec_escape_char(c));
            lemma_json_escaped_snoc(s@.take(i as int), s@[i as int]);
            assert(s@.take(i as int).push(s@[i as int]) =~= s@.take(i + 1));
            assert(out@ =~= seq!['"'] + spec_json_escaped(s@.take(i + 1)));
        }
        i = i + 1;
    }
    out.append("\"");
    proof {
        assert(s@.take(n as int) =~= s@);
        reveal_strlit("\"");
        assert(out@ =~= spec_json_string(s@));
    }
    out
}

/// `null`, or a tenth-scaled number with one decimal digit.
pub open spec fn spec_opt_deci(v: Option<i64>) -> Seq<char> {
    match v {
        Some(x) => spec_deci(x as int),
        None => "null"@,
    }
}

/// `null`, or a plain whole number.
pub open spec fn spec_opt_u32(v: Option<u32>) -> Seq<char> {
    match v {
        Some(x) => spec_dec(x as nat),
        None => "null"@,
    }
}

fn opt_deci_str(v: &Option<i64>) -> (r: String)
    ensures
        r@ == spec_opt_deci(*v),
{
    match v {
        Some(x) => deci_str(*x),
        None => String::from_str("null"),
    }
}

fn opt_u32_str(v: &Option<u32>) -> (r: String)
    ensures
        r@ == spec_opt_u32(*v),
{
    match v {
        Some(x) => dec_u64(*x as u64),
        None => String::from_str("null"),
    }
}

/// The wind speed field of the JSON views: `null` when no wind data came.
pub open spec fn spec_wind_speed_json(w: Option<Wind>) -> Seq<char> {
    match w {
        Some(wind) => spec_deci(wind.speed_deci as int),
        None => "null"@,
    }
}

/// The wind direction field of the JSON weather view.
pub open spec fn spec_wind_direction_json(w: Option<Wind>) -> Seq<char> {
    match w {
        Some(wind) => spec_opt_u32(wind.deg),
        None => "null"@,
    }
}

fn wind_speed_str(w: &Option<Wind>) -> (r: String)
    ensures
        r@ == spec_wind_speed_json(*w),
{
    match w {
        Some(wind) => deci_str(wind.speed_deci),
        None => String::from_str("null"),
    }
}

fn wind_direction_str(w: &Option<Wind>) -> (r: String)
    ensures
        r@ == spec_wind_direction_json(*w),
{
    match w {
        Some(wind) => opt_u32_str(&wind.deg),
        None => String::from_str("null"),
    }
}

/// The JSON current-weather view: every field of the observation, none
/// invented and none dropped.
pub open spec fn spec_weather_json(o: WeatherObservation) -> Seq<char>
    recommends
        o.wf(),
{
    "{\"city\":"@ + spec_json_string(o.name@) + ",\"country\":"@ + spec_json_string(o.country@)
        + ",\"temperature\":"@ + spec_deci(o.temp_deci as int) + ",\"feels_like\":"@ + spec_deci(
        o.feels_like_deci as int,
    ) + ",\"temp_min\":"@ + spec_deci(o.temp_min_deci as int) + ",\"temp_max\":"@ + spec_deci(
        o.temp_max_deci as int,
    ) + ",\"humidity\":"@ + spec_dec(o.humidity as nat) + ",\"pressure\":"@ + spec_dec(
        o.pressure as nat,
    ) + ",\"description\":"@ + spec_json_string(o.conditions@[0].description@) + ",\"icon\":"@
        + spec_json_string(o.conditions@[0].icon@) + ",\"wind_speed\":"@ + spec_wind_speed_json(
        o.wind,
    ) + ",\"wind_direction\":"@ + spec_wind_direction_json(o.wind) + ",\"cloudiness\":"@
        + spec_opt_u32(o.cloudiness) + ",\"visibility\":"@ + spec_opt_u32(o.visibility)
        + ",\"sunrise\":"@ + spec_json_string(utc_text_of(o.sunrise as int)) + ",\"sunset\":"@
        + spec_json_string(utc_text_of(o.sunset as int)) + ",\"coordinates\":["@ + spec_centi(
        o.lat_centi as int,
    ) + ","@ + spec_centi(o.lon_centi as int) + "]"@ + ",\"timestamp\":"@ + spec_json_string(
        utc_text_of(o.dt as int),
    ) + "}"@
}

/// Renders the JSON current-weather view.
pub fn weather_json(o: &WeatherObservation) -> (r: String)
    requires
        o.wf(),
        ts_formattable(o.sunrise as int),
        ts_formattable(o.sunset as int),
        ts_formattable(o.dt as int),
    ensures
        r@ == spec_weather_json(*o),
{
    let mut out = String::from_str("{\"city\":");
    out.append(json_string_of(o.name.as_str()).as_str());
    out.append(",\"country\":");
    out.append(json_string_of(o.country.as_str()).as_str());
    out.append(",\"temperature\":");
    out.append(deci_str(o.temp_deci).as_str());
    out.append(",\"feels_like\":");
    out.append(deci_str(o.feels_like_deci).as_str());
    out.append(",\"temp_min\":");
    out.append(deci_str(o.temp_min_deci).as_str());
    out.append(",\"temp_max\":");
    out.append(deci_str(o.temp_max_deci).as_str());
    out.append(",\"humidity\":");
    out.append(dec_u64(o.humidity as u64).as_str());
    out.append(",\"pressure\":");
    out.append(dec_u64(o.pressure as u64).as_str());
    out.append(",\"description\":");
    out.append(json_string_of(o.conditions[0].description.as_str()).as_str());
    out.append(",\"icon\":");
    out.append(json_string_of(o.conditions[0].icon.as_str()).as_str());
    out.append(",\"wind_speed\":");
    out.append(wind_speed_str(&o.wind).as_str());
    out.append(",\"wind_direction\":");
    out.append(wind_direction_str(&o.wind).as_str());
    out.append(",\"cloudiness\":");
    out.append(opt_u32_str(&o.cloudiness).as_str());
    out.append(",\"visibility\":");
    out.append(opt_u32_str(&o.visibility).as_str());
    out.append(",\"sunrise\":");
    out.append(json_string_of(format_timestamp(o.sunrise).as_str()).as_str());
    out.append(",\"sunset\":");
    out.append(json_string_of(format_timestamp(o.sunset).as_str()).as_str());
    out.append(",\"coordinates\":[");
    out.append(centi_str(o.lat_centi).as_str());
    out.append(",");
    out.append(centi_str(o.lon_centi).as_str());
    out.append("]");
    out.append(",\"timestamp\":");
    out.append(json_string_of(format_timestamp(o.dt).as_str()).as_str());
    out.append("}");
    proof {
        assert(out@ =~= spec_weather_json(*o));
    }
    out
}

/// The JSON view of one forecast point.
pub open spec fn spec_forecast_point_json(p: ForecastPoint) -> Seq<char>
    recommends
        crate::model::point_wf(p),
{
    "{\"datetime\":"@ + spec_json_string(p.dt_txt@) + ",\"temperature\":"@ + spec_deci(
        p.temp_deci as int,
    ) + ",\"feels_like\":"@ + spec_deci(p.feels_like_deci as int) + ",\"temp_min\":"@ + spec_deci(
        p.temp_min_deci as int,
    ) + ",\"temp_max\":"@ + spec_deci(p.temp_max_deci as int) + ",\"humidity\":"@ + spec_dec(
        p.humidity as nat,
    ) + ",\"pressure\":"@ + spec_dec(p.pressure as nat) + ",\"description\":"@ + spec_json_string(
        p.conditions@[0].description@,
    ) + ",\"icon\":"@ + spec_json_string(p.conditions@[0].icon@) + ",\"wind_speed\":"@
        + spec_wind_speed_json(p.wind) + ",\"cloudiness\":"@ + spec_opt_u32(p.cloudiness) + "}"@
}

fn forecast_point_json(p: &ForecastPoint) -> (r: String)
    requires
        crate::model::point_wf(*p),
    ensures
        r@ == spec_forecast_point_json(*p),
{
    let mut out = String::from_str("{\"datetime\":");
    out.append(json_string_of(p.dt_txt.as_str()).as_str());
    out.append(",\"temperature\":");
    out.append(deci_str(p.temp_deci).as_str());
    out.append(",\"feels_like\":");
    out.append(deci_str(p.feels_like_deci).as_str());
    out.append(",\"temp_min\":");
    out.append(deci_str(p.temp_min_deci).as_str());
    out.append(",\"temp_max\":");
    out.append(deci_str(p.temp_max_deci).as_str());
    out.append(",\"humidity\":");
    out.append(dec_u64(p.humidity as u64).as_str());
    out.append(",\"pressure\":");
    out.append(dec_u64(p.pressure as u64).as_str());
    out.append(",\"description\":");
    out.append(json_string_of(p.conditions[0].description.as_str()).as_str());
    out.append(",\"icon\":");
    out.append(json_string_of(p.conditions[0].icon.as_str()).as_str());
    out.append(",\"wind_speed\":");
    out.append(wind_speed_str(&p.wind).as_str());
    out.append(",\"cloudiness\":");
    out.append(opt_u32_str(&p.cloudiness).as_str());
    out.append("}");
    proof {
        assert(out@ =~= spec_forecast_point_json(*p));
    }
    out
}

/// The comma-separated JSON array elements for the points from index `i` on.
pub open spec fn spec_forecast_points_json(pts: Seq<ForecastPoint>, i: int) -> Seq<char>
    decreases pts.len() - i,
{
    if i < 0 || i >= pts.len() {
        Seq::<char>::empty()
    } else {
        (if i > 0 {
            ","@
        } else {
            Seq::<char>::empty()
        }) + spec_forecast_point_json(pts[i]) + spec_forecast_points_json(pts, i + 1)
    }
}

/// The JSON forecast view: the city, the country, and the point sequence
/// verbatim, without day grouping.
pub open spec fn spec_forecast_json(city: Seq<char>, country: Seq<char>, pts: Seq<ForecastPoint>) -> Seq<
    char,
> {
    "{\"city\":"@ + spec_json_string(city) + ",\"country\":"@ + spec_json_string(country)
        + ",\"forecasts\":["@ + spec_forecast_points_json(pts, 0) + "]}"@
}

/// Renders the JSON forecast view.
pub fn forecast_json(s: &crate::model::ForecastSeries) -> (r: String)
    requires
        s.wf(),
    ensures
        r@ == spec_forecast_json(s.city@, s.country@, s.points@),
{
    let mut out = String::from_str("{\"city\":");
    out.append(json_string_of(s.city.as_str()).as_str());
    out.append(",\"country\":");
    out.append(json_string_of(s.country.as_str()).as_str());
    out.append(",\"forecasts\":[");
    let ghost head = out@;
    let n = s.points.len();
    let mut i: usize = 0;
    while i < n
        invariant
            i <= n,
            n == s.points@.len(),
            s.wf(),
            head + spec_forecast_points_json(s.points@, 0) == out@ + spec_forecast_points_json(
                s.points@,
                i as int,
            ),
        decreases n - i,
    {
        let ghost before = out@;
        if i > 0 {
            out.append(",");
        }
        out.append(forecast_point_json(&s.points[i]).as_str());
        proof {
            assert(head + spec_forecast_points_json(s.points@, 0) =~= out@
                + spec_forecast_points_json(s.points@, i + 1));
        }
        i = i + 1;
    }
    proof {
        assert(spec_forecast_points_json(s.points@, n as int) =~= Seq::<char>::empty());
        assert(out@ =~= head + spec_forecast_points_json(s.points@, 0));
    }
    out.append("]}");
    proof {
        assert(out@ =~= spec_forecast_json(s.city@, s.country@, s.points@));
    }
    out
}

} // verus!
