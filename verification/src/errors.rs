//! The error classifier: each failure condition maps to an HTTP status and
//! a structured JSON error body, whatever rendering format the caller asked
//! for.

use vstd::prelude::*;
use vstd::string::StringExecFns;

use crate::json::{json_string_of, spec_json_string};
use crate::model::GatewayError;
use crate::numfmt::{dec_u64, spec_dec};

verus! {

/// The HTTP status of each failure condition.
pub open spec fn spec_error_status(e: GatewayError) -> u16 {
    match e {
        GatewayError::Validation => 400,
        GatewayError::Config => 500,
        GatewayError::Network => 500,
        GatewayError::Upstream(_) => 404,
        GatewayError::Parse => 500,
    }
}

/// The `error` field of each failure condition.
pub open spec fn spec_error_label(e: GatewayError) -> Seq<char> {
    match e {
        GatewayError::Validation => "Missing or empty `city` query parameter"@,
        GatewayError::Config => "Missing OPENWEATHER_API_KEY"@,
        GatewayError::Network => "Network error"@,
        GatewayError::Upstream(_) => "City not found"@,
        GatewayError::Parse => "Data parsing error"@,
    }
}

/// The `message` field of each failure condition; an upstream failure
/// carries the provider's status inside the message.
pub open spec fn spec_error_message(e: GatewayError) -> Seq<char> {
    match e {
        GatewayError::Validation => "Please provide a valid city name"@,
        GatewayError::Config => "Server configuration error"@,
        GatewayError::Network => "Failed to reach weather API"@,
        GatewayError::Upstream(s) => "Weather API returned status: "@ + spec_dec(s as nat),
        GatewayError::Parse => "Failed to parse weather API response"@,
    }
}

/// The JSON error body: `error` and `message`, and for an upstream failure
/// also `city_searched` with the city the caller asked about.
pub open spec fn spec_error_body(e: GatewayError, city: Seq<char>) -> Seq<char> {
    "{\"error\":"@ + spec_json_string(spec_error_label(e)) + ",\"message\":"@ + spec_json_string(
        spec_error_message(e),
    ) + (if e is Upstream {
        ",\"city_searched\":"@ + spec_json_string(city)
    } else {
        Seq::<char>::empty()
    }) + "}"@
}

/// The HTTP status for a failure condition.
pub fn error_status(e: &GatewayError) -> (r: u16)
    ensures
        r == spec_error_status(*e),
{
    match e {
        GatewayError::Validation => 400,
        GatewayError::Config => 500,
        GatewayError::Network => 500,
        GatewayError::Upstream(_) => 404,
        GatewayError::Parse => 500,
    }
}

fn error_label(e: &GatewayError) -> (r: &'static str)
    ensures
        r@ == spec_error_label(*e),
{
    match e {
        GatewayError::Validation => "Missing or empty `city` query parameter",
        GatewayError::Config => "Missing OPENWEATHER_API_KEY",
        GatewayError::Network => "Network error",
        GatewayError::Upstream(_) => "City not found",
        GatewayError::Parse => "Data parsing error",
    }
}

fn error_message(e: &GatewayError) -> (r: String)
    ensures
        r@ == spec_error_message(*e),
{
    match e {
        GatewayError::Validation => String::from_str("Please provide a valid city name"),
        GatewayError::Config => String::from_str("Server configuration error"),
        GatewayError::Network => String::from_str("Failed to reach weather API"),
        GatewayError::Upstream(s) => {
            let mut m = String::from_str("Weather API returned status: ");
            m.append(dec_u64(*s as u64).as_str());
            m
        },
        GatewayError::Parse => String::from_str("Failed to parse weather API response"),
    }
}

/// Writes the JSON error body for a failure condition.
pub fn error_body(e: &GatewayError, city: &str) -> (r: String)
    ensures
        r@ == spec_error_body(*e, city@),
{
    let mut out = String::from_str("{\"error\":");
    out.append(json_string_of(error_label(e)).as_str());
    out.append(",\"message\":");
    out.append(json_string_of(error_message(e).as_str()).as_str());
    if matches!(e, GatewayError::Upstream(_)) {
        out.append(",\"city_searched\":");
        out.append(json_string_of(city).as_str());
    }
    out.append("}");
    proof {
        assert(out@ =~= spec_error_body(*e, city@));
    }
    out
}

/// A missing API key is told apart from the other server-side failures: its
/// error body differs from the network and parse bodies, whatever city the
/// caller asked about, though all three share status 500.
pub proof fn lemma_config_error_distinguishable(city: Seq<char>)
    ensures
        spec_error_status(GatewayError::Config) == 500,
        spec_error_status(GatewayError::Network) == 500,
        spec_error_status(GatewayError::Parse) == 500,
        spec_error_body(GatewayError::Config, city) != spec_error_body(GatewayError::Network, city),
        spec_error_body(GatewayError::Config, city) != spec_error_body(GatewayError::Parse, city),
        spec_error_body(GatewayError::Network, city) != spec_error_body(GatewayError::Parse, city),
{
    reveal_strlit("{\"error\":");
    reveal_strlit("Missing OPENWEATHER_API_KEY");
    reveal_strlit("Network error");
    reveal_strlit("Data parsing error");
    lemma_body_head(GatewayError::Config, city);
    lemma_body_head(GatewayError::Network, city);
    lemma_body_head(GatewayError::Parse, city);
    assert(spec_error_body(GatewayError::Config, city)[10] == 'M');
    assert(spec_error_body(GatewayError::Network, city)[10] == 'N');
    assert(spec_error_body(GatewayError::Parse, city)[10] == 'D');
}

/// The eleventh character of an error body is the first character of its
/// `error` label.
proof fn lemma_body_head(e: GatewayError, city: Seq<char>)
    requires
        spec_error_label(e).len() > 0,
        crate::json::spec_escape_char(spec_error_label(e)[0]) =~= seq![spec_error_label(e)[0]],
        "{\"error\":"@.len() == 9,
    ensures
        spec_error_body(e, city).len() > 10,
        spec_error_body(e, city)[10] == spec_error_label(e)[0],
{
    let label = spec_error_label(e);
    let esc = crate::json::spec_json_escaped(label);
    assert(esc == crate::json::spec_escape_char(label[0]) + crate::json::spec_json_escaped(
        label.drop_first(),
    ));
    assert(esc[0] == label[0]);
    let js = spec_json_string(label);
    assert(js[1] == label[0]);
    let body = spec_error_body(e, city);
    assert(body[10] == js[1]);
}

} // verus!
