//! The glyph chosen for a provider condition icon.
//!
//! The first two characters of the icon code pick one of nine weather
//! categories; every other prefix falls back to the partly-cloudy glyph, so
//! the mapping is total over two-character prefixes.

use vstd::prelude::*;
use vstd::string::StrSliceExecFns;

verus! {

/// The glyph for an icon code, chosen by its first two characters.
pub open spec fn spec_emoji(icon: Seq<char>) -> Seq<char>
    recommends
        icon.len() >= 2,
{
    if icon.len() >= 2 {
        let c0 = icon[0];
        let c1 = icon[1];
        if c0 == '0' && c1 == '1' {
            "☀️"@
        } else if c0 == '0' && c1 == '2' {
            "⛅"@
        } else if c0 == '0' && c1 == '3' {
            "☁️"@
        } else if c0 == '0' && c1 == '4' {
            "☁️"@
        } else if c0 == '0' && c1 == '9' {
            "🌧️"@
        } else if c0 == '1' && c1 == '0' {
            "🌦️"@
        } else if c0 == '1' && c1 == '1' {
            "⛈️"@
        } else if c0 == '1' && c1 == '3' {
            "🌨️"@
        } else if c0 == '5' && c1 == '0' {
            "🌫️"@
        } else {
            "🌤️"@
        }
    } else {
        "🌤️"@
    }
}

/// Picks the display glyph for a condition icon code.
pub fn get_weather_emoji(icon: &str) -> (r: &'static str)
    requires
        icon@.len() >= 2,
    ensures
        r@ == spec_emoji(icon@),
{
    let c0 = icon.get_char(0);
    let c1 = icon.get_char(1);
    if c0 == '0' && c1 == '1' {
        "☀️"
    } else if c0 == '0' && c1 == '2' {
        "⛅"
    } else if c0 == '0' && c1 == '3' {
        "☁️"
    } else if c0 == '0' && c1 == '4' {
        "☁️"
    } else if c0 == '0' && c1 == '9' {
        "🌧️"
    } else if c0 == '1' && c1 == '0' {
        "🌦️"
    } else if c0 == '1' && c1 == '1' {
        "⛈️"
    } else if c0 == '1' && c1 == '3' {
        "🌨️"
    } else if c0 == '5' && c1 == '0' {
        "🌫️"
    } else {
        "🌤️"
    }
}

/// The glyph mapping is total: each of the nine documented prefixes selects
/// its glyph, and every other two-character prefix selects the fallback.
pub proof fn lemma_emoji_total(icon: Seq<char>)
    requires
        icon.len() >= 2,
    ensures
        icon[0] == '0' && icon[1] == '1' ==> spec_emoji(icon) == "☀️"@,
        icon[0] == '0' && icon[1] == '2' ==> spec_emoji(icon) == "⛅"@,
        icon[0] == '0' && icon[1] == '3' ==> spec_emoji(icon) == "☁️"@,
        icon[0] == '0' && icon[1] == '4' ==> spec_emoji(icon) == "☁️"@,
        icon[0] == '0' && icon[1] == '9' ==> spec_emoji(icon) == "🌧️"@,
        icon[0] == '1' && icon[1] == '0' ==> spec_emoji(icon) == "🌦️"@,
        icon[0] == '1' && icon[1] == '1' ==> spec_emoji(icon) == "⛈️"@,
        icon[0] == '1' && icon[1] == '3' ==> spec_emoji(icon) == "🌨️"@,
        icon[0] == '5' && icon[1] == '0' ==> spec_emoji(icon) == "🌫️"@,
        !(icon[0] == '0' && (icon[1] == '1' || icon[1] == '2' || icon[1] == '3' || icon[1] == '4'
            || icon[1] == '9')) && !(icon[0] == '1' && (icon[1] == '0' || icon[1] == '1' || icon[1]
            == '3')) && !(icon[0] == '5' && icon[1] == '0') ==> spec_emoji(icon) == "🌤️"@,
{
}

} // verus!
