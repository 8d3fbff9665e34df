//! Epoch timestamps rendered as UTC calendar text.

use chrono::TimeZone;
use vstd::prelude::*;

verus! {

/// The smallest epoch second chrono can place on its calendar.
pub const MIN_FORMAT_TS: i64 = -8334601228800;

/// The largest epoch second chrono can place on its calendar.
pub const MAX_FORMAT_TS: i64 = 8210266876799;

/// Whether an epoch second lies on chrono's calendar, so that it can be
/// rendered as text.
pub open spec fn ts_formattable(t: int) -> bool {
    MIN_FORMAT_TS <= t <= MAX_FORMAT_TS
}

/// The UTC calendar text "YYYY-MM-DD HH:MM:SS UTC" of an epoch second,
/// as chrono renders it.
pub uninterp spec fn utc_text_of(t: int) -> Seq<char>;

/// Relies on chrono's `Utc.timestamp_opt` and `DateTime::format`: for any
/// second within chrono's calendar range the call succeeds and returns the
/// UTC calendar text; the result depends on the second alone.
#[verifier::external_body]
pub(crate) fn format_timestamp(t: i64) -> (r: String)
    requires
        ts_formattable(t as int),
    ensures
        r@ == utc_text_of(t as int),
{
    let dt = chrono::Utc.timestamp_opt(t, 0).single().unwrap();
    dt.format("%Y-%m-%d %H:%M:%S UTC").to_string()
}

} // verus!
