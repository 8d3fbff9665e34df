//! Percent-encoding of the `city` parameter for the outbound provider URL.

use vstd::prelude::*;
use vstd::string::StringSliceAdditionalSpecFns;

verus! {

/// The bytes that percent-encoding leaves as they are: ASCII alphanumerics
/// and `-`, `.`, `_`, `~`.
pub open spec fn is_url_safe_byte(b: u8) -> bool {
    (48 <= b && b <= 57) || (65 <= b && b <= 90) || (97 <= b && b <= 122) || b == 45 || b == 46
        || b == 95 || b == 126
}

/// The upper-case hexadecimal digit for a value below sixteen.
pub open spec fn spec_hex_upper(d: u8) -> char
    recommends
        d < 16,
{
    if d < 10 {
        crate::numfmt::spec_digit(d as nat)
    } else if d == 10 {
        'A'
    } else if d == 11 {
        'B'
    } else if d == 12 {
        'C'
    } else if d == 13 {
        'D'
    } else if d == 14 {
        'E'
    } else {
        'F'
    }
}

/// Percent-encoding over UTF-8 bytes: a safe byte stands as its own
/// character, every other byte becomes `%` and two upper-case hex digits.
pub open spec fn percent_encoded(bs: Seq<u8>) -> Seq<char>
    decreases bs.len(),
{
    if bs.len() == 0 {
        Seq::<char>::empty()
    } else {
        (if is_url_safe_byte(bs[0]) {
            seq![bs[0] as char]
        } else {
            seq!['%', spec_hex_upper(bs[0] / 16), spec_hex_upper(bs[0] % 16)]
        }) + percent_encoded(bs.drop_first())
    }
}

/// Relies on `urlencoding::encode`: percent-encodes every byte of the UTF-8
/// text except ASCII alphanumerics and `-`, `.`, `_`, `~`, writing `%` and
/// two upper-case hex digits; the result depends on the text alone.
#[verifier::external_body]
pub(crate) fn url_encode(s: &str) -> (r: String)
    ensures
        r@ == percent_encoded(s.spec_bytes()),
{
    urlencoding::encode(s).into_owned()
}

} // verus!
