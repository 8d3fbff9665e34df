//! Decimal rendering of the gateway's scaled integer measurements.
//!
//! Temperatures and wind speeds are carried as tenths (`deci`), coordinates
//! as hundredths (`centi`); rendering writes them back with a fixed number
//! of digits after the decimal point.

use vstd::prelude::*;
use vstd::string::StringExecFns;

verus! {

/// The decimal digit character for a value below ten.
pub open spec fn spec_digit(d: nat) -> char
    recommends
        d < 10,
{
    if d == 0 {
        '0'
    } else if d == 1 {
        '1'
    } else if d == 2 {
        '2'
    } else if d == 3 {
        '3'
    } else if d == 4 {
        '4'
    } else if d == 5 {
        '5'
    } else if d == 6 {
        '6'
    } else if d == 7 {
        '7'
    } else if d == 8 {
        '8'
    } else {
        '9'
    }
}

/// The usual decimal notation of a natural number, without sign or padding.
pub open spec fn spec_dec(n: nat) -> Seq<char>
    decreases n,
{
    if n < 10 {
        seq![spec_digit(n)]
    } else {
        spec_dec(n / 10) + seq![spec_digit(n % 10)]
    }
}

/// A value in tenths written with one digit after the point, e.g. `213 -> 21.3`.
pub open spec fn spec_deci(v: int) -> Seq<char> {
    let m = vstd::math::abs(v);
    (if v < 0 {
        seq!['-']
    } else {
        Seq::<char>::empty()
    }) + spec_dec((m / 10) as nat) + seq!['.'] + seq![spec_digit((m % 10) as nat)]
}

/// A value in hundredths written with two digits after the point, e.g. `5151 -> 51.51`.
pub open spec fn spec_centi(v: int) -> Seq<char> {
    let m = vstd::math::abs(v);
    (if v < 0 {
        seq!['-']
    } else {
        Seq::<char>::empty()
    }) + spec_dec((m / 100) as nat) + seq!['.'] + seq![spec_digit(((m / 10) % 10) as nat)]
        + seq![spec_digit((m % 10) as nat)]
}

pub(crate) fn digit_str(d: u64) -> (r: &'static str)
    requires
        d < 10,
    ensures
        r@ == seq![spec_digit(d as nat)],
{
    if d == 0 {
        proof {
            reveal_strlit("0");
            assert("0"@ =~= seq![spec_digit(d as nat)]);
        }
        "0"
    } else if d == 1 {
        proof {
            reveal_strlit("1");
            assert("1"@ =~= seq![spec_digit(d as nat)]);
        }
        "1"
    } else if d == 2 {
        proof {
            reveal_strlit("2");
            assert("2"@ =~= seq![spec_digit(d as nat)]);
        }
        "2"
    } else if d == 3 {
        proof {
            reveal_strlit("3");
            assert("3"@ =~= seq![spec_digit(d as nat)]);
        }
        "3"
    } else if d == 4 {
        proof {
            reveal_strlit("4");
            assert("4"@ =~= seq![spec_digit(d as nat)]);
        }
        "4"
    } else if d == 5 {
        proof {
            reveal_strlit("5");
            assert("5"@ =~= seq![spec_digit(d as nat)]);
        }
        "5"
    } else if d == 6 {
        proof {
            reveal_strlit("6");
            assert("6"@ =~= seq![spec_digit(d as nat)]);
        }
        "6"
    } else if d == 7 {
        proof {
            reveal_strlit("7");
            assert("7"@ =~= seq![spec_digit(d as nat)]);
        }
        "7"
    } else if d == 8 {
        proof {
            reveal_strlit("8");
            assert("8"@ =~= seq![spec_digit(d as nat)]);
        }
        "8"
    } else {
        proof {
            reveal_strlit("9");
            assert("9"@ =~= seq![spec_digit(d as nat)]);
        }
        "9"
    }
}

/// Writes a natural number in decimal.
pub fn dec_u64(n: u64) -> (r: String)
    ensures
        r@ == spec_dec(n as nat),
    decreases n,
{
    if n < 10 {
        String::from_str(digit_str(n))
    } else {
        let mut s = dec_u64(n / 10);
        s.append(digit_str(n % 10));
        s
    }
}

/// Writes a count of tenths as a signed number with one digit after the point.
pub fn deci_str(v: i64) -> (r: String)
    ensures
        r@ == spec_deci(v as int),
{
    let m: u64 = if v < 0 {
        proof {
            assert(-(v as i128) <= u64::MAX as i128);
        }
        (-(v as i128)) as u64
    } else {
        v as u64
    };
    proof {
        assert(m as int == vstd::math::abs(v as int));
    }
    let mut s = if v < 0 {
        String::from_str("-")
    } else {
        String::new()
    };
    let whole = dec_u64(m / 10);
    s.append(whole.as_str());
    s.append(".");
    s.append(digit_str(m % 10));
    proof {
        reveal_strlit("-");
        reveal_strlit(".");
        assert(s@ =~= spec_deci(v as int));
    }
    s
}

/// Writes a count of hundredths as a signed number with two digits after the point.
pub fn centi_str(v: i64) -> (r: String)
    ensures
        r@ == spec_centi(v as int),
{
    let m: u64 = if v < 0 {
        proof {
            assert(-(v as i128) <= u64::MAX as i128);
        }
        (-(v as i128)) as u64
    } else {
        v as u64
    };
    proof {
        assert(m as int == vstd::math::abs(v as int));
    }
    let mut s = if v < 0 {
        String::from_str("-")
    } else {
        String::new()
    };
    let whole = dec_u64(m / 100);
    s.append(whole.as_str());
    s.append(".");
    s.append(digit_str((m / 10) % 10));
    s.append(digit_str(m % 10));
    proof {
        reveal_strlit("-");
        reveal_strlit(".");
        assert(s@ =~= spec_centi(v as int));
    }
    s
}

} // verus!
