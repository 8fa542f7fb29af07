//! Decimal rendering of the scaled-integer physical quantities for the
//! display: a value carried in hundredths of a unit is drawn with two,
//! one or zero decimal places. Rounding to fewer places is half away
//! from zero, and a negative value keeps its sign even when the rounded
//! magnitude is zero.

use vstd::math::abs;
use vstd::prelude::*;

verus! {

pub open spec fn digit_char(d: int) -> char
    recommends
        0 <= d < 10,
{
    if d == 0 {
        '0'
    } else if d == 1 {
        '1'
    } else if d == 2 {
        '2'
    } else if d == 3 {
        '3'
    } else if d == 4 {
        '4'
    } else if d == 5 {
        '5'
    } else if d == 6 {
        '6'
    } else if d == 7 {
        '7'
    } else if d == 8 {
        '8'
    } else {
        '9'
    }
}

/// The decimal digits of `n`, most significant first.
pub open spec fn dec_digits(n: nat) -> Seq<char>
    decreases n,
{
    if n < 10 {
        seq![digit_char(n as int)]
    } else {
        dec_digits(n / 10).push(digit_char((n % 10) as int))
    }
}

/// A value in hundredths, drawn with two decimal places (exact).
pub open spec fn fmt_centi2_spec(v: int) -> Seq<char> {
    let a = abs(v);
    let sign: Seq<char> = if v < 0 {
        seq!['-']
    } else {
        Seq::empty()
    };
    sign + dec_digits(a / 100) + seq!['.'] + seq![
        digit_char(((a % 100) / 10) as int),
        digit_char((a % 10) as int),
    ]
}

/// A value in hundredths, drawn with one decimal place, rounded half
/// away from zero.
pub open spec fn fmt_centi1_spec(v: int) -> Seq<char> {
    let deci = (abs(v) + 5) / 10;
    let sign: Seq<char> = if v < 0 {
        seq!['-']
    } else {
        Seq::empty()
    };
    sign + dec_digits(deci / 10) + seq!['.'] + seq![digit_char((deci % 10) as int)]
}

/// A value in hundredths, drawn with no decimal places, rounded half
/// away from zero.
pub open spec fn fmt_centi0_spec(v: int) -> Seq<char> {
    let whole = (abs(v) + 50) / 100;
    let sign: Seq<char> = if v < 0 {
        seq!['-']
    } else {
        Seq::empty()
    };
    sign + dec_digits(whole)
}

fn digit_str(d: u64) -> (r: &'static str)
    requires
        d < 10,
    ensures
        r@ == seq![digit_char(d as int)],
{
    if d == 0 {
        proof {
            reveal_strlit("0");
            assert("0"@ =~= seq![digit_char(0int)]);
        }
        "0"
    } else if d == 1 {
        proof {
            reveal_strlit("1");
            assert("1"@ =~= seq![digit_char(1int)]);
        }
        "1"
    } else if d == 2 {
        proof {
            reveal_strlit("2");
            assert("2"@ =~= seq![digit_char(2int)]);
        }
        "2"
    } else if d == 3 {
        proof {
            reveal_strlit("3");
            assert("3"@ =~= seq![digit_char(3int)]);
        }
        "3"
    } else if d == 4 {
        proof {
            reveal_strlit("4");
            assert("4"@ =~= seq![digit_char(4int)]);
        }
        "4"
    } else if d == 5 {
        proof {
            reveal_strlit("5");
            assert("5"@ =~= seq![digit_char(5int)]);
        }
        "5"
    } else if d == 6 {
        proof {
            reveal_strlit("6");
            assert("6"@ =~= seq![digit_char(6int)]);
        }
        "6"
    } else if d == 7 {
        proof {
            reveal_strlit("7");
            assert("7"@ =~= seq![digit_char(7int)]);
        }
        "7"
    } else if d == 8 {
        proof {
            reveal_strlit("8");
            assert("8"@ =~= seq![digit_char(8int)]);
        }
        "8"
    } else {
        proof {
            reveal_strlit("9");
            assert("9"@ =~= seq![digit_char(9int)]);
        }
        "9"
    }
}

/// Render an unsigned value in decimal.
pub fn fmt_u64(n: u64) -> (s: String)
    ensures
        s@ == dec_digits(n as nat),
    decreases n,
{
    if n < 10 {
        String::from_str(digit_str(n))
    } else {
        let mut s = fmt_u64(n / 10);
        s.append(digit_str(n % 10));
        proof {
            assert(s@ =~= dec_digits((n / 10) as nat).push(digit_char((n % 10) as int)));
        }
        s
    }
}

/// The magnitude of a signed hundredths value, and whether a sign must
/// be drawn.
fn centi_magnitude(v: i32) -> (r: (bool, u64))
    ensures
        r.0 == (v < 0),
        r.1 as int == abs(v as int),
{
    if v < 0 {
        (true, (-(v as i64)) as u64)
    } else {
        (false, v as u64)
    }
}

fn sign_prefix(neg: bool) -> (s: String)
    ensures
        neg ==> s@ =~= seq!['-'],
        !neg ==> s@ =~= Seq::<char>::empty(),
{
    if neg {
        proof {
            reveal_strlit("-");
        }
        String::from_str("-")
    } else {
        String::new()
    }
}

/// Render a hundredths value with two decimal places.
pub fn fmt_centi2(v: i32) -> (s: String)
    ensures
        s@ == fmt_centi2_spec(v as int),
{
    let (neg, a) = centi_magnitude(v);
    let mut s = sign_prefix(neg);
    let whole = fmt_u64(a / 100);
    s.append(whole.as_str());
    proof {
        reveal_strlit(".");
    }
    s.append(".");
    s.append(digit_str((a % 100) / 10));
    s.append(digit_str(a % 10));
    proof {
        assert(s@ =~= fmt_centi2_spec(v as int));
    }
    s
}

/// Render a hundredths value with one decimal place, rounded half away
/// from zero.
pub fn fmt_centi1(v: i32) -> (s: String)
    ensures
        s@ == fmt_centi1_spec(v as int),
{
    let (neg, a) = centi_magnitude(v);
    let deci = (a + 5) / 10;
    let mut s = sign_prefix(neg);
    let whole = fmt_u64(deci / 10);
    s.append(whole.as_str());
    proof {
        reveal_strlit(".");
    }
    s.append(".");
    s.append(digit_str(deci % 10));
    proof {
        assert(s@ =~= fmt_centi1_spec(v as int));
    }
    s
}

/// Render a hundredths value with no decimal places, rounded half away
/// from zero.
pub fn fmt_centi0(v: i32) -> (s: String)
    ensures
        s@ == fmt_centi0_spec(v as int),
{
    let (neg, a) = centi_magnitude(v);
    let whole = fmt_u64((a + 50) / 100);
    let mut s = sign_prefix(neg);
    s.append(whole.as_str());
    proof {
        assert(s@ =~= fmt_centi0_spec(v as int));
    }
    s
}

} // verus!
