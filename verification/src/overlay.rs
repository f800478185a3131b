use vstd::prelude::*;
use vstd::arithmetic::div_mod::lemma_fundamental_div_mod;

verus! {

/// Character for one decimal digit.
pub open spec fn digit_char(d: nat) -> char {
    if d == 0 {
        '0'
    } else if d == 1 {
        '1'
    } else if d == 2 {
        '2'
    } else if d == 3 {
        '3'
    } else if d == 4 {
        '4'
    } else if d == 5 {
        '5'
    } else if d == 6 {
        '6'
    } else if d == 7 {
        '7'
    } else if d == 8 {
        '8'
    } else {
        '9'
    }
}

/// Decimal digits of `n`, most significant first; no leading zeros, a
/// single '0' for zero.
pub open spec fn dec_digits(n: nat) -> Seq<char>
    decreases n,
{
    if n < 10 {
        seq![digit_char(n)]
    } else {
        dec_digits(n / 10).push(digit_char(n % 10))
    }
}

/// The overlay line for a rounded frame rate `v`.
pub open spec fn fps_label(v: nat) -> Seq<char> {
    "FPS: "@ + dec_digits(v)
}

/// Whole frames per second nearest to a sample given in milliframes per
/// second, halves rounding up.
pub open spec fn rounded_fps(milli: nat) -> nat {
    milli / 1000 + (if milli % 1000 >= 500 {
        1nat
    } else {
        0nat
    })
}

/// The rounded frame rate is the nearest whole number to the sample: it
/// differs from it by at most half a unit, in milliframes per second.
pub proof fn lemma_rounded_fps_nearest(milli: nat)
    ensures
        1000 * rounded_fps(milli) <= milli + 500,
        milli <= 1000 * rounded_fps(milli) + 499,
{
    lemma_fundamental_div_mod(milli as int, 1000);
}

/// One decimal digit as text.
pub fn digit_str(d: u64) -> (r: &'static str)
    requires
        d < 10,
    ensures
        r@ == seq![digit_char(d as nat)],
{
    proof {
        reveal_strlit("0");
        reveal_strlit("1");
        reveal_strlit("2");
        reveal_strlit("3");
        reveal_strlit("4");
        reveal_strlit("5");
        reveal_strlit("6");
        reveal_strlit("7");
        reveal_strlit("8");
        reveal_strlit("9");
    }
    let r: &'static str = if d == 0 {
        "0"
    } else if d == 1 {
        "1"
    } else if d == 2 {
        "2"
    } else if d == 3 {
        "3"
    } else if d == 4 {
        "4"
    } else if d == 5 {
        "5"
    } else if d == 6 {
        "6"
    } else if d == 7 {
        "7"
    } else if d == 8 {
        "8"
    } else {
        "9"
    };
    proof {
        assert(r@ =~= seq![digit_char(d as nat)]);
    }
    r
}

/// `n` written in decimal.
pub fn u64_to_string(n: u64) -> (s: String)
    ensures
        s@ == dec_digits(n as nat),
    decreases n,
{
    if n < 10 {
        let mut s = String::new();
        s.append(digit_str(n));
        proof {
            assert(s@ =~= dec_digits(n as nat));
        }
        s
    } else {
        let mut s = u64_to_string(n / 10);
        s.append(digit_str(n % 10));
        proof {
            assert(s@ =~= dec_digits(n as nat));
        }
        s
    }
}

/// Whole frames per second nearest to `milli` milliframes per second.
pub fn round_millifps(milli: u64) -> (r: u64)
    ensures
        r == rounded_fps(milli as nat),
{
    if milli % 1000 >= 500 {
        milli / 1000 + 1
    } else {
        milli / 1000
    }
}

/// The overlay line for a rounded frame rate: `"FPS: "` followed by the
/// rate in decimal.
pub fn format_fps(rounded: u64) -> (s: String)
    ensures
        s@ == fps_label(rounded as nat),
{
    proof {
        reveal_strlit("FPS: ");
    }
    let mut s = String::from_str("FPS: ");
    let digits = u64_to_string(rounded);
    s.append(digits.as_str());
    s
}

} // verus!
