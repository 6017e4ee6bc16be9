//! The human-readable projection of an interchange pair: the text
//! `"<numer>/<denom>"`, with both fields rendered literally — no reduction
//! and no moving of a negative denominator's sign.

use vstd::prelude::*;
use vstd::string::StringExecFns;

use crate::SerRate;

verus! {

/// The character of a single decimal digit.
pub open spec fn digit_char(d: nat) -> char
    recommends
        d < 10,
{
    if d == 0 {
        '0'
    } else if d == 1 {
        '1'
    } else if d == 2 {
        '2'
    } else if d == 3 {
        '3'
    } else if d == 4 {
        '4'
    } else if d == 5 {
        '5'
    } else if d == 6 {
        '6'
    } else if d == 7 {
        '7'
    } else if d == 8 {
        '8'
    } else {
        '9'
    }
}

/// The decimal digits of a natural number, most significant first, with no
/// leading zeros (a lone zero for zero).
pub open spec fn dec_digits(n: nat) -> Seq<char>
    decreases n,
{
    if n < 10 {
        seq![digit_char(n)]
    } else {
        dec_digits(n / 10).push(digit_char(n % 10))
    }
}

/// The decimal rendering of an integer: a minus sign for a negative value,
/// then the digits of its absolute value.
pub open spec fn dec_int(x: int) -> Seq<char> {
    if x < 0 {
        seq!['-'] + dec_digits((-x) as nat)
    } else {
        dec_digits(x as nat)
    }
}

/// Relies on `i64`'s standard decimal `Display` formatting: an optional
/// leading minus sign for a negative value, then the decimal digits of the
/// absolute value, without leading zeros.
#[verifier::external_body]
fn fmt_i64(x: i64) -> (r: String)
    ensures
        r@ == dec_int(x as int),
{
    format!("{}", x)
}

impl SerRate {
    /// The text form `"<numer>/<denom>"` of this pair, exactly as stored.
    pub fn to_fraction_string(&self) -> (r: String)
        ensures
            r@ == dec_int(self.numer as int) + seq!['/'] + dec_int(self.denom as int),
    {
        proof {
            reveal_strlit("/");
        }
        let mut s = fmt_i64(self.numer);
        s.append("/");
        let d = fmt_i64(self.denom);
        s.append(d.as_str());
        proof {
            assert(s@ =~= dec_int(self.numer as int) + seq!['/'] + dec_int(
                self.denom as int,
            ));
        }
        s
    }
}

} // verus!
