//! The arithmetic representation of a rational value: always in lowest
//! terms with a positive denominator, produced by `num_rational`'s
//! normalizing constructor, and the bridge from the interchange
//! representation [`SerRate`] to it.

use vstd::prelude::*;
use vstd::arithmetic::div_mod::*;
use vstd::arithmetic::mul::*;

use crate::gcd::gcd;
use crate::gcd::lemma_gcd_divides;
use crate::gcd::lemma_gcd_quotients_coprime;
use crate::SerRate;

verus! {

/// Absolute value, as a natural number.
pub open spec fn abs_nat(x: int) -> nat {
    if x < 0 {
        (-x) as nat
    } else {
        x as nat
    }
}

/// The gcd of the absolute values of a numerator/denominator pair.
pub open spec fn pair_gcd(n: int, d: int) -> int {
    gcd(abs_nat(n), abs_nat(d)) as int
}

/// The numerator of `n / d` in lowest terms with a positive denominator:
/// both entries are divided by their gcd, and, when the denominator is
/// negative, the sign of the pair is flipped.
pub open spec fn reduced_numer(n: int, d: int) -> int
    recommends
        d != 0,
{
    if d < 0 {
        -(n / pair_gcd(n, d))
    } else {
        n / pair_gcd(n, d)
    }
}

/// The denominator of `n / d` in lowest terms with a positive denominator.
pub open spec fn reduced_denom(n: int, d: int) -> int
    recommends
        d != 0,
{
    if d < 0 {
        -(d / pair_gcd(n, d))
    } else {
        d / pair_gcd(n, d)
    }
}

/// The single way a value of this library can be invalid: promoting an
/// interchange pair whose denominator is zero to the arithmetic
/// representation.
#[derive(Copy, Clone, Debug, PartialEq, Eq, Structural)]
pub enum RateError {
    DivisionByZero,
}

/// An exact rational value in its arithmetic representation: stored in
/// lowest terms, with a positive denominator. Values are produced only by
/// the normalizing constructor [`Rate::new`] and by the bridge
/// [`Rate::from_ser`], both of which establish [`Rate::wf`].
#[derive(Copy, Clone, Debug, PartialEq, Eq, Structural)]
pub struct Rate {
    pub numer: i64,
    pub denom: i64,
}

/// Relies on `num_rational::Rational64::new`, which puts the pair into
/// lowest terms with a positive denominator (dividing both entries by their
/// gcd and flipping the pair's sign when the denominator is negative), and
/// on `Ratio::into_raw`, which merely hands the two fields back.
/// The `requires` excludes, besides a zero denominator, exactly the pairs
/// whose lowest-terms form does not fit in `i64` (a numerator or
/// denominator of `2^63`), on which the constructor does not return.
#[verifier::external_body]
fn ratio_reduce(numer: i64, denom: i64) -> (r: (i64, i64))
    requires
        denom != 0,
        !(numer == i64::MIN && denom < 0 && denom % 2 != 0),
        !(denom == i64::MIN && numer % 2 != 0),
    ensures
        r.0 as int == reduced_numer(numer as int, denom as int),
        r.1 as int == reduced_denom(numer as int, denom as int),
{
    num_rational::Rational64::new(numer, denom).into_raw()
}

/// Reducing a pair with a nonzero denominator yields a well-formed
/// rational of the same mathematical value: the denominator comes out
/// positive, the entries come out coprime, and the cross products agree.
pub proof fn lemma_reduced_props(n: int, d: int)
    requires
        d != 0,
    ensures
        reduced_denom(n, d) > 0,
        gcd(abs_nat(reduced_numer(n, d)), reduced_denom(n, d) as nat) == 1,
        reduced_numer(n, d) * d == n * reduced_denom(n, d),
{
    let an = abs_nat(n);
    let ad = abs_nat(d);
    lemma_gcd_divides(an, ad);
    let g = pair_gcd(n, d);
    let qn = an / (g as nat);
    let qd = ad / (g as nat);
    lemma_fundamental_div_mod(an as int, g);
    lemma_fundamental_div_mod(ad as int, g);
    assert(an == g * qn);
    assert(ad == g * qd);
    assert(qd > 0) by {
        if qd == 0 {
            assert(g * 0 == 0) by (nonlinear_arith);
        }
    }
    // The signed quotients are the unsigned ones with the argument's sign.
    let nq = n / g;
    let dq = d / g;
    assert(n == nq * g && abs_nat(nq) == qn) by {
        if n < 0 {
            lemma_mul_unary_negation(g, qn as int);
            assert(n == (-(qn as int)) * g) by {
                lemma_mul_is_commutative(g, -(qn as int));
            }
            lemma_fundamental_div_mod_converse(n, g, -(qn as int), 0);
        } else {
            assert(n == (qn as int) * g) by {
                lemma_mul_is_commutative(g, qn as int);
            }
            lemma_fundamental_div_mod_converse(n, g, qn as int, 0);
        }
    }
    assert(d == dq * g && abs_nat(dq) == qd) by {
        if d < 0 {
            lemma_mul_unary_negation(g, qd as int);
            assert(d == (-(qd as int)) * g) by {
                lemma_mul_is_commutative(g, -(qd as int));
            }
            lemma_fundamental_div_mod_converse(d, g, -(qd as int), 0);
        } else {
            assert(d == (qd as int) * g) by {
                lemma_mul_is_commutative(g, qd as int);
            }
            lemma_fundamental_div_mod_converse(d, g, qd as int, 0);
        }
    }
    lemma_gcd_quotients_coprime(an, ad);
    assert(gcd(qn, qd) == 1);
    // Cross products: nq * d == n * dq, whatever the signs.
    assert(nq * d == n * dq) by (nonlinear_arith)
        requires
            n == nq * g,
            d == dq * g,
    ;
    if d < 0 {
        lemma_mul_unary_negation(nq, d);
        lemma_mul_unary_negation_other_way(n, dq);
    }
}

/// Helper: negation moves through the right factor of a product.
proof fn lemma_mul_unary_negation_other_way(x: int, y: int)
    ensures
        x * (-y) == -(x * y),
{
    lemma_mul_is_commutative(x, -y);
    lemma_mul_unary_negation(y, x);
    lemma_mul_is_commutative(y, x);
}

impl Rate {
    /// The type's invariant: lowest terms, positive denominator.
    pub open spec fn wf(self) -> bool {
        &&& self.denom > 0
        &&& gcd(abs_nat(self.numer as int), self.denom as nat) == 1
    }

    /// The interchange form of this value: the two fields, exactly as
    /// stored.
    pub open spec fn to_ser_spec(self) -> SerRate {
        SerRate { numer: self.numer, denom: self.denom }
    }

    /// Normalizing constructor: the value `numer / denom`, reduced to
    /// lowest terms with a positive denominator. The denominator must be
    /// nonzero, and the reduced pair must fit in `i64` (which only a
    /// numerator or denominator of `-2^63` that survives reduction with a
    /// flipped sign can violate).
    pub fn new(numer: i64, denom: i64) -> (r: Rate)
        requires
            denom != 0,
            !(numer == i64::MIN && denom < 0 && denom % 2 != 0),
            !(denom == i64::MIN && numer % 2 != 0),
        ensures
            r.numer as int == reduced_numer(numer as int, denom as int),
            r.denom as int == reduced_denom(numer as int, denom as int),
            r.numer as int * denom as int == numer as int * r.denom as int,
            r.wf(),
    {
        let (n, d) = ratio_reduce(numer, denom);
        proof {
            lemma_reduced_props(numer as int, denom as int);
        }
        Rate { numer: n, denom: d }
    }

    /// The bridge toward arithmetic: promotes an interchange pair to the
    /// reduced arithmetic representation, rejecting a zero denominator.
    /// Fails exactly when the denominator is zero; the offending pair is
    /// never coerced into a valid-looking value.
    pub fn from_ser(s: SerRate) -> (r: Result<Rate, RateError>)
        requires
            !(s.numer == i64::MIN && s.denom < 0 && s.denom % 2 != 0),
            !(s.denom == i64::MIN && s.numer % 2 != 0),
        ensures
            r is Err <==> s.denom == 0,
            r is Err ==> r == Result::<Rate, RateError>::Err(RateError::DivisionByZero),
            r is Ok ==> {
                let a = r->Ok_0;
                &&& a.numer as int == reduced_numer(s.numer as int, s.denom as int)
                &&& a.denom as int == reduced_denom(s.numer as int, s.denom as int)
                &&& a.numer as int * s.denom as int == s.numer as int * a.denom as int
                &&& a.wf()
            },
    {
        if s.denom == 0 {
            Err(RateError::DivisionByZero)
        } else {
            Ok(Rate::new(s.numer, s.denom))
        }
    }

    /// Read-only access to the reduced numerator.
    pub fn numer(&self) -> (r: i64)
        ensures
            r == self.numer,
    {
        self.numer
    }

    /// Read-only access to the reduced (positive) denominator.
    pub fn denom(&self) -> (r: i64)
        ensures
            r == self.denom,
    {
        self.denom
    }
}

/// The bridge toward interchange: a pure projection of the two fields,
/// with no further reduction (none is needed on a well-formed input) and
/// no loss. In contracts it is [`Rate::to_ser_spec`].
impl From<Rate> for SerRate {
    fn from(a: Rate) -> (r: SerRate) {
        SerRate { numer: a.numer, denom: a.denom }
    }
}

impl vstd::std_specs::convert::FromSpecImpl<Rate> for SerRate {
    open spec fn obeys_from_spec() -> bool {
        true
    }

    open spec fn from_spec(a: Rate) -> SerRate {
        a.to_ser_spec()
    }
}

/// Law: converting a reduced arithmetic value to its interchange form and
/// promoting it back reconstructs the value exactly — reducing an
/// already-reduced pair changes nothing.
pub proof fn lemma_round_trip(a: Rate)
    requires
        a.wf(),
    ensures
        reduced_numer(a.to_ser_spec().numer as int, a.to_ser_spec().denom as int) == a.numer as int,
        reduced_denom(a.to_ser_spec().numer as int, a.to_ser_spec().denom as int) == a.denom as int,
{
    let n = a.numer as int;
    let d = a.denom as int;
    assert(pair_gcd(n, d) == 1);
    lemma_fundamental_div_mod_converse(n, 1, n, 0);
    lemma_fundamental_div_mod_converse(d, 1, d, 0);
}

} // verus!
