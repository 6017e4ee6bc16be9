//! Exact rational values for interchange: a plain, never-normalizing
//! numerator/denominator carrier ([`SerRate`]), a reduced arithmetic
//! counterpart ([`Rate`]), and the bridge between the two.

use vstd::prelude::*;

pub mod gcd;
pub mod rate;
pub mod text;

pub use rate::Rate;
pub use rate::RateError;

verus! {

/// A plain, unreduced numerator/denominator pair: a carrier for a rational
/// value exactly as given, with no hidden normalization. Equality is
/// structural: `(1, 2)` and `(2, 4)` are distinct values of this type.
#[derive(Copy, Clone, Debug, PartialEq, Eq, Structural)]
pub struct SerRate {
    pub numer: i64,
    pub denom: i64,
}

impl SerRate {
    /// Total constructor: accepts any pair, including a zero denominator,
    /// and stores it exactly as given.
    pub fn new(numer: i64, denom: i64) -> (r: SerRate)
        ensures
            r.numer == numer,
            r.denom == denom,
    {
        SerRate { numer, denom }
    }

    /// Read-only access to the stored numerator, exactly as constructed.
    pub fn numer(&self) -> (r: i64)
        ensures
            r == self.numer,
    {
        self.numer
    }

    /// Read-only access to the stored denominator, exactly as constructed.
    pub fn denom(&self) -> (r: i64)
        ensures
            r == self.denom,
    {
        self.denom
    }
}

/// Law: equality of interchange pairs is structural, field-wise — never
/// value-based. Two pairs are equal exactly when both fields agree, so
/// `(1, 2)` and `(2, 4)` are distinct even though they name the same
/// quantity.
pub proof fn lemma_structural_equality(x: SerRate, y: SerRate)
    ensures
        (x == y) <==> (x.numer == y.numer && x.denom == y.denom),
{
}

} // verus!
