//! Greatest-common-divisor reasoning: the vocabulary in which "reduced to
//! lowest terms" is stated, together with the facts the reduction contracts
//! need.

use vstd::prelude::*;
use vstd::arithmetic::div_mod::*;
use vstd::arithmetic::mul::*;

verus! {

/// Euclid's greatest common divisor.
pub open spec fn gcd(a: nat, b: nat) -> nat
    decreases b,
{
    if b == 0 {
        a
    } else {
        gcd(b, a % b)
    }
}

/// The gcd of two numbers, not both zero, is positive and divides each
/// of them.
pub proof fn lemma_gcd_divides(a: nat, b: nat)
    requires
        a > 0 || b > 0,
    ensures
        gcd(a, b) > 0,
        a % gcd(a, b) == 0,
        b % gcd(a, b) == 0,
    decreases b,
{
    let g = gcd(a, b);
    if b == 0 {
        lemma_mod_self_0(a as int);
        lemma_small_mod(0, a);
    } else {
        lemma_gcd_divides(b, a % b);
        lemma_fundamental_div_mod(a as int, b as int);
        lemma_small_mod(0, g);
        assert((b * (a / b)) % g == 0) by {
            lemma_mul_mod_noop_left(b as int, (a / b) as int, g as int);
        }
        assert(a % g == 0) by {
            lemma_add_mod_noop((b * (a / b)) as int, (a % b) as int, g as int);
        }
    }
}

/// Any positive common divisor of two numbers divides their gcd.
pub proof fn lemma_gcd_greatest(a: nat, b: nat, d: nat)
    requires
        d > 0,
        a % d == 0,
        b % d == 0,
    ensures
        gcd(a, b) % d == 0,
    decreases b,
{
    if b != 0 {
        lemma_fundamental_div_mod(a as int, b as int);
        lemma_small_mod(0, d);
        assert((b * (a / b)) % d == 0) by {
            lemma_mul_mod_noop_left(b as int, (a / b) as int, d as int);
        }
        assert((a % b) % d == 0) by {
            lemma_sub_mod_noop(a as int, (b * (a / b)) as int, d as int);
        }
        lemma_gcd_greatest(b, a % b, d);
    }
}

/// Dividing two numbers, not both zero, by their gcd leaves a coprime pair:
/// the quotients have gcd one.
pub proof fn lemma_gcd_quotients_coprime(a: nat, b: nat)
    requires
        a > 0 || b > 0,
    ensures
        gcd(a / gcd(a, b), b / gcd(a, b)) == 1,
{
    let g = gcd(a, b);
    lemma_gcd_divides(a, b);
    let a1 = a / g;
    let b1 = b / g;
    lemma_fundamental_div_mod(a as int, g as int);
    lemma_fundamental_div_mod(b as int, g as int);
    assert(a == g * a1);
    assert(b == g * b1);
    assert(a1 > 0 || b1 > 0) by {
        if a1 == 0 && b1 == 0 {
            assert(g * 0 == 0) by (nonlinear_arith);
        }
    }
    let h = gcd(a1, b1);
    lemma_gcd_divides(a1, b1);
    let a2 = a1 / h;
    let b2 = b1 / h;
    lemma_fundamental_div_mod(a1 as int, h as int);
    lemma_fundamental_div_mod(b1 as int, h as int);
    assert(a1 == h * a2);
    assert(b1 == h * b2);
    assert(g * h > 0) by (nonlinear_arith)
        requires
            g > 0,
            h > 0,
    ;
    assert(a == (g * h) * a2) by {
        lemma_mul_is_associative(g as int, h as int, a2 as int);
    }
    assert(b == (g * h) * b2) by {
        lemma_mul_is_associative(g as int, h as int, b2 as int);
    }
    assert(a % (g * h) == 0) by {
        lemma_mod_multiples_basic(a2 as int, (g * h) as int);
        lemma_mul_is_commutative((g * h) as int, a2 as int);
    }
    assert(b % (g * h) == 0) by {
        lemma_mod_multiples_basic(b2 as int, (g * h) as int);
        lemma_mul_is_commutative((g * h) as int, b2 as int);
    }
    lemma_gcd_greatest(a, b, (g * h) as nat);
    if h >= 2 {
        assert(g * 2 <= g * h) by (nonlinear_arith)
            requires
                g > 0,
                h >= 2,
        ;
        lemma_small_mod(g, (g * h) as nat);
        assert(false);
    }
}

} // verus!
