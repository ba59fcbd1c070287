//! Congruence modulo the field prime.
//!
//! Two integers are congruent where they differ by a multiple of the prime.
//! Sums, differences and products of congruent integers are congruent, and
//! congruent reduced integers are equal: what an identity of field elements
//! is proved from.

use crate::curve::field_prime;
use vstd::arithmetic::div_mod::{lemma_fundamental_div_mod, lemma_mod_multiples_basic};
use vstd::prelude::*;

verus! {

/// Whether `a` and `b` leave the same remainder modulo the field prime.
pub open spec fn congruent(a: int, b: int) -> bool {
    (a - b) % (field_prime() as int) == 0
}

/// Congruent numbers differ by a multiple of the prime.
pub proof fn lemma_congruent_multiple(a: int, b: int) -> (k: int)
    requires
        congruent(a, b),
    ensures
        a - b == field_prime() * k,
{
    lemma_fundamental_div_mod(a - b, field_prime() as int);
    (a - b) / (field_prime() as int)
}

/// Numbers that differ by a multiple of the prime are congruent.
pub proof fn lemma_multiple_congruent(a: int, b: int, k: int)
    requires
        a - b == field_prime() * k,
    ensures
        congruent(a, b),
{
    lemma_mod_multiples_basic(k, field_prime() as int);
    assert(k * field_prime() == field_prime() * k) by (nonlinear_arith);
}

/// Products of congruent numbers are congruent.
pub proof fn lemma_congruent_mul(a: int, b: int, c: int, d: int)
    requires
        congruent(a, b),
        congruent(c, d),
    ensures
        congruent(a * c, b * d),
{
    let k = lemma_congruent_multiple(a, b);
    let l = lemma_congruent_multiple(c, d);
    let p = field_prime() as int;
    assert(a * c - b * d == p * (k * c + b * l)) by (nonlinear_arith)
        requires
            a - b == p * k,
            c - d == p * l,
    ;
    lemma_multiple_congruent(a * c, b * d, k * c + b * l);
}

/// Congruence passes on.
pub proof fn lemma_congruent_trans(a: int, b: int, c: int)
    requires
        congruent(a, b),
        congruent(b, c),
    ensures
        congruent(a, c),
{
    let k = lemma_congruent_multiple(a, b);
    let l = lemma_congruent_multiple(b, c);
    lemma_multiple_congruent(a, c, k + l);
}

/// Congruence holds in both directions.
pub proof fn lemma_congruent_sym(a: int, b: int)
    requires
        congruent(a, b),
    ensures
        congruent(b, a),
{
    let k = lemma_congruent_multiple(a, b);
    lemma_multiple_congruent(b, a, -k);
}

/// Differences of congruent numbers are congruent.
pub proof fn lemma_congruent_sub(a: int, b: int, c: int, d: int)
    requires
        congruent(a, b),
        congruent(c, d),
    ensures
        congruent(a - c, b - d),
{
    let k = lemma_congruent_multiple(a, b);
    let l = lemma_congruent_multiple(c, d);
    lemma_multiple_congruent(a - c, b - d, k - l);
}

/// Congruent reduced numbers are equal.
pub proof fn lemma_congruent_reduced(a: int, b: int)
    requires
        congruent(a, b),
        0 <= a < field_prime(),
        0 <= b < field_prime(),
    ensures
        a == b,
{
    let k = lemma_congruent_multiple(a, b);
    if k >= 1 {
        assert(field_prime() * k >= field_prime()) by (nonlinear_arith)
            requires
                k >= 1,
        ;
    }
    if k <= -1 {
        assert(field_prime() * k <= -field_prime()) by (nonlinear_arith)
            requires
                k <= -1,
        ;
    }
}

/// A remainder is congruent to what it is the remainder of, and reduced.
pub proof fn lemma_remainder_congruent(a: int)
    ensures
        congruent(a % (field_prime() as int), a),
        0 <= a % (field_prime() as int) < field_prime(),
{
    lemma_fundamental_div_mod(a, field_prime() as int);
    lemma_multiple_congruent(a % (field_prime() as int), a, -(a / (field_prime() as int)));
}

/// Congruent numbers leave one remainder.
pub proof fn lemma_congruent_remainders(a: int, b: int)
    requires
        congruent(a, b),
    ensures
        a % (field_prime() as int) == b % (field_prime() as int),
{
    let p = field_prime() as int;
    lemma_remainder_congruent(a);
    lemma_remainder_congruent(b);
    lemma_congruent_trans(a % p, a, b);
    lemma_congruent_sym(b % p, b);
    lemma_congruent_trans(a % p, b, b % p);
    lemma_congruent_reduced(a % p, b % p);
}

/// Numbers that leave one remainder are congruent.
pub proof fn lemma_remainders_congruent(a: int, b: int)
    requires
        a % (field_prime() as int) == b % (field_prime() as int),
    ensures
        congruent(a, b),
{
    let p = field_prime() as int;
    lemma_remainder_congruent(a);
    lemma_remainder_congruent(b);
    lemma_congruent_sym(a % p, a);
    lemma_congruent_trans(a, a % p, b);
}

/// Sums of congruent numbers are congruent.
pub proof fn lemma_congruent_add(a: int, b: int, c: int, d: int)
    requires
        congruent(a, b),
        congruent(c, d),
    ensures
        congruent(a + c, b + d),
{
    let k = lemma_congruent_multiple(a, b);
    let l = lemma_congruent_multiple(c, d);
    lemma_multiple_congruent(a + c, b + d, k + l);
}

/// Every number is congruent to itself.
pub proof fn lemma_congruent_refl(a: int)
    ensures
        congruent(a, a),
{
    lemma_multiple_congruent(a, a, 0);
}

} // verus!
