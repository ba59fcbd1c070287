//! What follows from the primality of the group order and the field prime:
//! every residue but zero has an inverse, a square has the square root that
//! lifting computes, and that root is one of only two.

use crate::bigint::{is_inverse_of, power};
use crate::congruence::{
    lemma_congruent_mul, lemma_congruent_sym, lemma_congruent_trans, lemma_multiple_congruent,
    lemma_remainder_congruent,
};
use crate::curve::{field_prime, order};
use crate::field::{
    difference, is_invertible, lemma_difference_zero, lemma_power_of_reduced, lifts, point_sum,
    reflected, satisfies_curve, sqrt_candidate,
};
use crate::field_certificate::lemma_prime_field_prime;
use crate::order_certificate::lemma_prime_order;
use crate::primes::{
    has_inverse, is_exponent_of, is_power_of, is_prime, lemma_power_add, lemma_power_mod_multiple,
    lemma_power_one, power_mod,
};
use vstd::arithmetic::div_mod::{lemma_mod_bound, lemma_mul_mod_noop, lemma_small_mod};
use vstd::prelude::*;

verus! {

/// The group order is prime.
pub proof fn lemma_order_is_prime()
    ensures
        is_prime(order()),
{
    lemma_prime_order();
}

/// The field prime is prime.
pub proof fn lemma_field_prime_is_prime()
    ensures
        is_prime(field_prime()),
{
    lemma_prime_field_prime();
}

/// What has an inverse once reduced has that inverse unreduced.
proof fn lemma_inverse_of_reduced(r: nat, k: nat, n: nat)
    requires
        n > 1,
        is_inverse_of(r, k % n, n),
    ensures
        is_inverse_of(r, k, n),
{
    lemma_mul_mod_noop(r as int, k as int, n as int);
    lemma_mul_mod_noop(r as int, (k % n) as int, n as int);
    lemma_mod_bound(k as int, n as int);
    lemma_small_mod(k % n, n);
}

/// Every scalar that is not a multiple of the group order has an inverse
/// modulo the group order.
pub proof fn lemma_scalar_has_inverse(k: nat)
    requires
        k % order() != 0,
    ensures
        exists|r: nat| is_inverse_of(r, k, order()),
{
    lemma_prime_order();
    lemma_mod_bound(k as int, order() as int);
    let reduced = k % order();
    assert(has_inverse(reduced, order()));
    let r = choose|r: nat| is_inverse_of(r, reduced, order());
    lemma_inverse_of_reduced(r, k, order());
}

/// Every field element that is not a multiple of the field prime has an
/// inverse modulo the field prime.
pub proof fn lemma_element_has_inverse(k: nat)
    requires
        k % field_prime() != 0,
    ensures
        exists|r: nat| is_inverse_of(r, k, field_prime()),
        is_invertible(k),
{
    lemma_prime_field_prime();
    lemma_mod_bound(k as int, field_prime() as int);
    let reduced = k % field_prime();
    assert(has_inverse(reduced, field_prime()));
    let r = choose|r: nat| is_inverse_of(r, reduced, field_prime());
    lemma_inverse_of_reduced(r, k, field_prime());
}

/// A power of a power is the power to the product of the exponents.
pub proof fn lemma_power_of_power(a: nat, e: nat, k: nat)
    ensures
        power(power(a, e), k) == power(a, e * k),
    decreases k,
{
    if k == 0 {
        assert(e * 0 == 0) by (nonlinear_arith);
    } else {
        lemma_power_of_power(a, e, (k - 1) as nat);
        lemma_power_add(a, e, e * ((k - 1) as nat));
        assert(e + e * ((k - 1) as nat) == e * k) by (nonlinear_arith)
            requires
                k >= 1,
        ;
    }
}

/// Each field element that is not a multiple of the prime, raised to the
/// prime less 1, is 1.
pub proof fn lemma_fermat(y: nat)
    requires
        y % field_prime() != 0,
    ensures
        power(y, (field_prime() - 1) as nat) % field_prime() == 1,
{
    let p = field_prime();
    let m = (p - 1) as nat;
    lemma_prime_field_prime();
    lemma_mod_bound(y as int, p as int);
    let reduced = y % p;
    assert(is_power_of(reduced, 3, p));
    let e = choose|e: nat| is_exponent_of(e, 3, reduced, p);
    reveal(power_mod);
    lemma_power_of_reduced(y, m, p);
    lemma_power_of_reduced(power(3, e), m, p);
    lemma_power_of_power(3, e, m);
    lemma_power_mod_multiple(3, m, e, p);
    assert(e * m == m * e) by (nonlinear_arith);
}

/// Where `c` is a square modulo the field prime, `c` to the power
/// (P + 1) / 4 is a square root of it.
pub proof fn lemma_square_root(c: nat, y: nat)
    requires
        (y * y) % field_prime() == c % field_prime(),
    ensures
        (((power(c, (field_prime() + 1) / 4) % field_prime()) * (power(
            c,
            (field_prime() + 1) / 4,
        ) % field_prime())) % field_prime()) == c % field_prime(),
{
    let p = field_prime();
    let e = (p + 1) / 4;
    let half = (p + 1) / 2;
    let m = (p - 1) as nat;
    let root = power(c, e);
    // root² is c to the (P + 1) / 2
    lemma_mul_mod_noop(root as int, root as int, p as int);
    lemma_power_add(c, e, e);
    assert(e + e == half);
    // which is y² to the (P + 1) / 2, that is y to the P + 1
    lemma_power_of_reduced(c, half, p);
    lemma_power_of_reduced(y * y, half, p);
    lemma_power_one(y);
    lemma_power_add(y, 1, 1);
    lemma_power_of_power(y, 2, half);
    assert(2 * half == m + 2);
    lemma_power_add(y, m, 2);
    // and y to the P − 1 is 1, or y is 0
    lemma_mul_mod_noop(power(y, m) as int, power(y, 2) as int, p as int);
    let w = (y * y) % p;
    if y % p != 0 {
        lemma_fermat(y);
        assert(1 * w == w) by (nonlinear_arith);
        lemma_small_mod(w, p);
    } else {
        lemma_mul_mod_noop(y as int, y as int, p as int);
        assert(0 * 0 == 0) by (nonlinear_arith);
        assert(w == 0);
        assert((power(y, m) % p) * 0 == 0) by (nonlinear_arith);
    }
}

/// Two reduced field elements with one square are equal, or reflections of
/// each other.
pub proof fn lemma_two_roots(r: nat, y: nat)
    requires
        r < field_prime(),
        y < field_prime(),
        (r * r) % field_prime() == (y * y) % field_prime(),
    ensures
        r == y || r + y == field_prime(),
{
    if r != y {
        let p = field_prime() as int;
        let (hi, lo) = if r > y {
            (r as int, y as int)
        } else {
            (y as int, r as int)
        };
        let k = hi - lo;
        let s = hi + lo;
        let gap = k as nat;
        lemma_small_mod(gap, field_prime());
        lemma_element_has_inverse(gap);
        let i = choose|i: nat| is_inverse_of(i, gap, field_prime());
        // k·s = hi² − lo² ≡ 0
        lemma_remainder_congruent(hi * hi);
        lemma_remainder_congruent(lo * lo);
        lemma_congruent_sym((lo * lo) % p, lo * lo);
        lemma_congruent_sym((hi * hi) % p, hi * hi);
        lemma_congruent_trans(hi * hi, (hi * hi) % p, lo * lo);
        assert(k * s == hi * hi - lo * lo) by (nonlinear_arith)
            requires
                k == hi - lo,
                s == hi + lo,
        ;
        let t = crate::congruence::lemma_congruent_multiple(hi * hi, lo * lo);
        lemma_multiple_congruent(k * s, 0, t);
        // s = 1·s ≡ (i·k)·s = i·(k·s) ≡ i·0
        lemma_remainder_congruent(i * k);
        lemma_congruent_sym(1, i * k);
        lemma_multiple_congruent(s, s, 0);
        lemma_congruent_mul(1, i * k, s, s);
        assert(1 * s == s) by (nonlinear_arith);
        assert((i * k) * s == i * (k * s)) by (nonlinear_arith);
        lemma_multiple_congruent(i as int, i as int, 0);
        lemma_congruent_mul(i as int, i as int, k * s, 0);
        assert(i * 0 == 0) by (nonlinear_arith);
        lemma_congruent_trans(s, i * (k * s), 0);
        let u = crate::congruence::lemma_congruent_multiple(s, 0);
        if u >= 2 {
            assert(p * u >= 2 * p) by (nonlinear_arith)
                requires
                    u >= 2,
                    p > 0,
            ;
        }
        if u <= 0 {
            assert(p * u <= 0) by (nonlinear_arith)
                requires
                    u <= 0,
                    p > 0,
            ;
        }
        assert(p * 1 == p) by (nonlinear_arith);
    }
}

/// A reduced Y coordinate on the curve at `x` is the square root that lifting
/// `x` computes, or the reflection of that root; and `x` lifts.
pub proof fn lemma_curve_point_root(x: nat, y: nat)
    requires
        satisfies_curve(x, y),
        y < field_prime(),
    ensures
        lifts(x),
        y == sqrt_candidate(x) || y == reflected(sqrt_candidate(x)),
{
    lemma_square_root(x * x * x + 7, y);
    lemma_two_roots(sqrt_candidate(x), y);
}

/// An X coordinate lifts exactly where some Y satisfies the curve equation
/// with it.
pub proof fn lemma_lifts_where_on_curve(x: nat)
    ensures
        lifts(x) <==> exists|y: nat| satisfies_curve(x, y),
{
    if exists|y: nat| satisfies_curve(x, y) {
        let y = choose|y: nat| satisfies_curve(x, y);
        let reduced = y % field_prime();
        lemma_mul_mod_noop(y as int, y as int, field_prime() as int);
        lemma_mod_bound(y as int, field_prime() as int);
        lemma_small_mod(reduced, field_prime());
        lemma_mul_mod_noop(reduced as int, reduced as int, field_prime() as int);
        assert(satisfies_curve(x, reduced));
        lemma_curve_point_root(x, reduced);
    }
    if lifts(x) {
        assert(satisfies_curve(x, sqrt_candidate(x)));
    }
}

/// A field element has an inverse exactly where it is not a multiple of the
/// field prime.
pub proof fn lemma_invertible_where_nonzero(k: nat)
    ensures
        is_invertible(k) <==> k % field_prime() != 0,
{
    if k % field_prime() != 0 {
        lemma_element_has_inverse(k);
    }
    if is_invertible(k) && k % field_prime() == 0 {
        let r = choose|r: nat| is_inverse_of(r, k, field_prime());
        lemma_mul_mod_noop(r as int, k as int, field_prime() as int);
        assert((r % field_prime()) * 0 == 0) by (nonlinear_arith);
    }
}

/// Two points have a sum unless they stand above one another: a point and
/// itself unless its Y coordinate is zero, two different points unless
/// their X coordinates are the same field element.
pub proof fn lemma_sum_exists(xp: nat, yp: nat, xq: nat, yq: nat)
    ensures
        point_sum(xp, yp, xq, yq) is None <==> if xp == xq && yp == yq {
            (yp + yp) % field_prime() == 0
        } else {
            xp % field_prime() == xq % field_prime()
        },
{
    lemma_invertible_where_nonzero((yp + yp) % field_prime());
    lemma_invertible_where_nonzero(difference(xq, xp));
    lemma_difference_zero(xq, xp);
    lemma_small_mod(difference(xq, xp), field_prime());
    lemma_mod_bound((yp + yp) as int, field_prime() as int);
    lemma_small_mod((yp + yp) % field_prime(), field_prime());
}

} // verus!
