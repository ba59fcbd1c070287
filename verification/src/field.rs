//! The arithmetic of the curve equation, over natural numbers.
//!
//! A point (x, y) lies on the curve where y² = x³ + 7 modulo the field prime.
//! The prime leaves the remainder 3 when divided by 4, so a square c has the
//! square root c to the power (P + 1) / 4: the candidate that lifting an
//! X coordinate computes, and that a checked lift squares again.

use crate::bigint::{is_inverse_of, power};
use crate::curve::field_prime;
use vstd::arithmetic::div_mod::{lemma_mod_bound, lemma_mul_mod_noop};
use vstd::prelude::*;

verus! {

/// The right side of the curve equation at `x`, reduced.
pub open spec fn curve_rhs(x: nat) -> nat {
    (x * x * x + 7) % field_prime()
}

/// The candidate for a square root of the curve equation's right side at `x`.
pub open spec fn sqrt_candidate(x: nat) -> nat {
    power(x * x * x + 7, (field_prime() + 1) / 4) % field_prime()
}

/// Whether (x, y) satisfies the curve equation.
pub open spec fn satisfies_curve(x: nat, y: nat) -> bool {
    (y * y) % field_prime() == curve_rhs(x)
}

/// Whether the candidate at `x` is a square root indeed: `x` lifts to a point.
pub open spec fn lifts(x: nat) -> bool {
    satisfies_curve(x, sqrt_candidate(x))
}

/// The reflection of the coordinate `y`: P − y, in 256 bits.
pub open spec fn reflected(y: nat) -> nat {
    if y <= field_prime() {
        (field_prime() - y) as nat
    } else {
        (0x1_00000000_00000000_00000000_00000000_00000000_00000000_00000000_00000000
            + field_prime() - y) as nat
    }
}

/// A power keeps its remainder when its base is reduced first.
pub proof fn lemma_power_of_reduced(a: nat, e: nat, m: nat)
    requires
        m > 0,
    ensures
        power(a % m, e) % m == power(a, e) % m,
    decreases e,
{
    if e > 0 {
        let r = a % m;
        let pr = power(r, (e - 1) as nat);
        let pa = power(a, (e - 1) as nat);
        lemma_power_of_reduced(a, (e - 1) as nat, m);
        lemma_mod_bound(a as int, m as int);
        lemma_mul_mod_noop(r as int, pr as int, m as int);
        lemma_mul_mod_noop(a as int, pa as int, m as int);
        assert(r % m == r) by {
            vstd::arithmetic::div_mod::lemma_small_mod(r, m);
        }
    }
}

/// Reflecting a coordinate between 0 and P changes its parity, as P is odd.
pub proof fn lemma_reflected_parity(y: nat)
    requires
        y <= field_prime(),
    ensures
        reflected(y) % 2 != y % 2,
        reflected(y) <= field_prime(),
        reflected(reflected(y)) == y,
{
}

/// A reflected coordinate fits in 256 bits.
pub proof fn lemma_reflected_bound(y: nat)
    requires
        y < 0x1_00000000_00000000_00000000_00000000_00000000_00000000_00000000_00000000,
    ensures
        reflected(y) < 0x1_00000000_00000000_00000000_00000000_00000000_00000000_00000000_00000000,
{
}

/// Whether `a` has an inverse modulo the field prime.
pub open spec fn is_invertible(a: nat) -> bool {
    exists|x: nat| is_inverse_of(x, a, field_prime())
}

/// The inverse of `a` modulo the field prime, where it has one.
pub open spec fn inverse(a: nat) -> nat {
    choose|x: nat| is_inverse_of(x, a, field_prime())
}

/// a − b modulo the field prime.
#[verifier::opaque]
pub open spec fn difference(a: nat, b: nat) -> nat {
    ((a % field_prime() + field_prime() - b % field_prime()) % (field_prime() as int)) as nat
}

/// The slope of the line through two points with different X coordinates:
/// the difference of their Y coordinates by that of their X coordinates.
pub open spec fn chord_slope(xp: nat, yp: nat, xq: nat, yq: nat) -> nat {
    (difference(yq, yp) * inverse(difference(xq, xp))) % field_prime()
}

/// The slope of the tangent at a point: 3x² / 2y.
pub open spec fn tangent_slope(x: nat, y: nat) -> nat {
    (((3 * ((x * x) % field_prime())) % field_prime()) * inverse((y + y) % field_prime()))
        % field_prime()
}

/// The third point of the curve on the line with slope `m` through the
/// points at `xp` and `xq`, reflected: the sum of the two points.
pub open spec fn third_point(m: nat, xp: nat, yp: nat, xq: nat) -> (nat, nat) {
    let xr = difference(difference(m * m, xp), xq);
    let yr = difference(m * difference(xp, xr), yp);
    (xr, yr)
}

/// The sum of the points (xp, yp) and (xq, yq) by the chord through them, or
/// by the tangent where they are the same point; nothing where the slope's
/// denominator has no inverse, as for a point and its reflection.
pub open spec fn point_sum(xp: nat, yp: nat, xq: nat, yq: nat) -> Option<(nat, nat)> {
    if xp == xq && yp == yq {
        if is_invertible((yp + yp) % field_prime()) {
            Some(third_point(tangent_slope(xp, yp), xp, yp, xq))
        } else {
            None
        }
    } else {
        if is_invertible(difference(xq, xp)) {
            Some(third_point(chord_slope(xp, yp, xq, yq), xp, yp, xq))
        } else {
            None
        }
    }
}

/// An element has at most one reduced inverse.
pub proof fn lemma_inverse_unique(x: nat, y: nat, a: nat, m: nat)
    requires
        is_inverse_of(x, a, m),
        is_inverse_of(y, a, m),
    ensures
        x == y,
{
    let mi = m as int;
    // x ≡ x·(a·y) = (x·a)·y ≡ y
    lemma_mul_mod_noop(x as int, (a * y) as int, mi);
    lemma_mul_mod_noop((x * a) as int, y as int, mi);
    assert(x * (a * y) == (x * a) * y) by (nonlinear_arith);
    assert(a * y == y * a) by (nonlinear_arith);
    vstd::arithmetic::div_mod::lemma_small_mod(x, m);
    vstd::arithmetic::div_mod::lemma_small_mod(y, m);
    assert(m > 1) by {
        if m == 1 {
            assert((x * a) % 1 == 0);
        }
    }
    vstd::arithmetic::div_mod::lemma_small_mod(1, m);
    assert(x * 1 == x && 1 * y == y) by (nonlinear_arith);
}

/// Whoever holds one inverse of `a` holds `inverse(a)`.
pub proof fn lemma_inverse_is(x: nat, a: nat)
    requires
        is_inverse_of(x, a, field_prime()),
    ensures
        is_invertible(a),
        inverse(a) == x,
{
    lemma_inverse_unique(x, inverse(a), a, field_prime());
}

/// A difference is reduced, and is the same for arguments reduced before.
pub proof fn lemma_difference_reduced(a: nat, b: nat)
    ensures
        difference(a, b) < field_prime(),
        difference(a % field_prime(), b) == difference(a, b),
        difference(a, b % field_prime()) == difference(a, b),
{
    reveal(difference);
}

/// The differences of two numbers is zero exactly where they leave one
/// remainder.
pub proof fn lemma_difference_zero(a: nat, b: nat)
    ensures
        difference(a, b) == 0 <==> a % field_prime() == b % field_prime(),
        difference(a, b) < field_prime(),
{
    reveal(difference);
}

} // verus!
