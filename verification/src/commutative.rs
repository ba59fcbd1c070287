//! Addition of points does not depend on the order of the two points.

use crate::addition::sum_of;
use crate::bigint::is_inverse_of;
use crate::bytes::be_value;
use crate::congruence::{
    congruent, lemma_congruent_mul, lemma_congruent_multiple, lemma_congruent_reduced,
    lemma_congruent_sub, lemma_congruent_sym, lemma_congruent_trans, lemma_multiple_congruent,
    lemma_remainder_congruent,
};
use crate::curve::field_prime;
use crate::field::{
    chord_slope, difference, inverse, is_invertible, lemma_inverse_is, point_sum, third_point,
};
use crate::uncompressed_point::UncompressedPoint;
use vstd::prelude::*;

verus! {

/// A difference is congruent to the difference of the integers, and reduced.
pub proof fn lemma_difference_congruent(a: nat, b: nat)
    ensures
        congruent(difference(a, b) as int, a - b),
        difference(a, b) < field_prime(),
{
    reveal(difference);
    let p = field_prime() as int;
    lemma_remainder_congruent(a as int);
    lemma_remainder_congruent(b as int);
    let t = a % field_prime() + field_prime() - b % field_prime();
    lemma_remainder_congruent(t);
    lemma_congruent_sub((a as int) % p, a as int, (b as int) % p, b as int);
    lemma_multiple_congruent(t, (a as int) % p - (b as int) % p, 1);
    lemma_congruent_trans(t, (a as int) % p - (b as int) % p, a - b);
    lemma_congruent_trans(difference(a, b) as int, t, a - b);
}

/// The difference b − a is congruent to the negation of a − b.
proof fn lemma_difference_negated(a: nat, b: nat)
    ensures
        congruent(difference(b, a) as int, -(difference(a, b) as int)),
{
    lemma_difference_congruent(a, b);
    lemma_difference_congruent(b, a);
    lemma_congruent_sub(0, 0, difference(a, b) as int, a - b);
    lemma_congruent_sym(-(difference(a, b) as int), b - a);
    lemma_congruent_trans(difference(b, a) as int, b - a, -(difference(a, b) as int));
}

/// Where a − b has an inverse, so has b − a: the negation of that inverse.
proof fn lemma_negated_inverse(a: nat, b: nat)
    requires
        is_invertible(difference(a, b)),
    ensures
        is_invertible(difference(b, a)),
        inverse(difference(b, a)) == field_prime() - inverse(difference(a, b)),
        inverse(difference(a, b)) < field_prime(),
        congruent((inverse(difference(a, b)) * difference(a, b)) as int, 1),
{
    let p = field_prime() as int;
    let d = difference(a, b) as int;
    let e = difference(b, a) as int;
    let i = inverse(difference(a, b)) as int;
    lemma_difference_congruent(b, a);
    lemma_difference_negated(a, b);
    assert(i != 0) by {
        assert(0 * d == 0) by (nonlinear_arith);
    }
    let j = p - i;
    lemma_multiple_congruent(j, -i, 1);
    lemma_congruent_mul(j, -i, e, -d);
    assert((-i) * (-d) == i * d) by (nonlinear_arith);
    lemma_remainder_congruent(i * d);
    lemma_congruent_sym(1, i * d);
    lemma_congruent_trans(j * e, i * d, 1);
    lemma_remainder_congruent(j * e);
    lemma_congruent_trans((j * e) % p, j * e, 1);
    lemma_congruent_reduced((j * e) % p, 1);
    assert(is_inverse_of(j as nat, e as nat, field_prime()));
    lemma_inverse_is(j as nat, e as nat);
}

/// Subtracting two numbers one after the other gives the same in either order.
proof fn lemma_difference_swap(a: nat, b: nat, c: nat)
    ensures
        difference(difference(a, b), c) == difference(difference(a, c), b),
{
    let u = difference(a, b);
    let v = difference(a, c);
    lemma_difference_congruent(a, b);
    lemma_difference_congruent(a, c);
    lemma_difference_congruent(u, c);
    lemma_difference_congruent(v, b);
    lemma_congruent_sub(u as int, a - b, c as int, c as int);
    lemma_congruent_trans(difference(u, c) as int, u - c, a - b - c);
    lemma_congruent_sub(v as int, a - c, b as int, b as int);
    lemma_congruent_trans(difference(v, b) as int, v - b, a - c - b);
    lemma_congruent_sym(difference(v, b) as int, a - c - b);
    lemma_congruent_trans(difference(u, c) as int, a - b - c, difference(v, b) as int);
    lemma_congruent_reduced(difference(u, c) as int, difference(v, b) as int);
}

/// The slope of the chord is the same from either end, and the slope times
/// the run is the rise.
pub proof fn lemma_chord_slope(xp: nat, yp: nat, xq: nat, yq: nat)
    requires
        is_invertible(difference(xq, xp)),
    ensures
        is_invertible(difference(xp, xq)),
        chord_slope(xp, yp, xq, yq) == chord_slope(xq, yq, xp, yp),
        congruent(
            (chord_slope(xp, yp, xq, yq) * difference(xq, xp)) as int,
            difference(yq, yp) as int,
        ),
{
    let p = field_prime() as int;
    let d = difference(xq, xp) as int;
    let e = difference(yq, yp) as int;
    let e2 = difference(yp, yq) as int;
    let i = inverse(difference(xq, xp)) as int;
    let i2 = inverse(difference(xp, xq)) as int;
    let m = chord_slope(xp, yp, xq, yq) as int;
    let m2 = chord_slope(xq, yq, xp, yp) as int;
    lemma_negated_inverse(xq, xp);
    lemma_difference_negated(yq, yp);
    lemma_multiple_congruent(i2, -i, 1);
    lemma_congruent_mul(e2, -e, i2, -i);
    assert((-e) * (-i) == e * i) by (nonlinear_arith);
    lemma_remainder_congruent(e * i);
    lemma_remainder_congruent(e2 * i2);
    lemma_congruent_trans(m2, e2 * i2, e * i);
    lemma_congruent_sym(m, e * i);
    lemma_congruent_trans(m2, e * i, m);
    lemma_congruent_reduced(m2, m);
    // m·d ≡ (e·i)·d = e·(i·d) ≡ e·1
    lemma_multiple_congruent(d, d, 0);
    lemma_congruent_mul(m, e * i, d, d);
    assert((e * i) * d == e * (i * d)) by (nonlinear_arith);
    lemma_multiple_congruent(e, e, 0);
    lemma_congruent_mul(e, e, i * d, 1);
    assert(e * 1 == e) by (nonlinear_arith);
    lemma_congruent_trans(m * d, e * (i * d), e);
}

/// The chord through two points gives the same sum from either end.
proof fn lemma_chord_commutative(xp: nat, yp: nat, xq: nat, yq: nat)
    requires
        is_invertible(difference(xq, xp)),
    ensures
        is_invertible(difference(xp, xq)),
        third_point(chord_slope(xp, yp, xq, yq), xp, yp, xq) == third_point(
            chord_slope(xq, yq, xp, yp),
            xq,
            yq,
            xp,
        ),
{
    lemma_chord_slope(xp, yp, xq, yq);
    let m = chord_slope(xp, yp, xq, yq);
    let d = difference(xq, xp) as int;
    let e = difference(yq, yp) as int;
    lemma_difference_swap(m * m, xp, xq);
    let xr = difference(difference(m * m, xp), xq);
    let run = difference(xp, xr) as int;
    let run2 = difference(xq, xr) as int;
    lemma_difference_congruent(xp, xr);
    lemma_difference_congruent(xq, xr);
    lemma_difference_congruent(xq, xp);
    lemma_difference_congruent(yq, yp);
    // run2 − run ≡ xq − xp ≡ d
    lemma_congruent_sub(run2, xq - xr, run, xp - xr);
    lemma_congruent_sym(d, xq - xp);
    lemma_congruent_trans(run2 - run, xq - xp, d);
    // m·run2 − m·run ≡ m·d ≡ e ≡ yq − yp
    lemma_multiple_congruent(m as int, m as int, 0);
    lemma_congruent_mul(m as int, m as int, run2 - run, d);
    assert(m * (run2 - run) == m * run2 - m * run) by (nonlinear_arith);
    lemma_congruent_trans(m * run2 - m * run, m * d, e);
    lemma_congruent_trans(m * run2 - m * run, e, yq - yp);
    // m·run − yp ≡ m·run2 − yq
    let k = lemma_congruent_multiple(m * run2 - m * run, yq - yp);
    lemma_multiple_congruent(m * run - yp, m * run2 - yq, -k);
    let yr = difference(m * difference(xp, xr), yp);
    let yr2 = difference(m * difference(xq, xr), yq);
    lemma_difference_congruent(m * difference(xp, xr), yp);
    lemma_difference_congruent(m * difference(xq, xr), yq);
    lemma_congruent_trans(yr as int, m * run - yp, m * run2 - yq);
    lemma_congruent_sym(yr2 as int, m * run2 - yq);
    lemma_congruent_trans(yr as int, m * run2 - yq, yr2 as int);
    lemma_congruent_reduced(yr as int, yr2 as int);
}

/// The sum of two points is the sum of the same points in the other order.
pub proof fn lemma_point_sum_commutative(xp: nat, yp: nat, xq: nat, yq: nat)
    ensures
        point_sum(xp, yp, xq, yq) == point_sum(xq, yq, xp, yp),
{
    if !(xp == xq && yp == yq) {
        if is_invertible(difference(xq, xp)) {
            lemma_chord_commutative(xp, yp, xq, yq);
        } else if is_invertible(difference(xp, xq)) {
            lemma_chord_commutative(xq, yq, xp, yp);
        }
    }
}

/// Adding `q` to `p` gives what adding `p` to `q` gives.
pub proof fn lemma_sum_commutative(p: UncompressedPoint, q: UncompressedPoint)
    ensures
        sum_of(p, q) == sum_of(q, p),
{
    lemma_point_sum_commutative(
        be_value(p.0@.subrange(0, 32)),
        be_value(p.0@.subrange(32, 64)),
        be_value(q.0@.subrange(0, 32)),
        be_value(q.0@.subrange(32, 64)),
    );
}

} // verus!
