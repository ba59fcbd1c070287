//! The sum of two points of the curve is a point of the curve, and so is
//! the reflection of one.
//!
//! The line through the two points meets the curve x³ + 7 = y² where the
//! cubic x³ + 7 − line(x)² is zero. That cubic has the two points' X
//! coordinates as roots, and its three roots add up to the square of the
//! slope: so the third root is the X coordinate that addition computes.

use crate::addition::is_sum_outcome;
use crate::bigint::is_inverse_of;
use crate::bytes::be_value;
use crate::errors::Secp256k1Error;
use crate::uncompressed_point::{is_on_curve, UncompressedPoint};
use crate::commutative::{lemma_chord_slope, lemma_difference_congruent};
use crate::congruence::{
    congruent, lemma_congruent_add, lemma_congruent_mul, lemma_congruent_refl,
    lemma_congruent_remainders, lemma_congruent_sub, lemma_congruent_sym, lemma_congruent_trans,
    lemma_remainder_congruent, lemma_remainders_congruent,
};
use crate::curve::field_prime;
use crate::field::{
    chord_slope, difference, inverse, is_invertible, point_sum, reflected, satisfies_curve,
    tangent_slope, third_point,
};
use vstd::prelude::*;

verus! {

/// The height at `x` of the line with slope `m` through (a, b).
pub open spec fn line(m: int, a: int, b: int, x: int) -> int {
    m * (x - a) + b
}

/// The coefficient of x in what the curve and the line leave over.
pub open spec fn rest_slope(m: int, a: int, b: int, c: int) -> int {
    2 * ((m * m) * a) - 2 * (m * b) - a * c - (a + c) * (m * m - a - c)
}

/// The constant in what the curve and the line leave over.
pub open spec fn rest_constant(m: int, a: int, b: int, c: int) -> int {
    7 - (m * m) * (a * a) + 2 * ((m * b) * a) - b * b + (a * c) * (m * m - a - c)
}

/// The square of the line, term by term.
proof fn lemma_line_square(m: int, a: int, b: int, x: int)
    ensures
        line(m, a, b, x) * line(m, a, b, x) == (m * m) * (x * x) - 2 * ((m * m) * (a * x)) + (m
            * m) * (a * a) + 2 * ((m * b) * x) - 2 * ((m * b) * a) + b * b,
{
    let u = x - a;
    let l = m * u + b;
    let mm = m * m;
    let mb = m * b;
    assert(l * l == mm * (u * u) + 2 * (mb * u) + b * b) by (nonlinear_arith)
        requires
            l == m * u + b,
            mm == m * m,
            mb == m * b,
    ;
    assert(u * u == x * x - 2 * (a * x) + a * a) by (nonlinear_arith)
        requires
            u == x - a,
    ;
    let (x2, ax, a2) = (x * x, a * x, a * a);
    assert(mm * (x2 - 2 * ax + a2) == mm * x2 - 2 * (mm * ax) + mm * a2) by (nonlinear_arith);
    assert(mb * (x - a) == mb * x - mb * a) by (nonlinear_arith);
}

/// The cubic with the roots a, c and m² − a − c, term by term.
proof fn lemma_cubic(m: int, a: int, c: int, x: int)
    ensures
        (x - a) * (x - c) * (x - (m * m - a - c)) == x * x * x - (m * m) * (x * x) + (a * c + (a
            + c) * (m * m - a - c)) * x - (a * c) * (m * m - a - c),
{
    let mm = m * m;
    let s = a + c;
    let t = mm - s;
    let pq = a * c;
    let x2 = x * x;
    let q = (x - a) * (x - c);
    assert(q == x2 - s * x + pq) by (nonlinear_arith)
        requires
            q == (x - a) * (x - c),
            s == a + c,
            pq == a * c,
            x2 == x * x,
    ;
    assert(q * (x - t) == q * x - q * t) by (nonlinear_arith);
    assert((x2 - s * x + pq) * x == x2 * x - s * x2 + pq * x) by (nonlinear_arith)
        requires
            x2 == x * x,
    ;
    assert((x2 - s * x + pq) * t == x2 * t - (s * t) * x + pq * t) by (nonlinear_arith);
    assert(x2 * (mm - s) == mm * x2 - s * x2) by (nonlinear_arith);
    assert((pq + s * t) * x == pq * x + (s * t) * x) by (nonlinear_arith);
}

/// The curve less the square of the line is the cubic with the roots a, c
/// and m² − a − c, and a linear rest.
pub proof fn lemma_line_identity(m: int, a: int, b: int, c: int, x: int)
    ensures
        x * x * x + 7 - line(m, a, b, x) * line(m, a, b, x) == (x - a) * (x - c) * (x - (m * m - a
            - c)) + rest_slope(m, a, b, c) * x + rest_constant(m, a, b, c),
{
    lemma_line_square(m, a, b, x);
    lemma_cubic(m, a, c, x);
    let mm = m * m;
    let mb = m * b;
    let t = mm - a - c;
    let (k1, k2, k3, k4) = (mm * a, mb, a * c, (a + c) * t);
    assert((2 * k1 - 2 * k2 - k3 - k4) * x == 2 * (k1 * x) - 2 * (k2 * x) - k3 * x - k4 * x)
        by (nonlinear_arith);
    assert((mm * a) * x == mm * (a * x)) by (nonlinear_arith);
    assert((k3 + k4) * x == k3 * x + k4 * x) by (nonlinear_arith);
}

/// A point of the curve makes the curve's two sides congruent.
proof fn lemma_curve_congruent(x: nat, y: nat)
    requires
        satisfies_curve(x, y),
    ensures
        congruent(x * x * x + 7 - y * y, 0),
{
    let (xi, yi) = (x as int, y as int);
    lemma_remainders_congruent(xi * xi * xi + 7, yi * yi);
    lemma_congruent_refl(yi * yi);
    lemma_congruent_sub(xi * xi * xi + 7, yi * yi, yi * yi, yi * yi);
}

/// Where the linear rest vanishes, the third point of the line lies on the
/// curve.
proof fn lemma_third_point_on_curve(m: nat, xp: nat, yp: nat, xq: nat)
    requires
        congruent(rest_slope(m as int, xp as int, yp as int, xq as int), 0),
        congruent(rest_constant(m as int, xp as int, yp as int, xq as int), 0),
    ensures
        satisfies_curve(third_point(m, xp, yp, xq).0, third_point(m, xp, yp, xq).1),
{
    let (mi, a, b, c) = (m as int, xp as int, yp as int, xq as int);
    let t = mi * mi - a - c;
    let slope = rest_slope(mi, a, b, c);
    let constant = rest_constant(mi, a, b, c);
    let height = line(mi, a, b, t);
    // At the third root the curve is congruent to the square of the line.
    lemma_line_identity(mi, a, b, c, t);
    assert((t - a) * (t - c) * (t - t) == 0) by (nonlinear_arith);
    lemma_congruent_refl(t);
    lemma_congruent_mul(slope, 0, t, t);
    assert(0 * t == 0) by (nonlinear_arith);
    lemma_congruent_add(slope * t, 0, constant, 0);
    lemma_congruent_refl(height * height);
    lemma_congruent_add(t * t * t + 7 - height * height, 0, height * height, height * height);
    // The X coordinate of the sum is that root.
    let xr = difference(difference(m * m, xp), xq);
    lemma_difference_congruent(m * m, xp);
    lemma_difference_congruent(difference(m * m, xp), xq);
    lemma_congruent_refl(c);
    lemma_congruent_sub(difference(m * m, xp) as int, mi * mi - a, c, c);
    let xi = xr as int;
    lemma_congruent_trans(xi, difference(m * m, xp) - c, t);
    // The Y coordinate of the sum is the negated height of the line there.
    let run = difference(xp, xr);
    let yr = difference(m * run, yp);
    lemma_difference_congruent(xp, xr);
    lemma_difference_congruent(m * run, yp);
    lemma_congruent_refl(a);
    lemma_congruent_sub(a, a, xi, t);
    lemma_congruent_trans(run as int, a - xi, a - t);
    lemma_congruent_refl(mi);
    lemma_congruent_mul(mi, mi, run as int, a - t);
    lemma_congruent_refl(b);
    lemma_congruent_sub(mi * run, mi * (a - t), b, b);
    let yi = yr as int;
    lemma_congruent_trans(yi, mi * run - b, mi * (a - t) - b);
    assert(mi * (a - t) - b == -height) by (nonlinear_arith)
        requires
            height == mi * (t - a) + b,
    ;
    lemma_congruent_mul(yi, -height, yi, -height);
    assert((-height) * (-height) == height * height) by (nonlinear_arith);
    // So the two sides of the curve equation are congruent at the sum.
    lemma_congruent_mul(xi, t, xi, t);
    lemma_congruent_mul(xi * xi, t * t, xi, t);
    lemma_congruent_refl(7);
    lemma_congruent_add(xi * xi * xi, t * t * t, 7, 7);
    lemma_congruent_sym(t * t * t + 7, height * height);
    lemma_congruent_trans(yi * yi, height * height, t * t * t + 7);
    lemma_congruent_sym(xi * xi * xi + 7, t * t * t + 7);
    lemma_congruent_trans(yi * yi, t * t * t + 7, xi * xi * xi + 7);
    lemma_congruent_remainders(yi * yi, xi * xi * xi + 7);
}

/// What the line's rest is at a point of the curve that the line passes
/// through: congruent to zero.
proof fn lemma_rest_at_point(m: int, a: int, b: int, c: int, x: nat, y: nat)
    requires
        satisfies_curve(x, y),
        x == a || x == c,
        congruent(line(m, a, b, x as int), y as int),
    ensures
        congruent(rest_slope(m, a, b, c) * x + rest_constant(m, a, b, c), 0),
{
    let (xi, yi) = (x as int, y as int);
    let height = line(m, a, b, xi);
    lemma_line_identity(m, a, b, c, xi);
    assert((xi - a) * (xi - c) * (xi - (m * m - a - c)) == 0) by (nonlinear_arith)
        requires
            xi == a || xi == c,
    ;
    lemma_curve_congruent(x, y);
    lemma_congruent_mul(height, yi, height, yi);
    lemma_congruent_refl(xi * xi * xi + 7);
    lemma_congruent_sub(xi * xi * xi + 7, xi * xi * xi + 7, height * height, yi * yi);
    lemma_congruent_trans(xi * xi * xi + 7 - height * height, xi * xi * xi + 7 - yi * yi, 0);
}

/// Where the rest vanishes at the first point and its slope is congruent to
/// zero, its constant is too.
proof fn lemma_rest_constant(slope: int, constant: int, a: int)
    requires
        congruent(slope, 0),
        congruent(slope * a + constant, 0),
    ensures
        congruent(constant, 0),
{
    lemma_congruent_refl(a);
    lemma_congruent_mul(slope, 0, a, a);
    assert(0 * a == 0) by (nonlinear_arith);
    lemma_congruent_sub(slope * a + constant, 0, slope * a, 0);
}

/// The rest of the chord through two points of the curve vanishes.
proof fn lemma_chord_rest(xp: nat, yp: nat, xq: nat, yq: nat)
    requires
        satisfies_curve(xp, yp),
        satisfies_curve(xq, yq),
        is_invertible(difference(xq, xp)),
    ensures
        congruent(
            rest_slope(chord_slope(xp, yp, xq, yq) as int, xp as int, yp as int, xq as int),
            0,
        ),
        congruent(
            rest_constant(chord_slope(xp, yp, xq, yq) as int, xp as int, yp as int, xq as int),
            0,
        ),
{
    let m = chord_slope(xp, yp, xq, yq) as int;
    let (a, b, c, d) = (xp as int, yp as int, xq as int, yq as int);
    let run = difference(xq, xp) as int;
    let rise = difference(yq, yp) as int;
    let slope = rest_slope(m, a, b, c);
    let constant = rest_constant(m, a, b, c);
    // The line passes through both points.
    lemma_chord_slope(xp, yp, xq, yq);
    lemma_difference_congruent(xq, xp);
    lemma_difference_congruent(yq, yp);
    lemma_congruent_refl(m);
    lemma_congruent_mul(m, m, run, c - a);
    lemma_congruent_sym(m * run, m * (c - a));
    lemma_congruent_trans(m * (c - a), m * run, rise);
    lemma_congruent_trans(m * (c - a), rise, d - b);
    lemma_congruent_refl(b);
    lemma_congruent_add(m * (c - a), d - b, b, b);
    assert(m * (a - a) == 0) by (nonlinear_arith);
    lemma_rest_at_point(m, a, b, c, xp, yp);
    lemma_rest_at_point(m, a, b, c, xq, yq);
    // So the rest's slope times the run is congruent to zero,
    lemma_congruent_sub(slope * c + constant, 0, slope * a + constant, 0);
    assert(slope * c + constant - (slope * a + constant) == slope * (c - a)) by (nonlinear_arith);
    // and the run has an inverse.
    let i = inverse(difference(xq, xp)) as int;
    lemma_remainder_congruent(i * run);
    lemma_congruent_sym(1, i * run);
    lemma_congruent_refl(i);
    lemma_congruent_mul(i, i, run, c - a);
    lemma_congruent_sym(i * run, i * (c - a));
    lemma_congruent_trans(i * (c - a), i * run, 1);
    lemma_congruent_sym(i * (c - a), 1);
    lemma_congruent_refl(slope);
    lemma_congruent_mul(slope, slope, 1, i * (c - a));
    assert(slope * 1 == slope) by (nonlinear_arith);
    assert(slope * (i * (c - a)) == i * (slope * (c - a))) by (nonlinear_arith);
    lemma_congruent_mul(i, i, slope * (c - a), 0);
    assert(i * 0 == 0) by (nonlinear_arith);
    lemma_congruent_trans(slope, i * (slope * (c - a)), 0);
    lemma_rest_constant(slope, constant, a);
}

/// The rest of the tangent at a point of the curve vanishes.
proof fn lemma_tangent_rest(x: nat, y: nat)
    requires
        satisfies_curve(x, y),
        is_invertible((y + y) % field_prime()),
    ensures
        congruent(rest_slope(tangent_slope(x, y) as int, x as int, y as int, x as int), 0),
        congruent(rest_constant(tangent_slope(x, y) as int, x as int, y as int, x as int), 0),
{
    let p = field_prime() as int;
    let m = tangent_slope(x, y) as int;
    let (a, b) = (x as int, y as int);
    let slope = rest_slope(m, a, b, a);
    let constant = rest_constant(m, a, b, a);
    let square = ((x * x) % field_prime()) as int;
    let numerator = ((3 * ((x * x) % field_prime())) % field_prime()) as int;
    let denominator = ((y + y) % field_prime()) as int;
    let i = inverse((y + y) % field_prime()) as int;
    // The slope times 2y is congruent to 3x².
    lemma_remainder_congruent(a * a);
    lemma_congruent_refl(3);
    lemma_congruent_mul(3, 3, square, a * a);
    lemma_remainder_congruent(3 * square);
    lemma_congruent_trans(numerator, 3 * square, 3 * (a * a));
    lemma_remainder_congruent(b + b);
    lemma_remainder_congruent(i * denominator);
    lemma_congruent_sym(1, i * denominator);
    lemma_remainder_congruent(numerator * i);
    lemma_congruent_refl(denominator);
    lemma_congruent_mul(m, numerator * i, denominator, denominator);
    assert((numerator * i) * denominator == numerator * (i * denominator)) by (nonlinear_arith);
    lemma_congruent_refl(numerator);
    lemma_congruent_mul(numerator, numerator, i * denominator, 1);
    assert(numerator * 1 == numerator) by (nonlinear_arith);
    lemma_congruent_trans(m * denominator, numerator * (i * denominator), numerator);
    lemma_congruent_trans(m * denominator, numerator, 3 * (a * a));
    lemma_congruent_refl(m);
    lemma_congruent_mul(m, m, denominator, b + b);
    lemma_congruent_sym(m * denominator, m * (b + b));
    lemma_congruent_trans(m * (b + b), m * denominator, 3 * (a * a));
    // That makes the rest's slope congruent to zero.
    assert(slope == 3 * (a * a) - m * (b + b)) by (nonlinear_arith)
        requires
            slope == 2 * ((m * m) * a) - 2 * (m * b) - a * a - (a + a) * (m * m - a - a),
    ;
    lemma_congruent_refl(3 * (a * a));
    lemma_congruent_sub(3 * (a * a), 3 * (a * a), m * (b + b), 3 * (a * a));
    // The line passes through the point.
    assert(m * (a - a) == 0) by (nonlinear_arith);
    lemma_congruent_refl(b);
    lemma_rest_at_point(m, a, b, a, x, y);
    lemma_rest_constant(slope, constant, a);
}

/// The sum of two points of the curve is a point of the curve.
pub proof fn lemma_sum_on_curve(xp: nat, yp: nat, xq: nat, yq: nat)
    requires
        satisfies_curve(xp, yp),
        satisfies_curve(xq, yq),
        point_sum(xp, yp, xq, yq) is Some,
    ensures
        ({
            let sum = point_sum(xp, yp, xq, yq).unwrap();
            satisfies_curve(sum.0, sum.1)
        }),
{
    if xp == xq && yp == yq {
        lemma_tangent_rest(xp, yp);
        lemma_third_point_on_curve(tangent_slope(xp, yp), xp, yp, xq);
    } else {
        lemma_chord_rest(xp, yp, xq, yq);
        lemma_third_point_on_curve(chord_slope(xp, yp, xq, yq), xp, yp, xq);
    }
}

/// What adding two points of the curve gives, where it gives a point, is a
/// point of the curve.
pub proof fn lemma_sum_of_points_on_curve(
    p: UncompressedPoint,
    q: UncompressedPoint,
    r: Result<UncompressedPoint, Secp256k1Error>,
)
    requires
        is_on_curve(p),
        is_on_curve(q),
        is_sum_outcome(p, q, r),
    ensures
        r matches Ok(s) ==> is_on_curve(s),
{
    if r is Ok {
        lemma_sum_on_curve(
            be_value(p.0@.subrange(0, 32)),
            be_value(p.0@.subrange(32, 64)),
            be_value(q.0@.subrange(0, 32)),
            be_value(q.0@.subrange(32, 64)),
        );
    }
}

/// The reflection of a point of the curve is a point of the curve.
pub proof fn lemma_reflection_on_curve(x: nat, y: nat)
    requires
        satisfies_curve(x, y),
        y <= field_prime(),
    ensures
        satisfies_curve(x, reflected(y)),
{
    let (mirrored, yi) = (reflected(y) as int, y as int);
    crate::congruence::lemma_multiple_congruent(mirrored, -yi, 1);
    lemma_congruent_mul(mirrored, -yi, mirrored, -yi);
    assert((-yi) * (-yi) == yi * yi) by (nonlinear_arith);
    lemma_congruent_remainders(mirrored * mirrored, yi * yi);
}

} // verus!
