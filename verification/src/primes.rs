//! The number theory behind the two primes of the curve.
//!
//! A number n is prime where some a has the order n − 1 modulo n: the powers
//! of a then run through every residue but zero, so each of them has an
//! inverse. That a has this order is shown from the prime factors of n − 1:
//! a to the n − 1 is 1, and a to (n − 1) / q is not, for each prime factor q.

use crate::bigint::{is_inverse_of, power};
use vstd::arithmetic::div_mod::{
    lemma_fundamental_div_mod, lemma_fundamental_div_mod_converse, lemma_mod_multiples_basic,
    lemma_mul_mod_noop, lemma_small_mod,
};
use vstd::prelude::*;
use vstd::relations::injective_on;
use vstd::set_lib::{lemma_int_range, lemma_map_size, lemma_subset_equality, set_int_range};

verus! {

/// Whether `d` divides `n`.
pub open spec fn divides(d: nat, n: nat) -> bool {
    d > 0 && n % d == 0
}

/// Whether `p` is prime: at least 2, and divided by nothing between 1 and itself.
pub open spec fn is_prime(p: nat) -> bool {
    p >= 2 && forall|d: nat| 1 < d < p ==> !divides(d, p)
}

/// `a` to the power `e`, reduced modulo `n`.
#[verifier::opaque]
pub open spec fn power_mod(a: nat, e: nat, n: nat) -> nat {
    power(a, e) % n
}

/// Whether `k` has an inverse modulo `n`.
pub open spec fn has_inverse(k: nat, n: nat) -> bool {
    exists|r: nat| is_inverse_of(r, k, n)
}

/// Whether every residue modulo `n` but zero has an inverse.
pub open spec fn all_invertible(n: nat) -> bool {
    forall|k: nat| 0 < k < n ==> has_inverse(k, n)
}

/// Whether `e` is an exponent that takes `a` to `k` modulo `n`.
pub open spec fn is_exponent_of(e: nat, a: nat, k: nat, n: nat) -> bool {
    power_mod(a, e, n) == k
}

/// Whether `k` is a power of `a` modulo `n`.
pub open spec fn is_power_of(k: nat, a: nat, n: nat) -> bool {
    exists|e: nat| is_exponent_of(e, a, k, n)
}

/// Whether the powers of `a` run through every residue modulo `n` but zero.
pub open spec fn generates(a: nat, n: nat) -> bool {
    forall|k: nat| 0 < k < n ==> is_power_of(k, a, n)
}

/// The product of the numbers in `s`.
pub open spec fn product(s: Seq<nat>) -> nat
    decreases s.len(),
{
    if s.len() == 0 {
        1
    } else {
        product(s.drop_last()) * s.last()
    }
}

/// A power with a sum as its exponent is the product of the powers.
pub proof fn lemma_power_add(a: nat, e1: nat, e2: nat)
    ensures
        power(a, e1 + e2) == power(a, e1) * power(a, e2),
    decreases e1,
{
    if e1 == 0 {
        assert(1 * power(a, e2) == power(a, e2)) by (nonlinear_arith);
    } else {
        lemma_power_add(a, (e1 - 1) as nat, e2);
        let x = power(a, (e1 - 1) as nat);
        let y = power(a, e2);
        assert(a * (x * y) == (a * x) * y) by (nonlinear_arith);
        assert(power(a, e1 + e2) == a * power(a, (e1 + e2 - 1) as nat));
    }
}

/// The first power of a number is the number.
pub proof fn lemma_power_one(a: nat)
    ensures
        power(a, 1) == a,
        power(a, 0) == 1,
{
    reveal_with_fuel(power, 2);
    assert(a * 1 == a) by (nonlinear_arith);
}

/// Reduced powers multiply as powers do.
pub proof fn lemma_power_mod_add(a: nat, e1: nat, e2: nat, n: nat)
    requires
        n > 0,
    ensures
        power_mod(a, e1 + e2, n) == (power_mod(a, e1, n) * power_mod(a, e2, n)) % n,
        power_mod(a, e1, n) < n,
{
    reveal(power_mod);
    lemma_power_add(a, e1, e2);
    lemma_mul_mod_noop(power(a, e1) as int, power(a, e2) as int, n as int);
}

/// Where a power is 1, so is that power of it to any exponent.
pub proof fn lemma_power_mod_multiple(a: nat, e: nat, k: nat, n: nat)
    requires
        n > 1,
        power_mod(a, e, n) == 1,
    ensures
        power_mod(a, e * k, n) == 1,
    decreases k,
{
    if k == 0 {
        assert(e * 0 == 0) by (nonlinear_arith);
        reveal(power_mod);
        lemma_small_mod(1, n);
    } else {
        lemma_power_mod_multiple(a, e, (k - 1) as nat, n);
        assert(e * k == e * (k - 1) + e) by (nonlinear_arith);
        lemma_power_mod_add(a, e * ((k - 1) as nat), e, n);
        assert(1 * 1 == 1) by (nonlinear_arith);
        lemma_small_mod(1, n);
    }
}

/// What divides a number is one of two factors of it.
pub proof fn lemma_divides_witness(d: nat, n: nat) -> (c: nat)
    requires
        divides(d, n),
    ensures
        n == d * c,
{
    lemma_fundamental_div_mod(n as int, d as int);
    if n / d < 0 {
        assert(d * (n / d) <= 0) by (nonlinear_arith)
            requires
                d > 0,
                n / d < 0,
        ;
    }
    n / d
}

/// A factor of a number divides it.
pub proof fn lemma_factor_divides(d: nat, c: nat)
    requires
        d > 0,
    ensures
        divides(d, d * c),
        divides(d, c * d),
{
    lemma_mod_multiples_basic(c as int, d as int);
    assert(d * c == c * d) by (nonlinear_arith);
}

/// What divides two numbers divides their sum of multiples.
proof fn lemma_divides_combination(g: nat, a: nat, b: nat, q: nat)
    requires
        divides(g, a),
        divides(g, b),
    ensures
        divides(g, a * q + b),
{
    let c1 = lemma_divides_witness(g, a);
    let c2 = lemma_divides_witness(g, b);
    assert(a * q + b == g * (c1 * q + c2)) by (nonlinear_arith)
        requires
            a == g * c1,
            b == g * c2,
    ;
    lemma_factor_divides(g, c1 * q + c2);
}

/// The greatest common divisor of two numbers, as a sum of multiples of them.
pub proof fn lemma_bezout(a: nat, b: nat) -> (r: (nat, int, int))
    requires
        a > 0 || b > 0,
    ensures
        r.0 > 0,
        divides(r.0, a),
        divides(r.0, b),
        r.0 == r.1 * a + r.2 * b,
    decreases b,
{
    if b == 0 {
        lemma_mod_multiples_basic(1, a as int);
        assert(1 * a + 0 * b == a) by (nonlinear_arith)
            requires
                b == 0,
        ;
        (a, 1, 0)
    } else {
        let q = a / b;
        let rem = a % b;
        let (g, x, y) = lemma_bezout(b, rem);
        lemma_fundamental_div_mod(a as int, b as int);
        lemma_divides_combination(g, b, rem, q);
        assert(x * b + y * rem == y * a + (x - y * q) * b) by (nonlinear_arith)
            requires
                a == b * q + rem,
        ;
        (g, y, x - y * q)
    }
}

/// A prime that divides a product, and not one factor, divides the other;
/// here for what divides a multiple of a prime and is not a multiple of it.
pub proof fn lemma_gauss(t: nat, q: nat, m: nat)
    requires
        is_prime(q),
        divides(t, q * m),
        !divides(q, t),
    ensures
        divides(t, m),
{
    let (g, x, y) = lemma_bezout(t, q);
    if g > q {
        lemma_small_mod(q, g);
    }
    assert(g == 1);
    let c = lemma_divides_witness(t, q * m);
    let k = x * m + y * c;
    assert(m == k * t) by (nonlinear_arith)
        requires
            1 == x * t + y * q,
            q * m == t * c,
            k == x * m + y * c,
    ;
    lemma_mod_multiples_basic(k, t as int);
}

/// What divides a product of primes, and is not 1, is divided by one of them.
pub proof fn lemma_prime_factor(t: nat, factors: Seq<nat>) -> (i: int)
    requires
        t > 1,
        divides(t, product(factors)),
        forall|j: int| 0 <= j < factors.len() ==> is_prime(#[trigger] factors[j]),
    ensures
        0 <= i < factors.len(),
        divides(factors[i], t),
    decreases factors.len(),
{
    if factors.len() == 0 {
        lemma_small_mod(1, t);
        0
    } else {
        let q = factors.last();
        let rest = factors.drop_last();
        if divides(q, t) {
            factors.len() - 1
        } else {
            assert(product(factors) == q * product(rest)) by (nonlinear_arith)
                requires
                    product(factors) == product(rest) * q,
            ;
            lemma_gauss(t, q, product(rest));
            assert forall|j: int| 0 <= j < rest.len() implies is_prime(#[trigger] rest[j]) by {
                assert(rest[j] == factors[j]);
            }
            lemma_prime_factor(t, rest)
        }
    }
}

/// Where two powers of `a` are 1, so is the power to the greatest common
/// divisor of their exponents.
proof fn lemma_power_of_gcd(a: nat, d: nat, m: nat, n: nat, g: nat, x: int, y: int)
    requires
        n > 1,
        d > 0,
        m > 0,
        power_mod(a, d, n) == 1,
        power_mod(a, m, n) == 1,
        g > 0,
        g == x * d + y * m,
    ensures
        power_mod(a, g, n) == 1,
{
    lemma_small_mod(1, n);
    assert(1 * 1 == 1) by (nonlinear_arith);
    if x >= 0 && y >= 0 {
        lemma_power_mod_multiple(a, d, x as nat, n);
        lemma_power_mod_multiple(a, m, y as nat, n);
        assert(d * (x as nat) == x * d && m * (y as nat) == y * m) by (nonlinear_arith)
            requires
                x >= 0,
                y >= 0,
        ;
        lemma_power_mod_add(a, d * (x as nat), m * (y as nat), n);
    } else if y < 0 {
        if x <= 0 {
            assert(x * d + y * m <= 0) by (nonlinear_arith)
                requires
                    x <= 0,
                    y < 0,
                    d > 0,
                    m > 0,
            ;
        }
        let u = x as nat;
        let v = (-y) as nat;
        lemma_power_mod_multiple(a, d, u, n);
        lemma_power_mod_multiple(a, m, v, n);
        assert(d * u == g + m * v) by (nonlinear_arith)
            requires
                g == x * d + y * m,
                u == x,
                v == -y,
        ;
        lemma_power_mod_add(a, g, m * v, n);
        let w = power_mod(a, g, n);
        assert(w * 1 == w) by (nonlinear_arith);
        lemma_small_mod(w, n);
    } else {
        if y <= 0 {
            assert(x * d + y * m <= 0) by (nonlinear_arith)
                requires
                    x < 0,
                    y <= 0,
                    d > 0,
                    m > 0,
            ;
        }
        let u = (-x) as nat;
        let v = y as nat;
        lemma_power_mod_multiple(a, d, u, n);
        lemma_power_mod_multiple(a, m, v, n);
        assert(m * v == g + d * u) by (nonlinear_arith)
            requires
                g == x * d + y * m,
                u == -x,
                v == y,
        ;
        lemma_power_mod_add(a, g, d * u, n);
        let w = power_mod(a, g, n);
        assert(w * 1 == w) by (nonlinear_arith);
        lemma_small_mod(w, n);
    }
}

/// Whether the numbers in `factors` are the prime factors of n − 1, and `a`
/// to the n − 1 is 1 modulo `n` while `a` to (n − 1) / q is not, for each of them.
pub open spec fn is_certificate(n: nat, a: nat, factors: Seq<nat>) -> bool {
    &&& n > 2
    &&& product(factors) == n - 1
    &&& forall|j: int| 0 <= j < factors.len() ==> is_prime(#[trigger] factors[j])
    &&& power_mod(a, (n - 1) as nat, n) == 1
    &&& forall|j: int|
        0 <= j < factors.len() ==> power_mod(a, ((n - 1) / (#[trigger] factors[j]) as int) as nat, n)
            != 1
}

/// With a certificate, no exponent between 0 and n − 1 takes `a` to 1.
pub proof fn lemma_order(n: nat, a: nat, factors: Seq<nat>, d: nat)
    requires
        is_certificate(n, a, factors),
        0 < d < n - 1,
    ensures
        power_mod(a, d, n) != 1,
{
    if power_mod(a, d, n) == 1 {
        let m = (n - 1) as nat;
        let (g, x, y) = lemma_bezout(d, m);
        lemma_power_of_gcd(a, d, m, n, g, x, y);
        if g > d {
            lemma_small_mod(d, g);
        }
        let t = lemma_divides_witness(g, m);
        if t <= 1 {
            assert(g * t <= g) by (nonlinear_arith)
                requires
                    t <= 1,
            ;
        }
        lemma_factor_divides(t, g);
        let i = lemma_prime_factor(t, factors);
        let q = factors[i];
        let t2 = lemma_divides_witness(q, t);
        assert(m == (g * t2) * q + 0) by (nonlinear_arith)
            requires
                m == g * t,
                t == q * t2,
        ;
        lemma_fundamental_div_mod_converse(m as int, q as int, (g * t2) as int, 0);
        lemma_power_mod_multiple(a, g, t2, n);
    }
}

/// Where `a` to the `m` is 1, each smaller power of `a` has the power that
/// completes it to `m` as its inverse.
proof fn lemma_power_inverse(a: nat, i: nat, m: nat, n: nat)
    requires
        n > 1,
        i <= m,
        power_mod(a, m, n) == 1,
    ensures
        0 < power_mod(a, i, n) < n,
        is_inverse_of(power_mod(a, (m - i) as nat, n), power_mod(a, i, n), n),
{
    let rest = (m - i) as nat;
    lemma_power_mod_add(a, rest, i, n);
    lemma_power_mod_add(a, i, rest, n);
    assert(rest + i == m);
    if power_mod(a, i, n) == 0 {
        assert(power_mod(a, rest, n) * 0 == 0) by (nonlinear_arith);
        lemma_small_mod(0, n);
    }
}

/// Where `a` to the n − 1 is 1 and no smaller power of `a` is, the powers of
/// `a` are all the residues but zero, and each of them has an inverse.
pub proof fn lemma_generator(n: nat, a: nat)
    requires
        n > 2,
        power_mod(a, (n - 1) as nat, n) == 1,
        forall|d: nat| 0 < d < n - 1 ==> #[trigger] power_mod(a, d, n) != 1,
    ensures
        generates(a, n),
        all_invertible(n),
{
    let m = (n - 1) as nat;
    let f = |i: int| power_mod(a, i as nat, n) as int;
    let from = set_int_range(0, m as int);
    let to = set_int_range(1, n as int);
    // Each power has the power that completes it to n − 1 as its inverse.
    assert forall|i: int| 0 <= i < m implies 0 < #[trigger] f(i) < n by {
        lemma_power_inverse(a, i as nat, m, n);
    }
    // No two powers below n − 1 are the same.
    assert forall|i: int, j: int|
        from.contains(i) && from.contains(j) && #[trigger] f(i) == #[trigger] f(j) implies i
        == j by {
        if i != j {
            let (lo, hi) = if i < j {
                (i, j)
            } else {
                (j, i)
            };
            let rest = (m - lo) as nat;
            let gap = (hi - lo) as nat;
            lemma_power_mod_add(a, hi as nat, rest, n);
            lemma_power_mod_add(a, lo as nat, rest, n);
            lemma_power_mod_add(a, m, gap, n);
            assert(hi as nat + rest == m + gap);
            let w = power_mod(a, gap, n);
            lemma_power_mod_add(a, gap, 0, n);
            assert(1 * w == w) by (nonlinear_arith);
            lemma_small_mod(w, n);
            assert(w == 1);
        }
    }
    assert(injective_on(f, from));
    let image = from.map(f);
    lemma_int_range(0, m as int);
    lemma_int_range(1, n as int);
    lemma_map_size(from, image, f);
    assert(image.subset_of(to)) by {
        assert forall|v: int| image.contains(v) implies to.contains(v) by {
            let i = choose|i: int| from.contains(i) && v == f(i);
            assert(0 < f(i) < n);
        }
    }
    lemma_subset_equality(image, to);
    assert forall|k: nat| 0 < k < n implies #[trigger] is_power_of(k, a, n) && has_inverse(
        k,
        n,
    ) by {
        assert(to.contains(k as int));
        assert(image.contains(k as int));
        let i = choose|i: int| from.contains(i) && k as int == f(i);
        lemma_power_inverse(a, i as nat, m, n);
        assert(is_exponent_of(i as nat, a, k, n));
        assert(is_inverse_of(power_mod(a, (m - i) as nat, n), k, n));
    }
    assert forall|k: nat| 0 < k < n implies #[trigger] has_inverse(k, n) by {
        assert(is_power_of(k, a, n) && has_inverse(k, n));
    }
}

/// Where every residue but zero has an inverse, the modulus is prime.
pub proof fn lemma_invertible_is_prime(n: nat)
    requires
        n >= 2,
        all_invertible(n),
    ensures
        is_prime(n),
{
    assert forall|d: nat| 1 < d < n implies !divides(d, n) by {
        if divides(d, n) {
            let c = lemma_divides_witness(d, n);
            assert(has_inverse(d, n));
            let r = choose|r: nat| is_inverse_of(r, d, n);
            if c == 0 {
                assert(d * 0 == 0) by (nonlinear_arith);
            }
            if c >= n {
                assert(d * c >= 2 * n) by (nonlinear_arith)
                    requires
                        d >= 2,
                        c >= n,
                ;
            }
            // c = c·(r·d) = r·(d·c) = r·n, which is 0 modulo n
            lemma_mul_mod_noop(c as int, (r * d) as int, n as int);
            lemma_small_mod(c, n);
            lemma_small_mod(1, n);
            assert(c * 1 == c) by (nonlinear_arith);
            assert(c * (r * d) == r * n) by (nonlinear_arith)
                requires
                    n == d * c,
            ;
            lemma_mod_multiples_basic(r as int, n as int);
        }
    }
}

/// A number with a certificate is prime: each residue but zero is a power of
/// the certificate's base, and has an inverse.
pub proof fn lemma_certified_prime(n: nat, a: nat, factors: Seq<nat>)
    requires
        is_certificate(n, a, factors),
    ensures
        is_prime(n),
        all_invertible(n),
        generates(a, n),
        power_mod(a, (n - 1) as nat, n) == 1,
{
    assert forall|d: nat| 0 < d < n - 1 implies #[trigger] power_mod(a, d, n) != 1 by {
        lemma_order(n, a, factors, d);
    }
    lemma_generator(n, a);
    lemma_invertible_is_prime(n);
}

/// The first power of a reduced number is the number.
pub proof fn lemma_power_mod_first(a: nat, n: nat)
    requires
        a < n,
    ensures
        power_mod(a, 1, n) == a,
{
    reveal(power_mod);
    lemma_power_one(a);
    lemma_small_mod(a, n);
}

/// From a power to the power with twice the exponent: its square, which is
/// `y` where it is `y` above a multiple of `n`.
pub proof fn lemma_power_mod_square(a: nat, e: nat, n: nat, x: nat, q: nat, y: nat)
    requires
        n > 0,
        power_mod(a, e, n) == x,
        x * x == q * n + y,
        y < n,
    ensures
        power_mod(a, 2 * e, n) == y,
{
    lemma_power_mod_add(a, e, e, n);
    lemma_fundamental_div_mod_converse((x * x) as int, n as int, q as int, y as int);
}

/// From a power to the power with twice the exponent and one: its square
/// times the base.
pub proof fn lemma_power_mod_square_times(a: nat, e: nat, n: nat, x: nat, q: nat, y: nat)
    requires
        n > 0,
        power_mod(a, e, n) == x,
        x * x * a == q * n + y,
        y < n,
    ensures
        power_mod(a, 2 * e + 1, n) == y,
{
    reveal(power_mod);
    lemma_power_add(a, e, e);
    lemma_power_add(a, 2 * e, 1);
    lemma_power_one(a);
    let p = power(a, e);
    lemma_mul_mod_noop(p as int, p as int, n as int);
    lemma_mul_mod_noop((p * p) as int, a as int, n as int);
    lemma_mul_mod_noop((x * x) as int, a as int, n as int);
    lemma_fundamental_div_mod_converse((x * x * a) as int, n as int, q as int, y as int);
}

/// The product of a sequence with one more number at its end.
pub proof fn lemma_product_push(s: Seq<nat>, q: nat, p: nat)
    requires
        product(s) == p,
    ensures
        product(s.push(q)) == p * q,
        product(Seq::<nat>::empty()) == 1,
{
    assert(s.push(q).drop_last() =~= s);
}

/// 2, 3, 5 and 7 are prime.
pub proof fn lemma_small_primes()
    ensures
        is_prime(2),
        is_prime(3),
        is_prime(5),
        is_prime(7),
{
    assert forall|d: nat| 1 < d < 3 implies !divides(d, 3) by {
        assert(d == 2);
    }
    assert forall|d: nat| 1 < d < 5 implies !divides(d, 5) by {
        assert(d == 2 || d == 3 || d == 4);
    }
    assert forall|d: nat| 1 < d < 7 implies !divides(d, 7) by {
        assert(d == 2 || d == 3 || d == 4 || d == 5 || d == 6);
    }
}

} // verus!
