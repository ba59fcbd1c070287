//! The curve's constants and arithmetic modulo its two primes.
//!
//! A scalar is 32 bytes, most significant first. Whether it is read modulo the
//! group order or modulo the field prime is decided by the operation, never by
//! the value: each function's name ends in the modulus it works in.

use crate::bigint::{big_add, big_inv_mod, big_mul, big_rem, big_sub, is_inverse_of};
use crate::bytes::{be_value, lemma_be_value_bound, lemma_radix_pow_32, two_256, widen32};
use crate::errors::Secp256k1Error;
use crate::residues::{lemma_element_has_inverse, lemma_scalar_has_inverse};
use vstd::arithmetic::div_mod::{lemma_fundamental_div_mod, lemma_mod_multiples_basic};
use vstd::prelude::*;

verus! {

/// The order of the group that the generator spans.
pub open spec fn order() -> nat {
    0xffffffff_ffffffff_ffffffff_fffffffe_baaedce6_af48a03b_bfd25e8c_d0364141nat
}

/// The prime of the field that coordinates live in.
pub open spec fn field_prime() -> nat {
    0xffffffff_ffffffff_ffffffff_ffffffff_ffffffff_ffffffff_fffffffe_fffffc2fnat
}

/// The X coordinate of the generator.
pub open spec fn generator_x() -> nat {
    0x79be667e_f9dcbbac_55a06295_ce870b07_029bfcdb_2dce28d9_59f2815b_16f81798nat
}

/// The Y coordinate of the generator.
pub open spec fn generator_y() -> nat {
    0x483ada77_26a3c465_5da4fbfc_0e1108a8_fd17b448_a6855419_9c47d08f_fb10d4b8nat
}

/// The namespace of the curve's constants and scalar operations.
pub struct Curve;

impl Curve {
    /// The group order N.
    pub const N: [u8; 32] = [
        0xff, 0xff, 0xff, 0xff, 0xff, 0xff, 0xff, 0xff, 0xff, 0xff, 0xff, 0xff, 0xff, 0xff, 0xff,
        0xfe, 0xba, 0xae, 0xdc, 0xe6, 0xaf, 0x48, 0xa0, 0x3b, 0xbf, 0xd2, 0x5e, 0x8c, 0xd0, 0x36,
        0x41, 0x41,
    ];

    /// N - 2, the exponent that inverts modulo N.
    pub const N_SUB_2: [u8; 32] = [
        0xff, 0xff, 0xff, 0xff, 0xff, 0xff, 0xff, 0xff, 0xff, 0xff, 0xff, 0xff, 0xff, 0xff, 0xff,
        0xfe, 0xba, 0xae, 0xdc, 0xe6, 0xaf, 0x48, 0xa0, 0x3b, 0xbf, 0xd2, 0x5e, 0x8c, 0xd0, 0x36,
        0x41, 0x3f,
    ];

    /// N / 2, the bound between low and high signature scalars.
    pub const N_DIV_2: [u8; 32] = [
        0x7f, 0xff, 0xff, 0xff, 0xff, 0xff, 0xff, 0xff, 0xff, 0xff, 0xff, 0xff, 0xff, 0xff, 0xff,
        0xff, 0x5d, 0x57, 0x6e, 0x73, 0x57, 0xa4, 0x50, 0x1d, 0xdf, 0xe9, 0x2f, 0x46, 0x68, 0x1b,
        0x20, 0xa0,
    ];

    /// The field prime P.
    pub const P: [u8; 32] = [
        0xff, 0xff, 0xff, 0xff, 0xff, 0xff, 0xff, 0xff, 0xff, 0xff, 0xff, 0xff, 0xff, 0xff, 0xff,
        0xff, 0xff, 0xff, 0xff, 0xff, 0xff, 0xff, 0xff, 0xff, 0xff, 0xff, 0xff, 0xfe, 0xff, 0xff,
        0xfc, 0x2f,
    ];

    /// P - 2, the exponent that inverts modulo P.
    pub const P_SUB_2: [u8; 32] = [
        0xff, 0xff, 0xff, 0xff, 0xff, 0xff, 0xff, 0xff, 0xff, 0xff, 0xff, 0xff, 0xff, 0xff, 0xff,
        0xff, 0xff, 0xff, 0xff, 0xff, 0xff, 0xff, 0xff, 0xff, 0xff, 0xff, 0xff, 0xfe, 0xff, 0xff,
        0xfc, 0x2d,
    ];

    /// (P + 1) / 4, the exponent that takes square roots modulo P.
    pub const P_1_4: [u8; 32] = [
        0x3f, 0xff, 0xff, 0xff, 0xff, 0xff, 0xff, 0xff, 0xff, 0xff, 0xff, 0xff, 0xff, 0xff, 0xff,
        0xff, 0xff, 0xff, 0xff, 0xff, 0xff, 0xff, 0xff, 0xff, 0xff, 0xff, 0xff, 0xff, 0xbf, 0xff,
        0xff, 0x0c,
    ];
}

/// The byte constants hold the numbers they are named after.
pub proof fn lemma_constant_values()
    ensures
        be_value(Curve::N@) == order(),
        be_value(Curve::N_SUB_2@) == order() - 2,
        be_value(Curve::N_DIV_2@) == order() / 2,
        be_value(Curve::P@) == field_prime(),
        be_value(Curve::P_SUB_2@) == field_prime() - 2,
        be_value(Curve::P_1_4@) == (field_prime() + 1) / 4,
        (field_prime() + 1) % 4 == 0,
{
    reveal_with_fuel(be_value, 34);
    assert(be_value(Curve::N@) == order());
    assert(be_value(Curve::N_SUB_2@) == order() - 2);
    assert(be_value(Curve::N_DIV_2@) == order() / 2);
    assert(be_value(Curve::P@) == field_prime());
    assert(be_value(Curve::P_SUB_2@) == field_prime() - 2);
    assert(be_value(Curve::P_1_4@) == (field_prime() + 1) / 4);
}

/// The remainder of `x` by `m`, in 32 bytes.
pub(crate) fn reduce32(x: &[u8], m: &[u8; 32]) -> (r: [u8; 32])
    requires
        be_value(m@) > 0,
    ensures
        be_value(r@) == be_value(x@) % be_value(m@),
{
    let rem = big_rem(x, m.as_slice());
    proof {
        lemma_be_value_bound(m@);
        lemma_radix_pow_32();
    }
    widen32(rem.as_slice())
}

impl Curve {
    /// The sum of two scalars modulo the group order.
    pub fn add_mod_n(a: &[u8; 32], b: &[u8; 32]) -> (r: [u8; 32])
        ensures
            be_value(r@) == (be_value(a@) + be_value(b@)) % order(),
    {
        proof {
            lemma_constant_values();
        }
        let sum = big_add(a.as_slice(), b.as_slice());
        reduce32(sum.as_slice(), &Self::N)
    }

    /// The product of two scalars modulo the group order.
    pub fn mul_mod_n(a: &[u8; 32], b: &[u8; 32]) -> (r: [u8; 32])
        ensures
            be_value(r@) == (be_value(a@) * be_value(b@)) % order(),
    {
        proof {
            lemma_constant_values();
        }
        let product = big_mul(a.as_slice(), b.as_slice());
        reduce32(product.as_slice(), &Self::N)
    }

    /// The sum of two field elements modulo the field prime.
    pub fn add_mod_p(a: &[u8; 32], b: &[u8; 32]) -> (r: [u8; 32])
        ensures
            be_value(r@) == (be_value(a@) + be_value(b@)) % field_prime(),
    {
        proof {
            lemma_constant_values();
        }
        let sum = big_add(a.as_slice(), b.as_slice());
        reduce32(sum.as_slice(), &Self::P)
    }

    /// The product of two field elements modulo the field prime.
    pub fn mul_mod_p(a: &[u8; 32], b: &[u8; 32]) -> (r: [u8; 32])
        ensures
            be_value(r@) == (be_value(a@) * be_value(b@)) % field_prime(),
    {
        proof {
            lemma_constant_values();
        }
        let product = big_mul(a.as_slice(), b.as_slice());
        reduce32(product.as_slice(), &Self::P)
    }
}

/// The negation of `k` modulo the group order: (2N - k) mod N.
pub open spec fn negated_mod_n(k: nat) -> nat {
    ((2 * order() - k) % (order() as int)) as nat
}

/// The negation of `k` modulo the field prime: (2P - k) mod P.
pub open spec fn negated_mod_p(k: nat) -> nat {
    ((2 * field_prime() - k) % (field_prime() as int)) as nat
}

/// (2m - k) mod m in 32 bytes, for a modulus above 2 to the 255.
fn negate32(k: &[u8; 32], m: &[u8; 32]) -> (r: [u8; 32])
    requires
        2 * be_value(m@) >= two_256(),
    ensures
        be_value(r@) == (2 * be_value(m@) - be_value(k@)) % (be_value(m@) as int),
{
    proof {
        lemma_be_value_bound(k@);
        lemma_radix_pow_32();
    }
    let twice = big_add(m.as_slice(), m.as_slice());
    let diff = big_sub(twice.as_slice(), k.as_slice());
    reduce32(diff.as_slice(), m)
}

/// A multiple of `m` has no inverse modulo `m`.
proof fn lemma_multiple_has_no_inverse(x: nat, a: nat, m: nat)
    requires
        m > 1,
        a % m == 0,
    ensures
        !is_inverse_of(x, a, m),
{
    let q = a / m;
    lemma_fundamental_div_mod(a as int, m as int);
    assert(x * a == (x * q) * m) by (nonlinear_arith)
        requires
            a == m * q,
    ;
    lemma_mod_multiples_basic((x * q) as int, m as int);
}

impl Curve {
    /// The negation of `k` modulo the group order, for every 32-byte `k`.
    pub fn negate_n(k: &[u8; 32]) -> (r: [u8; 32])
        ensures
            be_value(r@) == negated_mod_n(be_value(k@)),
    {
        proof {
            lemma_constant_values();
        }
        negate32(k, &Self::N)
    }

    /// Replaces `k` by its negation modulo the group order.
    pub fn negate_n_assign(k: &mut [u8; 32])
        ensures
            be_value(final(k)@) == negated_mod_n(be_value(old(k)@)),
    {
        let r = Self::negate_n(k);
        *k = r;
    }

    /// The negation of `k` modulo the field prime, for every 32-byte `k`.
    pub fn negate_p(k: &[u8; 32]) -> (r: [u8; 32])
        ensures
            be_value(r@) == negated_mod_p(be_value(k@)),
    {
        proof {
            lemma_constant_values();
        }
        negate32(k, &Self::P)
    }

    /// Replaces `k` by its negation modulo the field prime.
    pub fn negate_p_assign(k: &mut [u8; 32])
        ensures
            be_value(final(k)@) == negated_mod_p(be_value(old(k)@)),
    {
        let r = Self::negate_p(k);
        *k = r;
    }

    /// The inverse of `k` modulo the group order.
    ///
    /// Fails with `ArithmeticOverflow` exactly where `k` is a multiple of the
    /// order: the order is prime, so every other scalar has an inverse.
    pub fn mod_inv_n(k: &[u8]) -> (r: Result<[u8; 32], Secp256k1Error>)
        ensures
            match r {
                Ok(v) => is_inverse_of(be_value(v@), be_value(k@), order()),
                Err(e) => e == Secp256k1Error::ArithmeticOverflow && forall|x: nat|
                    !is_inverse_of(x, be_value(k@), order()),
            },
            r is Err <==> be_value(k@) % order() == 0,
    {
        proof {
            lemma_constant_values();
        }
        let r = inverse32(k, &Self::N);
        proof {
            if be_value(k@) % order() == 0 {
                if let Ok(v) = r {
                    lemma_multiple_has_no_inverse(be_value(v@), be_value(k@), order());
                }
            } else {
                lemma_scalar_has_inverse(be_value(k@));
            }
        }
        r
    }

    /// The inverse of `k` modulo the field prime.
    ///
    /// Fails with `ArithmeticOverflow` exactly where `k` is a multiple of the
    /// prime: every other field element has an inverse.
    pub fn mod_inv_p(k: &[u8]) -> (r: Result<[u8; 32], Secp256k1Error>)
        ensures
            match r {
                Ok(v) => is_inverse_of(be_value(v@), be_value(k@), field_prime()),
                Err(e) => e == Secp256k1Error::ArithmeticOverflow && forall|x: nat|
                    !is_inverse_of(x, be_value(k@), field_prime()),
            },
            r is Err <==> be_value(k@) % field_prime() == 0,
    {
        proof {
            lemma_constant_values();
        }
        let r = inverse32(k, &Self::P);
        proof {
            if be_value(k@) % field_prime() == 0 {
                if let Ok(v) = r {
                    lemma_multiple_has_no_inverse(be_value(v@), be_value(k@), field_prime());
                }
            } else {
                lemma_element_has_inverse(be_value(k@));
            }
        }
        r
    }
}

/// The inverse of `k` modulo `m` in 32 bytes, or `ArithmeticOverflow`.
fn inverse32(k: &[u8], m: &[u8; 32]) -> (r: Result<[u8; 32], Secp256k1Error>)
    requires
        be_value(m@) > 1,
    ensures
        match r {
            Ok(v) => is_inverse_of(be_value(v@), be_value(k@), be_value(m@)),
            Err(e) => e == Secp256k1Error::ArithmeticOverflow && forall|x: nat|
                !is_inverse_of(x, be_value(k@), be_value(m@)),
        },
{
    match big_inv_mod(k, m.as_slice()) {
        Some(v) => {
            proof {
                lemma_be_value_bound(m@);
                lemma_radix_pow_32();
            }
            Ok(widen32(v.as_slice()))
        },
        None => Err(Secp256k1Error::ArithmeticOverflow),
    }
}

/// Negating twice modulo the group order gives back every reduced scalar.
pub proof fn lemma_negate_n_involution(k: nat)
    requires
        k < order(),
    ensures
        negated_mod_n(negated_mod_n(k)) == k,
        negated_mod_n(k) < order(),
{
}

/// Negating twice modulo the field prime gives back every reduced element.
pub proof fn lemma_negate_p_involution(k: nat)
    requires
        k < field_prime(),
    ensures
        negated_mod_p(negated_mod_p(k)) == k,
        negated_mod_p(k) < field_prime(),
{
}

} // verus!
