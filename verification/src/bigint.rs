//! Arbitrary-precision arithmetic, done outside this library.
//!
//! Numbers cross this boundary as big-endian byte strings. What `dashu` hands
//! back is the shortest big-endian encoding of the result: `to_be_bytes`
//! drops every leading zero byte and gives no byte at all for zero. The
//! exponentiation of `solana_program` gives as many bytes as its modulus has.
//! Nothing in this module is proved: each contract restates what the outside
//! function documents.

use crate::bytes::{be_value, is_minimal};
use dashu::integer::UBig;
use dashu::integer::fast_div::ConstDivisor;
use vstd::prelude::*;

verus! {

/// `base` to the power `exp`.
pub open spec fn power(base: nat, exp: nat) -> nat
    decreases exp,
{
    if exp == 0 {
        1
    } else {
        base * power(base, (exp - 1) as nat)
    }
}

/// Whether `x` is the inverse of `a` modulo `m`, reduced.
pub open spec fn is_inverse_of(x: nat, a: nat, m: nat) -> bool {
    x < m && (x * a) % m == 1
}

/// `UBig`'s `+`: the sum of two numbers.
#[verifier::external_body]
pub(crate) fn big_add(a: &[u8], b: &[u8]) -> (r: Vec<u8>)
    ensures
        is_minimal(r@),
        be_value(r@) == be_value(a@) + be_value(b@),
{
    (UBig::from_be_bytes(a) + UBig::from_be_bytes(b)).to_be_bytes().into_vec()
}

/// `UBig`'s `-`, which panics on a negative difference: `a` is at least `b`.
#[verifier::external_body]
pub(crate) fn big_sub(a: &[u8], b: &[u8]) -> (r: Vec<u8>)
    requires
        be_value(a@) >= be_value(b@),
    ensures
        is_minimal(r@),
        be_value(r@) == be_value(a@) - be_value(b@),
{
    (UBig::from_be_bytes(a) - UBig::from_be_bytes(b)).to_be_bytes().into_vec()
}

/// `UBig`'s `*`: the product of two numbers.
#[verifier::external_body]
pub(crate) fn big_mul(a: &[u8], b: &[u8]) -> (r: Vec<u8>)
    ensures
        is_minimal(r@),
        be_value(r@) == be_value(a@) * be_value(b@),
{
    (UBig::from_be_bytes(a) * UBig::from_be_bytes(b)).to_be_bytes().into_vec()
}

/// `UBig`'s `%`, which panics on a zero divisor: the remainder of `a` by `m`.
#[verifier::external_body]
pub(crate) fn big_rem(a: &[u8], m: &[u8]) -> (r: Vec<u8>)
    requires
        be_value(m@) > 0,
    ensures
        is_minimal(r@),
        be_value(r@) == be_value(a@) % be_value(m@),
{
    (UBig::from_be_bytes(a) % UBig::from_be_bytes(m)).to_be_bytes().into_vec()
}

/// `Reduced::pow` in the ring of `ConstDivisor::new(m)`: `base` to the power
/// `exp`, reduced modulo `m`.
#[verifier::external_body]
pub(crate) fn big_pow_mod(base: &[u8], exp: &[u8; 32], m: &[u8; 32]) -> (r: Vec<u8>)
    requires
        be_value(m@) > 1,
    ensures
        is_minimal(r@),
        be_value(r@) == power(be_value(base@), be_value(exp@)) % be_value(m@),
{
    let ring = ConstDivisor::new(UBig::from_be_bytes(m));
    let x = ring.reduce(UBig::from_be_bytes(base));
    x.pow(&UBig::from_be_bytes(exp)).residue().to_be_bytes().into_vec()
}

/// `Reduced::inv` in the ring of `ConstDivisor::new(m)`: the inverse of `a`
/// modulo `m`, reduced, or `None` where `a` has none.
#[verifier::external_body]
pub(crate) fn big_inv_mod(a: &[u8], m: &[u8]) -> (r: Option<Vec<u8>>)
    requires
        be_value(m@) > 1,
    ensures
        match r {
            Some(v) => is_minimal(v@) && is_inverse_of(be_value(v@), be_value(a@), be_value(m@)),
            None => forall|x: nat| !is_inverse_of(x, be_value(a@), be_value(m@)),
        },
{
    let ring = ConstDivisor::new(UBig::from_be_bytes(m));
    match ring.reduce(UBig::from_be_bytes(a)).inv() {
        Some(v) => Some(v.residue().to_be_bytes().into_vec()),
        None => None,
    }
}

/// `big_mod_exp` of `solana_program`: `base` to the power `exponent`, reduced
/// modulo `modulus`, in as many bytes as `modulus` has; zero where the
/// modulus is zero.
#[verifier::external_body]
pub(crate) fn mod_exp(base: &[u8], exponent: &[u8], modulus: &[u8]) -> (r: Vec<u8>)
    ensures
        r@.len() == modulus@.len(),
        be_value(r@) == if be_value(modulus@) == 0 {
            0
        } else {
            power(be_value(base@), be_value(exponent@)) % be_value(modulus@)
        },
{
    solana_program::big_mod_exp::big_mod_exp(base, exponent, modulus)
}

} // verus!
