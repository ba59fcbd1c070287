//! Scalar multiplication and tweaking, obtained from recovery.
//!
//! With the digest zero, recovery gives (s / r) · R. Choosing r as the X
//! coordinate of a point and s as k · r makes that k times the point. With the
//! signature X ‖ X it gives R − (z / r) · G, and the digest z = −r · t makes
//! that the point plus t times the generator.

use crate::bytes::{be_value, join64, lemma_be_encode_of_value, zeros};
use crate::curve::{generator_x, generator_y, order, Curve};
use crate::errors::Secp256k1Error;
use crate::fast_mod::{lemma_value_of_limbs, limb_value};
use crate::recovery::{
    is_recovery_outcome, multiple_signature, recover_point, signature_s, tweak_digest,
};
use crate::traits::Secp256k1Point;
use crate::uncompressed_point::UncompressedPoint;
use vstd::prelude::*;

verus! {

impl Curve {
    /// The bytes X ‖ Y of the generator G.
    pub const G: [u8; 64] = [
        0x79, 0xbe, 0x66, 0x7e, 0xf9, 0xdc, 0xbb, 0xac, 0x55, 0xa0, 0x62, 0x95, 0xce, 0x87, 0x0b,
        0x07, 0x02, 0x9b, 0xfc, 0xdb, 0x2d, 0xce, 0x28, 0xd9, 0x59, 0xf2, 0x81, 0x5b, 0x16, 0xf8,
        0x17, 0x98, 0x48, 0x3a, 0xda, 0x77, 0x26, 0xa3, 0xc4, 0x65, 0x5d, 0xa4, 0xfb, 0xfc, 0x0e,
        0x11, 0x08, 0xa8, 0xfd, 0x17, 0xb4, 0x48, 0xa6, 0x85, 0x54, 0x19, 0x9c, 0x47, 0xd0, 0x8f,
        0xfb, 0x10, 0xd4, 0xb8,
    ];

    /// The generator G as a point.
    pub fn generator() -> (r: UncompressedPoint)
        ensures
            r == generator_point(),
    {
        UncompressedPoint(Self::G)
    }

    /// The signature handed to recovery to multiply the point at `x` by `k`.
    pub fn multiple_signature(x: &[u8; 32], k: &[u8; 32]) -> (r: [u8; 64])
        ensures
            r@ == multiple_signature(x@, k@),
            signature_s(r@) == (be_value(x@) * be_value(k@)) % order(),
    {
        let s = Self::mul_mod_n(x, k);
        let r = join64(x, &s);
        proof {
            lemma_be_encode_of_value(s@);
            assert(r@.subrange(32, 64) =~= s@);
        }
        r
    }

    /// The digest handed to recovery to add `t` times the generator to the
    /// point at `x`.
    pub fn tweak_digest(x: &[u8; 32], t: &[u8; 32]) -> (r: [u8; 32])
        ensures
            r@ == tweak_digest(x@, t@),
    {
        let negated = Self::negate_n(x);
        let r = Self::mul_mod_n(&negated, t);
        proof {
            lemma_be_encode_of_value(r@);
        }
        r
    }

    /// `k` times `point`: what recovery gives for the digest zero, the parity
    /// of `point` and the signature X ‖ (X · k mod N).
    ///
    /// Where X · k is a multiple of the group order, as for `k` zero, there is
    /// no such point, and the result is `InvalidPublicKey`; so it is where X
    /// is zero or not below the group order, which no signature can hold.
    pub fn ecmul<T: Secp256k1Point>(point: &T, k: &[u8; 32]) -> (r: Result<
        UncompressedPoint,
        Secp256k1Error,
    >)
        ensures
            is_recovery_outcome(
                zeros(32),
                point.has_odd_y(),
                multiple_signature(point.x_bytes(), k@),
                r,
            ),
            (be_value(point.x_bytes()) * be_value(k@)) % order() == 0 ==> r == Err::<
                UncompressedPoint,
                Secp256k1Error,
            >(Secp256k1Error::InvalidPublicKey),
            !(0 < be_value(point.x_bytes()) < order()) ==> r == Err::<
                UncompressedPoint,
                Secp256k1Error,
            >(Secp256k1Error::InvalidPublicKey),
    {
        let x = point.x();
        let signature = Self::multiple_signature(&x, k);
        let digest = [0u8; 32];
        proof {
            assert(digest@ =~= zeros(32));
            assert(signature@.subrange(0, 32) =~= x@);
        }
        recover_point(&digest, point.is_odd(), &signature)
    }

    /// `k` times the generator: what recovery gives for the digest zero, even
    /// parity and the signature G.X ‖ (G.X · k mod N).
    pub fn mul_g(k: &[u8; 32]) -> (r: Result<UncompressedPoint, Secp256k1Error>)
        ensures
            is_recovery_outcome(
                zeros(32),
                false,
                multiple_signature(Curve::G@.subrange(0, 32), k@),
                r,
            ),
            (generator_x() * be_value(k@)) % order() == 0 ==> r == Err::<
                UncompressedPoint,
                Secp256k1Error,
            >(Secp256k1Error::InvalidPublicKey),
    {
        proof {
            lemma_generator_values();
        }
        let g = Self::generator();
        Self::ecmul(&g, k)
    }
}

/// The generator G as a point.
pub open spec fn generator_point() -> UncompressedPoint {
    UncompressedPoint(Curve::G)
}

/// The first half of the generator's bytes holds its X coordinate.
proof fn lemma_generator_x()
    ensures
        be_value(Curve::G@.subrange(0, 32)) == generator_x(),
{
    let x = Curve::G@.subrange(0, 32);
    lemma_value_of_limbs(x);
    assert(limb_value(x, 0) == 0x79be667e_f9dcbbac) by {
        reveal_with_fuel(be_value, 9);
    }
    assert(limb_value(x, 1) == 0x55a06295_ce870b07) by {
        reveal_with_fuel(be_value, 9);
    }
    assert(limb_value(x, 2) == 0x029bfcdb_2dce28d9) by {
        reveal_with_fuel(be_value, 9);
    }
    assert(limb_value(x, 3) == 0x59f2815b_16f81798) by {
        reveal_with_fuel(be_value, 9);
    }
}

/// The second half of the generator's bytes holds its Y coordinate.
proof fn lemma_generator_y()
    ensures
        be_value(Curve::G@.subrange(32, 64)) == generator_y(),
{
    let y = Curve::G@.subrange(32, 64);
    lemma_value_of_limbs(y);
    assert(limb_value(y, 0) == 0x483ada77_26a3c465) by {
        reveal_with_fuel(be_value, 9);
    }
    assert(limb_value(y, 1) == 0x5da4fbfc_0e1108a8) by {
        reveal_with_fuel(be_value, 9);
    }
    assert(limb_value(y, 2) == 0xfd17b448_a6855419) by {
        reveal_with_fuel(be_value, 9);
    }
    assert(limb_value(y, 3) == 0x9c47d08f_fb10d4b8) by {
        reveal_with_fuel(be_value, 9);
    }
}

/// The generator's bytes hold its coordinates, and its Y coordinate is even.
pub proof fn lemma_generator_values()
    ensures
        be_value(generator_point().x_bytes()) == generator_x(),
        generator_point().y_value() == generator_y(),
        !generator_point().has_odd_y(),
        generator_point().has_even_y(),
{
    lemma_generator_x();
    lemma_generator_y();
}

} // verus!
