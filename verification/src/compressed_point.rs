//! A point as 33 bytes: the parity of Y, then X.

use core::ops::Mul;
use crate::bytes::{be_encode, be_value, copy_range32, zeros};
use crate::curve::Curve;
use crate::errors::Secp256k1Error;
use crate::field::{reflected, sqrt_candidate};
use crate::lift::decompressed_encoding;
use crate::recovery::{
    lemma_recovery_result, multiple_signature, recovered_key, recovery_result, tweak_digest,
};
use crate::traits::Secp256k1Point;
use crate::uncompressed_point::{compressed_encoding, UncompressedPoint};
use vstd::prelude::*;
use vstd::std_specs::convert::{FromSpecImpl, TryFromSpecImpl};
use vstd::std_specs::ops::MulSpecImpl;

verus! {

/// The tag of a compressed point whose Y coordinate is even.
pub const SEC1_OCTET_COMPRESSED_EVEN: u8 = 0x02;

/// The tag of a compressed point whose Y coordinate is odd.
pub const SEC1_OCTET_COMPRESSED_ODD: u8 = 0x03;

/// The compressed point that holds the 33 bytes `bytes`.
pub open spec fn compressed_of(bytes: Seq<u8>) -> CompressedPoint {
    choose|c: CompressedPoint| c.0@ == bytes
}

/// A compressed point is the compressed point of its bytes.
pub proof fn lemma_compressed_of(c: CompressedPoint)
    ensures
        compressed_of(c.0@) == c,
{
    let d = compressed_of(c.0@);
    assert(d.0@ == c.0@);
    assert(d.0 =~= c.0);
}

/// A point as a tag and X: the tag is 2 where Y is even and 3 where it is odd.
#[derive(Debug, PartialEq, Eq, Clone, Copy)]
pub struct CompressedPoint(pub [u8; 33]);

impl CompressedPoint {
    /// The tag byte.
    pub open spec fn tag(&self) -> u8 {
        self.0@[0]
    }

    /// Whether the tag is one of the two that the wire format knows.
    pub open spec fn has_valid_tag(&self) -> bool {
        self.tag() == SEC1_OCTET_COMPRESSED_EVEN || self.tag() == SEC1_OCTET_COMPRESSED_ODD
    }
}

impl Secp256k1Point for CompressedPoint {
    const SIZE: usize = 33;

    open spec fn x_bytes(&self) -> Seq<u8> {
        self.0@.subrange(1, 33)
    }

    open spec fn y_value(&self) -> nat {
        let candidate = sqrt_candidate(be_value(self.x_bytes()));
        if (candidate % 2 == 0) != self.has_even_y() {
            reflected(candidate)
        } else {
            candidate
        }
    }

    open spec fn has_odd_y(&self) -> bool {
        self.0@[0] == SEC1_OCTET_COMPRESSED_ODD
    }

    open spec fn has_even_y(&self) -> bool {
        self.0@[0] == SEC1_OCTET_COMPRESSED_EVEN
    }

    fn is_odd(&self) -> (r: bool) {
        self.0[0] == SEC1_OCTET_COMPRESSED_ODD
    }

    fn is_even(&self) -> (r: bool) {
        self.0[0] == SEC1_OCTET_COMPRESSED_EVEN
    }

    fn x(&self) -> (r: [u8; 32]) {
        copy_range32(self.0.as_slice(), 1)
    }

    fn y(&self) -> (r: [u8; 32]) {
        let x = self.x();
        let mut p = UncompressedPoint::lift_x_unchecked(&x);
        proof {
            crate::bytes::lemma_be_encode_len(sqrt_candidate(be_value(x@)), 32);
            assert(p.0@.subrange(32, 64) =~= be_encode(sqrt_candidate(be_value(x@)), 32));
        }
        if p.is_even() != self.is_even() {
            p.invert();
            proof {
                crate::bytes::lemma_be_encode_len(reflected(sqrt_candidate(be_value(x@))), 32);
                assert(p.0@.subrange(32, 64) =~= be_encode(
                    reflected(sqrt_candidate(be_value(x@))),
                    32,
                ));
                crate::field::lemma_reflected_bound(sqrt_candidate(be_value(x@)));
                crate::bytes::lemma_radix_pow_32();
                crate::bytes::lemma_be_value_of_encode(
                    reflected(sqrt_candidate(be_value(x@))),
                    32,
                );
            }
        }
        p.y()
    }

    fn lift_x_unchecked(x: &[u8; 32]) -> (r: Self)
        ensures
            r.0@ == compressed_encoding(x@ + be_encode(sqrt_candidate(be_value(x@)), 32)),
    {
        let p = UncompressedPoint::lift_x_unchecked(x);
        proof {
            crate::uncompressed_point::lemma_lifted_point(p, x@);
        }
        p.compress()
    }

    fn lift_x(x: &[u8; 32]) -> (r: Result<Self, Secp256k1Error>)
        ensures
            match r {
                Ok(p) => p.0@ == compressed_encoding(
                    x@ + be_encode(sqrt_candidate(be_value(x@)), 32),
                ),
                Err(_) => true,
            },
    {
        match UncompressedPoint::lift_x(x) {
            Ok(p) => {
                proof {
                    crate::uncompressed_point::lemma_lifted_point(p, x@);
                }
                Ok(p.compress())
            },
            Err(e) => Err(e),
        }
    }

    fn invert(&mut self)
        ensures
            final(self).0@ == old(self).0@.update(
                0,
                if old(self).has_even_y() {
                    SEC1_OCTET_COMPRESSED_ODD
                } else {
                    SEC1_OCTET_COMPRESSED_EVEN
                },
            ),
    {
        let tag: u8 = if self.is_even() {
            SEC1_OCTET_COMPRESSED_ODD
        } else {
            SEC1_OCTET_COMPRESSED_EVEN
        };
        let ghost before = self.0@;
        self.0[0] = tag;
        proof {
            assert(self.0@.subrange(1, 33) =~= before.subrange(1, 33));
        }
    }

    fn compress(&self) -> (r: CompressedPoint)
        ensures
            r == *self,
    {
        *self
    }

    fn decompress(&self) -> (r: UncompressedPoint)
        ensures
            r.0@ == decompressed_encoding(self.0@),
    {
        let r = Curve::decompress_unchecked(*self);
        proof {
            assert(r.0@.subrange(0, 32) =~= self.x_bytes());
        }
        r
    }

    fn tweak(&self, tweak: [u8; 32]) -> (r: Result<Self, Secp256k1Error>)
        ensures
            match r {
                Ok(p) => recovered_key(
                    tweak_digest(self.x_bytes(), tweak@),
                    self.has_odd_y(),
                    self.x_bytes() + self.x_bytes(),
                ) matches Some(key) && p.0@ == compressed_encoding(key),
                Err(_) => true,
            },
    {
        let x = self.x();
        let digest = Curve::tweak_digest(&x, &tweak);
        let signature = crate::bytes::join64(&x, &x);
        match crate::recovery::recover_point(&digest, self.is_odd(), &signature) {
            Ok(u) => Ok(u.compress()),
            Err(e) => Err(e),
        }
    }
}

/// The compressed encoding of a point.
impl From<UncompressedPoint> for CompressedPoint {
    fn from(p: UncompressedPoint) -> (r: CompressedPoint) {
        let r = p.compress();
        proof {
            lemma_compressed_of(r);
        }
        r
    }
}

impl FromSpecImpl<UncompressedPoint> for CompressedPoint {
    open spec fn obeys_from_spec() -> bool {
        true
    }

    open spec fn from_spec(p: UncompressedPoint) -> CompressedPoint {
        compressed_of(compressed_encoding(p.0@))
    }
}

/// The compressed encoding of the point after the tag of the 65-byte wire format.
impl From<[u8; 65]> for CompressedPoint {
    fn from(p: [u8; 65]) -> (r: CompressedPoint) {
        let r = UncompressedPoint::from_sec1_bytes(&p).compress();
        proof {
            lemma_compressed_of(r);
        }
        r
    }
}

impl FromSpecImpl<[u8; 65]> for CompressedPoint {
    open spec fn obeys_from_spec() -> bool {
        true
    }

    open spec fn from_spec(p: [u8; 65]) -> CompressedPoint {
        compressed_of(compressed_encoding(p@.subrange(1, 65)))
    }
}

/// What compressing the outcome of a recovery gives.
pub open spec fn compressed_recovery_result(digest: Seq<u8>, odd: bool, signature: Seq<u8>)
    -> Result<CompressedPoint, Secp256k1Error> {
    match crate::recovery::recovered_key(digest, odd, signature) {
        Some(key) => Ok(compressed_of(compressed_encoding(key))),
        None => Err(Secp256k1Error::InvalidPublicKey),
    }
}

/// The scalar times the generator, compressed.
impl TryFrom<[u8; 32]> for CompressedPoint {
    type Error = Secp256k1Error;

    fn try_from(scalar: [u8; 32]) -> (r: Result<Self, Secp256k1Error>) {
        match Curve::mul_g(&scalar) {
            Ok(p) => {
                let c = p.compress();
                proof {
                    lemma_compressed_of(c);
                }
                Ok(c)
            },
            Err(e) => Err(e),
        }
    }
}

impl TryFromSpecImpl<[u8; 32]> for CompressedPoint {
    open spec fn obeys_try_from_spec() -> bool {
        true
    }

    open spec fn try_from_spec(scalar: [u8; 32]) -> Result<Self, Self::Error> {
        compressed_recovery_result(
            zeros(32),
            false,
            multiple_signature(Curve::G@.subrange(0, 32), scalar@),
        )
    }
}

/// The point times a scalar.
impl Mul<&[u8; 32]> for CompressedPoint {
    type Output = Result<UncompressedPoint, Secp256k1Error>;

    fn mul(self, k: &[u8; 32]) -> (r: Self::Output) {
        let r = Curve::ecmul(&self, k);
        proof {
            lemma_recovery_result(
                zeros(32),
                self.has_odd_y(),
                multiple_signature(self.x_bytes(), k@),
                r,
            );
        }
        r
    }
}

impl MulSpecImpl<&[u8; 32]> for CompressedPoint {
    open spec fn obeys_mul_spec() -> bool {
        true
    }

    open spec fn mul_req(self, k: &[u8; 32]) -> bool {
        true
    }

    open spec fn mul_spec(self, k: &[u8; 32]) -> Self::Output {
        recovery_result(
            zeros(32),
            self.0@[0] == 3,
            multiple_signature(self.0@.subrange(1, 33), k@),
        )
    }
}

} // verus!
