//! A point as 64 bytes: X, then Y.

use crate::bigint::{big_mul, mod_exp};
use crate::bytes::{
    be_encode, be_value, bytes_equal, copy_range32, join64, lemma_be_encode_of_value,
    lemma_be_value_injective, lemma_be_value_parity, zeros,
};
use crate::compressed_point::CompressedPoint;
use crate::curve::{field_prime, lemma_constant_values, reduce32, Curve};
use crate::errors::Secp256k1Error;
use crate::field::{
    curve_rhs, lemma_power_of_reduced, lifts, reflected, satisfies_curve, sqrt_candidate,
};
use crate::lift::{cubic_plus_seven, decompressed_encoding};
use crate::recovery::{
    is_recovery_outcome, lemma_recovery_result, multiple_signature, recover_point, recovery_result,
    tweak_digest,
};
use crate::reflect::reflect32;
use crate::traits::Secp256k1Point;
use vstd::prelude::*;
use vstd::std_specs::convert::{FromSpecImpl, TryFromSpecImpl};

verus! {

/// The tag that the wire format puts in front of an uncompressed point.
pub const SEC1_OCTET_UNCOMPRESSED: u8 = 0x04;

/// The compressed encoding of the point with the bytes `xy`: the tag of Y's
/// parity, 3 for odd and 2 for even, then X.
pub open spec fn compressed_encoding(xy: Seq<u8>) -> Seq<u8> {
    seq![if be_value(xy.subrange(32, 64)) % 2 == 1 { 3u8 } else { 2u8 }] + xy.subrange(0, 32)
}

/// Whether the coordinates that a point holds satisfy the curve equation.
pub open spec fn is_on_curve(p: UncompressedPoint) -> bool {
    satisfies_curve(be_value(p.0@.subrange(0, 32)), be_value(p.0@.subrange(32, 64)))
}

/// The point that holds the 64 bytes `bytes`.
pub open spec fn point_of(bytes: Seq<u8>) -> UncompressedPoint {
    choose|p: UncompressedPoint| p.0@ == bytes
}

/// A point is the point of its bytes.
pub proof fn lemma_point_of(p: UncompressedPoint)
    ensures
        point_of(p.0@) == p,
{
    let q = point_of(p.0@);
    assert(q.0@ == p.0@);
    assert(q.0 =~= p.0);
}

/// A point as X ‖ Y, 32 bytes each, most significant byte first.
#[derive(Debug, PartialEq, Eq, Clone, Copy)]
pub struct UncompressedPoint(pub [u8; 64]);

impl UncompressedPoint {
    /// The 32 bytes of the Y coordinate.
    pub open spec fn y_bytes(&self) -> Seq<u8> {
        self.0@.subrange(32, 64)
    }

    /// The compressed encoding: the tag of Y's parity, then X.
    pub open spec fn compressed_bytes(&self) -> Seq<u8> {
        compressed_encoding(self.0@)
    }

    /// The candidate square root at `x`, computed in the field's own size.
    fn sqrt_candidate32(x: &[u8; 32]) -> (r: ([u8; 32], [u8; 32]))
        ensures
            be_value(r.0@) == sqrt_candidate(be_value(x@)),
            r.0@ == be_encode(sqrt_candidate(be_value(x@)), 32),
            be_value(r.1@) == curve_rhs(be_value(x@)),
    {
        proof {
            lemma_constant_values();
        }
        let rhs = cubic_plus_seven(x);
        let reduced = reduce32(rhs.as_slice(), &Curve::P);
        let root = mod_exp(reduced.as_slice(), Curve::P_1_4.as_slice(), Curve::P.as_slice());
        let y = copy_range32(root.as_slice(), 0);
        proof {
            assert(y@ =~= root@);
            lemma_power_of_reduced(be_value(rhs@), (field_prime() + 1) / 4, field_prime());
            lemma_be_encode_of_value(y@);
        }
        (y, reduced)
    }

    /// The point that follows the tag of the 65-byte wire format.
    pub fn from_sec1_bytes(p: &[u8; 65]) -> (r: UncompressedPoint)
        ensures
            r.0@ == p@.subrange(1, 65),
    {
        let mut s = [0u8; 64];
        let mut i: usize = 0;
        while i < 64
            invariant
                i <= 64,
                forall|j: int| 0 <= j < i ==> s@[j] == p@[1 + j],
            decreases 64 - i,
        {
            s[i] = p[1 + i];
            i += 1;
        }
        assert(s@ =~= p@.subrange(1, 65));
        UncompressedPoint(s)
    }

    /// The point with the tag of the uncompressed wire format in front.
    pub fn to_sec1_bytes(&self) -> (r: [u8; 65])
        ensures
            r@ == seq![SEC1_OCTET_UNCOMPRESSED] + self.0@,
    {
        let mut r = [0u8; 65];
        r[0] = SEC1_OCTET_UNCOMPRESSED;
        let mut i: usize = 0;
        while i < 64
            invariant
                i <= 64,
                r@[0] == SEC1_OCTET_UNCOMPRESSED,
                forall|j: int| 0 <= j < i ==> r@[1 + j] == self.0@[j],
            decreases 64 - i,
        {
            r[1 + i] = self.0[i];
            i += 1;
        }
        assert(r@ =~= seq![SEC1_OCTET_UNCOMPRESSED] + self.0@);
        r
    }
}

impl Secp256k1Point for UncompressedPoint {
    const SIZE: usize = 64;

    open spec fn x_bytes(&self) -> Seq<u8> {
        self.0@.subrange(0, 32)
    }

    open spec fn y_value(&self) -> nat {
        be_value(self.0@.subrange(32, 64))
    }

    open spec fn has_odd_y(&self) -> bool {
        be_value(self.0@.subrange(32, 64)) % 2 == 1
    }

    open spec fn has_even_y(&self) -> bool {
        be_value(self.0@.subrange(32, 64)) % 2 == 0
    }

    fn is_odd(&self) -> (r: bool) {
        let last = self.0[63];
        proof {
            assert(last & 1 != 0 <==> last % 2 == 1) by (bit_vector);
            lemma_be_value_parity(self.0@.subrange(32, 64));
        }
        last & 1 != 0
    }

    fn is_even(&self) -> (r: bool) {
        let last = self.0[63];
        proof {
            assert(last & 1 != 1 <==> last % 2 == 0) by (bit_vector);
            lemma_be_value_parity(self.0@.subrange(32, 64));
        }
        last & 1 != 1
    }

    fn x(&self) -> (r: [u8; 32]) {
        copy_range32(self.0.as_slice(), 0)
    }

    fn y(&self) -> (r: [u8; 32])
        ensures
            r@ == self.y_bytes(),
    {
        copy_range32(self.0.as_slice(), 32)
    }

    fn lift_x_unchecked(x: &[u8; 32]) -> (r: Self)
        ensures
            r.0@ == x@ + be_encode(sqrt_candidate(be_value(x@)), 32),
    {
        let (y, _) = Self::sqrt_candidate32(x);
        let r = UncompressedPoint(join64(x, &y));
        proof {
            assert(r.0@.subrange(0, 32) =~= x@);
            assert(r.0@.subrange(32, 64) =~= y@);
        }
        r
    }

    fn lift_x(x: &[u8; 32]) -> (r: Result<Self, Secp256k1Error>)
        ensures
            match r {
                Ok(p) => p.0@ == x@ + be_encode(sqrt_candidate(be_value(x@)), 32) && is_on_curve(p),
                Err(_) => true,
            },
    {
        proof {
            lemma_constant_values();
            crate::residues::lemma_lifts_where_on_curve(be_value(x@));
        }
        let (y, rhs) = Self::sqrt_candidate32(x);
        let square = big_mul(y.as_slice(), y.as_slice());
        let left = reduce32(square.as_slice(), &Curve::P);
        proof {
            if be_value(left@) == be_value(rhs@) {
                lemma_be_value_injective(left@, rhs@);
            }
        }
        if !bytes_equal(left.as_slice(), rhs.as_slice()) {
            return Err(Secp256k1Error::InvalidYCoordinate);
        }
        let r = UncompressedPoint(join64(x, &y));
        proof {
            assert(r.0@.subrange(0, 32) =~= x@);
            assert(r.0@.subrange(32, 64) =~= y@);
        }
        Ok(r)
    }

    fn invert(&mut self)
        ensures
            final(self).0@ == old(self).x_bytes() + be_encode(reflected(old(self).y_value()), 32),
    {
        let x = self.x();
        let y = self.y();
        let mirrored = reflect32(&y);
        proof {
            lemma_be_encode_of_value(mirrored@);
        }
        self.0 = join64(&x, &mirrored);
        proof {
            assert(self.0@.subrange(0, 32) =~= x@);
        }
    }

    fn compress(&self) -> (r: CompressedPoint)
        ensures
            r.0@ == self.compressed_bytes(),
    {
        let tag: u8 = if self.is_odd() {
            3
        } else {
            2
        };
        let mut r = [0u8; 33];
        r[0] = tag;
        let mut i: usize = 0;
        while i < 32
            invariant
                i <= 32,
                r@[0] == tag,
                forall|j: int| 0 <= j < i ==> r@[1 + j] == self.0@[j],
            decreases 32 - i,
        {
            r[1 + i] = self.0[i];
            i += 1;
        }
        proof {
            assert(r@ =~= self.compressed_bytes());
            assert(r@.subrange(1, 33) =~= self.x_bytes());
        }
        CompressedPoint(r)
    }

    fn decompress(&self) -> (r: UncompressedPoint)
        ensures
            r == *self,
    {
        *self
    }

    fn tweak(&self, tweak: [u8; 32]) -> (r: Result<Self, Secp256k1Error>)
        ensures
            is_recovery_outcome(
                tweak_digest(self.x_bytes(), tweak@),
                self.has_odd_y(),
                self.x_bytes() + self.x_bytes(),
                r,
            ),
    {
        let x = self.x();
        let digest = Curve::tweak_digest(&x, &tweak);
        let signature = join64(&x, &x);
        recover_point(&digest, self.is_odd(), &signature)
    }
}

/// A point that holds `x` and the candidate square root at `x` has these
/// coordinates.
pub proof fn lemma_lifted_point(p: UncompressedPoint, x: Seq<u8>)
    requires
        x.len() == 32,
        p.0@ == x + be_encode(sqrt_candidate(be_value(x)), 32),
    ensures
        p.x_bytes() == x,
        p.y_value() == sqrt_candidate(be_value(x)),
{
    crate::bytes::lemma_be_encode_len(sqrt_candidate(be_value(x)), 32);
    assert(p.0@.subrange(0, 32) =~= x);
    assert(p.0@.subrange(32, 64) =~= be_encode(sqrt_candidate(be_value(x)), 32));
    lemma_constant_values();
    crate::bytes::lemma_radix_pow_32();
    crate::bytes::lemma_be_value_of_encode(sqrt_candidate(be_value(x)), 32);
}

/// The point after the tag of the 65-byte wire format.
impl From<[u8; 65]> for UncompressedPoint {
    fn from(p: [u8; 65]) -> (r: UncompressedPoint) {
        let r = Self::from_sec1_bytes(&p);
        proof {
            lemma_point_of(r);
        }
        r
    }
}

impl FromSpecImpl<[u8; 65]> for UncompressedPoint {
    open spec fn obeys_from_spec() -> bool {
        true
    }

    open spec fn from_spec(p: [u8; 65]) -> UncompressedPoint {
        point_of(p@.subrange(1, 65))
    }
}

/// The point that a compressed point encodes, checked to lie on the curve.
impl TryFrom<CompressedPoint> for UncompressedPoint {
    type Error = Secp256k1Error;

    fn try_from(x: CompressedPoint) -> (r: Result<Self, Secp256k1Error>) {
        let r = Curve::decompress(x);
        proof {
            if let Ok(p) = r {
                lemma_point_of(p);
            }
        }
        r
    }
}

impl TryFromSpecImpl<CompressedPoint> for UncompressedPoint {
    open spec fn obeys_try_from_spec() -> bool {
        true
    }

    open spec fn try_from_spec(x: CompressedPoint) -> Result<Self, Self::Error> {
        if lifts(be_value(x.0@.subrange(1, 33))) {
            Ok(point_of(decompressed_encoding(x.0@)))
        } else {
            Err(Secp256k1Error::InvalidYCoordinate)
        }
    }
}

/// The scalar times the generator: the public point of a secret scalar.
impl TryFrom<[u8; 32]> for UncompressedPoint {
    type Error = Secp256k1Error;

    fn try_from(scalar: [u8; 32]) -> (r: Result<Self, Secp256k1Error>) {
        let r = Curve::mul_g(&scalar);
        proof {
            lemma_recovery_result(
                zeros(32),
                false,
                multiple_signature(Curve::G@.subrange(0, 32), scalar@),
                r,
            );
        }
        r
    }
}

impl TryFromSpecImpl<[u8; 32]> for UncompressedPoint {
    open spec fn obeys_try_from_spec() -> bool {
        true
    }

    open spec fn try_from_spec(scalar: [u8; 32]) -> Result<Self, Self::Error> {
        recovery_result(zeros(32), false, multiple_signature(Curve::G@.subrange(0, 32), scalar@))
    }
}

} // verus!
