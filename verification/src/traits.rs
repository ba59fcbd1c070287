//! What the two encodings of a point have in common.

use crate::bytes::be_value;
use crate::compressed_point::CompressedPoint;
use crate::errors::Secp256k1Error;
use crate::field::{lifts, satisfies_curve, sqrt_candidate};
use crate::recovery::{recovered_key, tweak_digest};
use crate::uncompressed_point::UncompressedPoint;
use vstd::prelude::*;

verus! {

/// A point of the curve in one of its byte encodings.
///
/// The contracts here hold of both encodings; each encoding states its own
/// methods exactly where it implements them.
pub trait Secp256k1Point: Sized {
    /// The number of bytes of the encoding.
    const SIZE: usize;

    /// The 32 bytes of the X coordinate.
    spec fn x_bytes(&self) -> Seq<u8>;

    /// The Y coordinate.
    spec fn y_value(&self) -> nat;

    /// Whether the encoding says that Y is odd.
    spec fn has_odd_y(&self) -> bool;

    /// Whether the encoding says that Y is even.
    spec fn has_even_y(&self) -> bool;

    /// Whether the Y coordinate is odd.
    fn is_odd(&self) -> (r: bool)
        ensures
            r == self.has_odd_y(),
    ;

    /// Whether the Y coordinate is even.
    fn is_even(&self) -> (r: bool)
        ensures
            r == self.has_even_y(),
    ;

    /// The X coordinate.
    fn x(&self) -> (r: [u8; 32])
        ensures
            r@ == self.x_bytes(),
    ;

    /// The Y coordinate.
    fn y(&self) -> (r: [u8; 32])
        ensures
            be_value(r@) == self.y_value(),
    ;

    /// The point at `x` whose Y coordinate is the candidate square root,
    /// on the curve or not.
    fn lift_x_unchecked(x: &[u8; 32]) -> (r: Self)
        ensures
            r.x_bytes() == x@,
            r.y_value() == sqrt_candidate(be_value(x@)),
    ;

    /// The point at `x` whose Y coordinate is the candidate square root, where
    /// the candidate satisfies the curve equation: that is where the curve
    /// has a point at `x` at all. `InvalidYCoordinate` where it has none.
    fn lift_x(x: &[u8; 32]) -> (r: Result<Self, Secp256k1Error>)
        ensures
            match r {
                Ok(p) => lifts(be_value(x@)) && p.x_bytes() == x@ && p.y_value() == sqrt_candidate(
                    be_value(x@),
                ),
                Err(e) => !lifts(be_value(x@)) && e == Secp256k1Error::InvalidYCoordinate,
            },
            r is Ok <==> exists|y: nat| satisfies_curve(be_value(x@), y),
    ;

    /// Reflects the point across the X axis.
    fn invert(&mut self)
        ensures
            final(self).x_bytes() == old(self).x_bytes(),
    ;

    /// The point as a parity tag and its X coordinate.
    fn compress(&self) -> (r: CompressedPoint)
        ensures
            r.0@.subrange(1, 33) == self.x_bytes(),
    ;

    /// The point as both of its coordinates.
    fn decompress(&self) -> (r: UncompressedPoint)
        ensures
            r.0@.subrange(0, 32) == self.x_bytes(),
    ;

    /// The point plus `tweak` times the generator: what recovery gives for
    /// the digest (−X · tweak) mod N, the point's parity and the signature X ‖ X.
    fn tweak(&self, tweak: [u8; 32]) -> (r: Result<Self, Secp256k1Error>)
        ensures
            match r {
                Ok(p) => recovered_key(
                    tweak_digest(self.x_bytes(), tweak@),
                    self.has_odd_y(),
                    self.x_bytes() + self.x_bytes(),
                ) matches Some(key) && p.x_bytes() == key.subrange(0, 32),
                Err(e) => e == Secp256k1Error::InvalidPublicKey && recovered_key(
                    tweak_digest(self.x_bytes(), tweak@),
                    self.has_odd_y(),
                    self.x_bytes() + self.x_bytes(),
                ) is None,
            },
    ;
}

} // verus!
