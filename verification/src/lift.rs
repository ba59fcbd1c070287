//! From an X coordinate to a point.

use crate::bigint::{big_add, big_mul, big_pow_mod, big_rem};
use crate::bytes::{
    be_encode, be_value, bytes_equal, join64, lemma_be_encode_len, lemma_be_encode_of_value,
    lemma_be_value_of_encode, lemma_minimal_unique, lemma_radix_pow_32, widen32,
};
use crate::closure::lemma_reflection_on_curve;
use crate::compressed_point::CompressedPoint;
use crate::curve::{lemma_constant_values, Curve};
use crate::errors::Secp256k1Error;
use crate::field::{lifts, reflected, satisfies_curve, sqrt_candidate};
use crate::residues::lemma_lifts_where_on_curve;
use crate::traits::Secp256k1Point;
use crate::uncompressed_point::{is_on_curve, lemma_lifted_point, UncompressedPoint};
use vstd::prelude::*;

verus! {

/// x³ + 7, not reduced.
pub(crate) fn cubic_plus_seven(x: &[u8; 32]) -> (r: Vec<u8>)
    ensures
        be_value(r@) == be_value(x@) * be_value(x@) * be_value(x@) + 7,
{
    let seven = [7u8];
    proof {
        reveal_with_fuel(be_value, 2);
        assert(seven@.drop_last().len() == 0);
        assert(be_value(seven@) == 7);
    }
    let square = big_mul(x.as_slice(), x.as_slice());
    let cube = big_mul(square.as_slice(), x.as_slice());
    big_add(cube.as_slice(), seven.as_slice())
}

impl Curve {
    /// The candidate square root at `x`, and x³ + 7 beside it.
    fn candidate_root(x: &[u8; 32]) -> (r: ([u8; 32], Vec<u8>))
        ensures
            r.0@ == be_encode(sqrt_candidate(be_value(x@)), 32),
            be_value(r.0@) == sqrt_candidate(be_value(x@)),
            be_value(r.1@) == be_value(x@) * be_value(x@) * be_value(x@) + 7,
    {
        proof {
            lemma_constant_values();
        }
        let rhs = cubic_plus_seven(x);
        let root = big_pow_mod(rhs.as_slice(), &Self::P_1_4, &Self::P);
        (widen32(root.as_slice()), rhs)
    }

    /// The point with the X coordinate `x` and the candidate square root as
    /// its Y coordinate, whether or not it lies on the curve.
    pub fn lift_x_unchecked(x: &[u8; 32]) -> (r: UncompressedPoint)
        ensures
            r.0@ == x@ + be_encode(sqrt_candidate(be_value(x@)), 32),
    {
        proof {
            lemma_constant_values();
        }
        let (y, _) = Self::candidate_root(x);
        UncompressedPoint(join64(x, &y))
    }

    /// The point with the X coordinate `x`, where the candidate square root
    /// satisfies the curve equation; `InvalidYCoordinate` where it does not.
    pub fn lift_x(x: &[u8; 32]) -> (r: Result<UncompressedPoint, Secp256k1Error>)
        ensures
            match r {
                Ok(p) => lifts(be_value(x@)) && p.0@ == x@ + be_encode(
                    sqrt_candidate(be_value(x@)),
                    32,
                ) && is_on_curve(p),
                Err(e) => !lifts(be_value(x@)) && e == Secp256k1Error::InvalidYCoordinate,
            },
            r is Ok <==> exists|y: nat| satisfies_curve(be_value(x@), y),
    {
        proof {
            lemma_constant_values();
            lemma_lifts_where_on_curve(be_value(x@));
        }
        let (y, rhs) = Self::candidate_root(x);
        let square = big_mul(y.as_slice(), y.as_slice());
        let left = big_rem(square.as_slice(), Self::P.as_slice());
        let right = big_rem(rhs.as_slice(), Self::P.as_slice());
        proof {
            lemma_minimal_unique(left@, right@);
        }
        if !bytes_equal(left.as_slice(), right.as_slice()) {
            return Err(Secp256k1Error::InvalidYCoordinate);
        }
        let r = UncompressedPoint(join64(x, &y));
        proof {
            lemma_lifted_point(r, x@);
        }
        Ok(r)
    }
}

/// The Y coordinate of the point at `x` with the parity `odd`: the candidate
/// square root, reflected where its parity is the other one.
pub open spec fn decompressed_y(x: nat, odd: bool) -> nat {
    let candidate = sqrt_candidate(x);
    if (candidate % 2 == 1) != odd {
        reflected(candidate)
    } else {
        candidate
    }
}

/// The 64 bytes of the point that the 33 bytes `c` encode: X, then the Y
/// coordinate with the parity that the tag names.
pub open spec fn decompressed_encoding(c: Seq<u8>) -> Seq<u8> {
    c.subrange(1, 33) + be_encode(decompressed_y(be_value(c.subrange(1, 33)), c[0] == 3), 32)
}

/// A point that holds what decompressing gives, at an X coordinate that
/// lifts, lies on the curve.
pub proof fn lemma_decompressed_on_curve(c: Seq<u8>, p: UncompressedPoint)
    requires
        c.len() == 33,
        lifts(be_value(c.subrange(1, 33))),
        p.0@ == decompressed_encoding(c),
    ensures
        is_on_curve(p),
{
    let x = be_value(c.subrange(1, 33));
    let y = decompressed_y(x, c[0] == 3);
    lemma_reflection_on_curve(x, sqrt_candidate(x));
    lemma_be_encode_len(y, 32);
    lemma_radix_pow_32();
    lemma_be_value_of_encode(y, 32);
    assert(p.0@.subrange(0, 32) =~= c.subrange(1, 33));
    assert(p.0@.subrange(32, 64) =~= be_encode(y, 32));
}

/// Gives `point` the parity `odd`.
fn with_parity(point: UncompressedPoint, odd: bool) -> (r: UncompressedPoint)
    ensures
        r.0@ == point.x_bytes() + be_encode(
            if point.has_odd_y() != odd {
                reflected(point.y_value())
            } else {
                point.y_value()
            },
            32,
        ),
{
    let mut r = point;
    if r.is_odd() != odd {
        r.invert();
    } else {
        proof {
            lemma_be_encode_of_value(point.0@.subrange(32, 64));
            assert(r.0@ =~= point.x_bytes() + point.0@.subrange(32, 64));
        }
    }
    r
}

impl Curve {
    /// The point that `p` encodes, where its X coordinate lifts to the curve;
    /// `InvalidYCoordinate` where it does not.
    pub fn decompress(p: CompressedPoint) -> (r: Result<UncompressedPoint, Secp256k1Error>)
        ensures
            match r {
                Ok(u) => lifts(be_value(p.x_bytes())) && u.0@ == decompressed_encoding(p.0@)
                    && is_on_curve(u),
                Err(e) => !lifts(be_value(p.x_bytes())) && e == Secp256k1Error::InvalidYCoordinate,
            },
            r is Ok <==> exists|y: nat| satisfies_curve(be_value(p.x_bytes()), y),
    {
        let x = p.x();
        match Self::lift_x(&x) {
            Ok(point) => {
                proof {
                    lemma_lifted_point(point, x@);
                }
                let r = with_parity(point, p.is_odd());
                proof {
                    lemma_decompressed_on_curve(p.0@, r);
                }
                Ok(r)
            },
            Err(e) => Err(e),
        }
    }

    /// The point that `p` encodes, its Y coordinate computed without a check
    /// that the point lies on the curve.
    pub fn decompress_unchecked(p: CompressedPoint) -> (r: UncompressedPoint)
        ensures
            r.0@ == decompressed_encoding(p.0@),
    {
        let x = p.x();
        let point = Self::lift_x_unchecked(&x);
        proof {
            lemma_lifted_point(point, x@);
        }
        with_parity(point, p.is_odd())
    }
}

} // verus!
