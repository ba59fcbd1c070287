//! The sum of two points by chord and tangent.
//!
//! Two different points are joined by a chord, a point and itself by the
//! tangent; the line meets the curve in one more point, whose reflection is
//! the sum. A point and its reflection have no such line: the slope's
//! denominator is zero, and the sum is answered with `ArithmeticOverflow`.

use core::ops::Add;
use crate::bigint::{big_add, big_sub};
use crate::bytes::{
    be_encode, be_value, bytes_equal, join64, lemma_be_encode_of_value, lemma_be_value_injective,
};
use crate::compressed_point::CompressedPoint;
use crate::curve::{lemma_constant_values, reduce32, Curve};
use crate::errors::Secp256k1Error;
use crate::field::{difference, lemma_difference_reduced, lemma_inverse_is, point_sum, third_point};
use crate::lift::decompressed_encoding;
use crate::traits::Secp256k1Point;
use crate::uncompressed_point::{lemma_point_of, point_of, UncompressedPoint};
use vstd::prelude::*;
use vstd::std_specs::ops::AddSpecImpl;

verus! {

/// What adding `q` to `p` gives: the point of their sum, or
/// `ArithmeticOverflow` where they have none.
pub open spec fn sum_of(p: UncompressedPoint, q: UncompressedPoint) -> Result<
    UncompressedPoint,
    Secp256k1Error,
> {
    match point_sum(
        be_value(p.0@.subrange(0, 32)),
        be_value(p.0@.subrange(32, 64)),
        be_value(q.0@.subrange(0, 32)),
        be_value(q.0@.subrange(32, 64)),
    ) {
        Some((x, y)) => Ok(point_of(be_encode(x, 32) + be_encode(y, 32))),
        None => Err(Secp256k1Error::ArithmeticOverflow),
    }
}

/// Whether `r` is what adding `q` to `p` gives: the point whose coordinates
/// are the sum's, or `ArithmeticOverflow` where the two points have no sum.
pub open spec fn is_sum_outcome(
    p: UncompressedPoint,
    q: UncompressedPoint,
    r: Result<UncompressedPoint, Secp256k1Error>,
) -> bool {
    let sum = point_sum(
        be_value(p.0@.subrange(0, 32)),
        be_value(p.0@.subrange(32, 64)),
        be_value(q.0@.subrange(0, 32)),
        be_value(q.0@.subrange(32, 64)),
    );
    match r {
        Ok(s) => sum == Some(
            (be_value(s.0@.subrange(0, 32)), be_value(s.0@.subrange(32, 64))),
        ),
        Err(e) => e == Secp256k1Error::ArithmeticOverflow && sum is None,
    }
}

/// a − b modulo the field prime.
fn difference32(a: &[u8; 32], b: &[u8; 32]) -> (r: [u8; 32])
    ensures
        be_value(r@) == difference(be_value(a@), be_value(b@)),
{
    proof {
        lemma_constant_values();
        reveal(difference);
    }
    let a_reduced = reduce32(a.as_slice(), &Curve::P);
    let b_reduced = reduce32(b.as_slice(), &Curve::P);
    let lifted = big_add(a_reduced.as_slice(), Curve::P.as_slice());
    let diff = big_sub(lifted.as_slice(), b_reduced.as_slice());
    reduce32(diff.as_slice(), &Curve::P)
}

/// The sum of the two points on the line with slope `m` through them.
fn third_point32(m: &[u8; 32], xp: &[u8; 32], yp: &[u8; 32], xq: &[u8; 32]) -> (r:
    UncompressedPoint)
    ensures
        third_point(be_value(m@), be_value(xp@), be_value(yp@), be_value(xq@)) == (
            be_value(r.x_bytes()),
            r.y_value(),
        ),
        r.0@ == be_encode(be_value(r.x_bytes()), 32) + be_encode(r.y_value(), 32),
{
    let square = Curve::mul_mod_p(m, m);
    let xr = difference32(&difference32(&square, xp), xq);
    let run = difference32(xp, &xr);
    let yr = difference32(&Curve::mul_mod_p(m, &run), yp);
    let r = UncompressedPoint(join64(&xr, &yr));
    proof {
        let mv = be_value(m@);
        lemma_difference_reduced(mv * mv, be_value(xp@));
        lemma_difference_reduced(mv * be_value(run@), be_value(yp@));
        assert(r.0@.subrange(0, 32) =~= xr@);
        assert(r.0@.subrange(32, 64) =~= yr@);
        lemma_be_encode_of_value(xr@);
        lemma_be_encode_of_value(yr@);
    }
    r
}

impl Add<UncompressedPoint> for UncompressedPoint {
    type Output = Result<UncompressedPoint, Secp256k1Error>;

    /// The sum of two points.
    fn add(self, rhs: UncompressedPoint) -> (r: Self::Output)
        ensures
            is_sum_outcome(self, rhs, r),
    {
        let xp = self.x();
        let yp = self.y();
        let xq = rhs.x();
        let yq = rhs.y();
        let same = bytes_equal(self.0.as_slice(), rhs.0.as_slice());
        proof {
            if be_value(xp@) == be_value(xq@) && be_value(yp@) == be_value(yq@) {
                lemma_be_value_injective(xp@, xq@);
                lemma_be_value_injective(yp@, yq@);
                assert(self.0@ =~= xp@ + yp@);
                assert(rhs.0@ =~= xq@ + yq@);
            }
        }
        let three = crate::bytes::left_pad32(&[3u8]);
        proof {
            reveal_with_fuel(be_value, 2);
            assert([3u8]@.drop_last().len() == 0);
            assert(be_value(three@) == 3);
        }
        let (numerator, denominator) = if same {
            (Curve::mul_mod_p(&three, &Curve::mul_mod_p(&xp, &xp)), Curve::add_mod_p(&yp, &yp))
        } else {
            (difference32(&yq, &yp), difference32(&xq, &xp))
        };
        match Curve::mod_inv_p(denominator.as_slice()) {
            Ok(inv) => {
                proof {
                    lemma_inverse_is(be_value(inv@), be_value(denominator@));
                }
                let slope = Curve::mul_mod_p(&numerator, &inv);
                let r = third_point32(&slope, &xp, &yp, &xq);
                proof {
                    lemma_point_of(r);
                }
                Ok(r)
            },
            Err(e) => Err(e),
        }
    }
}

impl AddSpecImpl<UncompressedPoint> for UncompressedPoint {
    open spec fn obeys_add_spec() -> bool {
        true
    }

    open spec fn add_req(self, rhs: UncompressedPoint) -> bool {
        true
    }

    open spec fn add_spec(self, rhs: UncompressedPoint) -> Self::Output {
        sum_of(self, rhs)
    }
}

/// The sum of a point and the point that a compressed point encodes.
impl Add<CompressedPoint> for UncompressedPoint {
    type Output = Result<UncompressedPoint, Secp256k1Error>;

    fn add(self, rhs: CompressedPoint) -> (r: Self::Output)
        ensures
            is_sum_outcome(self, point_of(decompressed_encoding(rhs.0@)), r),
    {
        let q = rhs.decompress();
        proof {
            lemma_point_of(q);
        }
        self + q
    }
}

impl AddSpecImpl<CompressedPoint> for UncompressedPoint {
    open spec fn obeys_add_spec() -> bool {
        true
    }

    open spec fn add_req(self, rhs: CompressedPoint) -> bool {
        true
    }

    open spec fn add_spec(self, rhs: CompressedPoint) -> Self::Output {
        sum_of(self, point_of(decompressed_encoding(rhs.0@)))
    }
}

/// The sum of the point that a compressed point encodes and a point.
impl Add<UncompressedPoint> for CompressedPoint {
    type Output = Result<UncompressedPoint, Secp256k1Error>;

    fn add(self, rhs: UncompressedPoint) -> (r: Self::Output)
        ensures
            is_sum_outcome(rhs, point_of(decompressed_encoding(self.0@)), r),
    {
        rhs + self
    }
}

impl AddSpecImpl<UncompressedPoint> for CompressedPoint {
    open spec fn obeys_add_spec() -> bool {
        true
    }

    open spec fn add_req(self, rhs: UncompressedPoint) -> bool {
        true
    }

    open spec fn add_spec(self, rhs: UncompressedPoint) -> Self::Output {
        sum_of(rhs, point_of(decompressed_encoding(self.0@)))
    }
}

/// The sum of the points that two compressed points encode.
impl Add<CompressedPoint> for CompressedPoint {
    type Output = Result<UncompressedPoint, Secp256k1Error>;

    fn add(self, rhs: CompressedPoint) -> (r: Self::Output)
        ensures
            is_sum_outcome(
                point_of(decompressed_encoding(self.0@)),
                point_of(decompressed_encoding(rhs.0@)),
                r,
            ),
    {
        let p = self.decompress();
        proof {
            lemma_point_of(p);
        }
        p + rhs
    }
}

impl AddSpecImpl<CompressedPoint> for CompressedPoint {
    open spec fn obeys_add_spec() -> bool {
        true
    }

    open spec fn add_req(self, rhs: CompressedPoint) -> bool {
        true
    }

    open spec fn add_spec(self, rhs: CompressedPoint) -> Self::Output {
        sum_of(point_of(decompressed_encoding(self.0@)), point_of(decompressed_encoding(rhs.0@)))
    }
}

} // verus!
