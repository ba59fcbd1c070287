//! Compressing and decompressing undo each other.

use crate::bytes::{
    be_encode, be_value, lemma_be_encode_len, lemma_be_encode_of_value, lemma_be_value_of_encode,
    lemma_radix_pow_32,
};
use crate::compressed_point::CompressedPoint;
use crate::curve::field_prime;
use crate::field::{lemma_reflected_parity, reflected, sqrt_candidate};
use crate::lift::{decompressed_encoding, decompressed_y};
use crate::residues::lemma_curve_point_root;
use crate::traits::Secp256k1Point;
use crate::uncompressed_point::{compressed_encoding, is_on_curve, UncompressedPoint};
use vstd::prelude::*;

verus! {

/// Decompressing a compressed point with one of the two valid tags, and
/// compressing what comes out, gives the compressed point back.
pub proof fn lemma_compress_of_decompress(c: CompressedPoint)
    requires
        c.has_valid_tag(),
    ensures
        compressed_encoding(decompressed_encoding(c.0@)) == c.0@,
{
    let x = c.0@.subrange(1, 33);
    let odd = c.0@[0] == 3;
    let candidate = sqrt_candidate(be_value(x));
    let y = decompressed_y(be_value(x), odd);
    let d = decompressed_encoding(c.0@);
    lemma_reflected_parity(candidate);
    lemma_radix_pow_32();
    lemma_be_encode_len(y, 32);
    lemma_be_value_of_encode(y, 32);
    assert(d.subrange(0, 32) =~= x);
    assert(d.subrange(32, 64) =~= be_encode(y, 32));
    assert(compressed_encoding(d) =~= c.0@);
}

/// Compressing a point whose Y coordinate is the square root that lifting its
/// X coordinate computes, or the reflection of that root, and decompressing
/// what comes out, gives the point back.
pub proof fn lemma_decompress_of_compress_lifted(p: UncompressedPoint)
    requires
        p.y_value() == sqrt_candidate(be_value(p.x_bytes())) || p.y_value() == reflected(
            sqrt_candidate(be_value(p.x_bytes())),
        ),
    ensures
        decompressed_encoding(compressed_encoding(p.0@)) == p.0@,
{
    let x = p.0@.subrange(0, 32);
    let y = p.0@.subrange(32, 64);
    let candidate = sqrt_candidate(be_value(x));
    let c = compressed_encoding(p.0@);
    lemma_reflected_parity(candidate);
    lemma_be_encode_of_value(y);
    assert(c.subrange(1, 33) =~= x);
    assert(decompressed_encoding(c) =~= p.0@);
}

/// Compressing a point that lies on the curve, with a reduced Y coordinate,
/// and decompressing what comes out, gives the point back.
pub proof fn lemma_decompress_of_compress(p: UncompressedPoint)
    requires
        is_on_curve(p),
        p.y_value() < field_prime(),
    ensures
        decompressed_encoding(compressed_encoding(p.0@)) == p.0@,
{
    lemma_curve_point_root(be_value(p.x_bytes()), p.y_value());
    lemma_decompress_of_compress_lifted(p);
}

} // verus!
