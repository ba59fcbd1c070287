//! Arithmetic on the curve secp256k1 for a host where recovering a public key
//! from a signature is cheap and everything else is dear.
//!
//! Scalar multiplication and tweaking are obtained from one call of the
//! recovery primitive each, by handing it a signature and a digest chosen so
//! that the recovered key is the wanted point. Around that stand the two
//! encodings of a point, arithmetic modulo the group order and the field
//! prime, and the addition of points by chord and tangent.
//!
//! The contracts speak of byte strings through their values as big-endian
//! numbers. The laws that the operations obey are proof functions beside
//! them: negation and compression undo themselves, addition commutes and
//! stays on the curve, and both moduli are prime, so that every element but
//! zero has an inverse and every square a root.

pub mod addition;
pub mod bigint;
pub mod bytes;
pub mod closure;
pub mod commutative;
pub mod compressed_point;
pub mod congruence;
pub mod curve;
pub mod errors;
pub mod fast_mod;
pub mod field;
pub mod field_certificate;
pub mod hex;
pub mod lift;
pub mod multiply;
pub mod order_certificate;
pub mod prime_table;
pub mod primes;
pub mod recovery;
pub mod reflect;
pub mod residues;
pub mod roundtrip;
pub mod traits;
pub mod uncompressed_point;

pub use compressed_point::{
    CompressedPoint, SEC1_OCTET_COMPRESSED_EVEN, SEC1_OCTET_COMPRESSED_ODD,
};
pub use curve::Curve;
pub use errors::Secp256k1Error;
pub use traits::Secp256k1Point;
pub use uncompressed_point::{UncompressedPoint, SEC1_OCTET_UNCOMPRESSED};
