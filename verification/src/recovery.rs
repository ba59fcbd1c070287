//! The public-key recovery primitive that the fast operations are built on.
//!
//! Recovery takes a 32-byte digest z, the parity of the ephemeral point R and
//! a 64-byte signature r ‖ s, and gives the one point Q for which (r, s) is a
//! signature over z: Q = (s·R − z·G) / r. The library never computes that
//! point itself. It chooses z, r and s so that Q is the point it wants, and
//! its contracts say which z, r and s it chose.

use crate::bytes::{be_encode, be_value};
use crate::curve::{negated_mod_n, order};
use crate::errors::Secp256k1Error;
use crate::uncompressed_point::{lemma_point_of, point_of, UncompressedPoint};
use solana_nostd_secp256k1_recover::secp256k1_recover;
use solana_program_error::ProgramError;
use vstd::prelude::*;

verus! {

/// `ProgramError` of `solana_program_error`, in which recovery reports that it
/// failed. Nothing is said of what a value of it holds.
#[verifier::external_type_specification]
#[verifier::external_body]
pub struct ExProgramError(solana_program_error::ProgramError);

/// What recovery gives for a digest, a parity and a signature: the 64 bytes
/// X ‖ Y of the recovered point, or nothing where recovery fails.
pub uninterp spec fn recovered_key(digest: Seq<u8>, odd: bool, signature: Seq<u8>) -> Option<
    Seq<u8>,
>;

/// The r half of a signature.
pub open spec fn signature_r(signature: Seq<u8>) -> nat {
    be_value(signature.subrange(0, 32))
}

/// The s half of a signature.
pub open spec fn signature_s(signature: Seq<u8>) -> nat {
    be_value(signature.subrange(32, 64))
}

/// Both halves of a signature lie between 1 and the group order less 1.
pub open spec fn signature_in_range(signature: Seq<u8>) -> bool {
    &&& 0 < signature_r(signature) < order()
    &&& 0 < signature_s(signature) < order()
}

/// `secp256k1_recover` of `solana_nostd_secp256k1_recover`: its result is
/// `recovered_key` of its arguments, and it fails on every signature with a
/// half that is zero or not below the group order, which its parser refuses.
#[verifier::external_body]
pub(crate) fn recover(hash: &[u8; 32], is_odd: bool, signature: &[u8; 64]) -> (r: Result<
    [u8; 64],
    ProgramError,
>)
    ensures
        match r {
            Ok(key) => recovered_key(hash@, is_odd, signature@) == Some(key@),
            Err(_) => recovered_key(hash@, is_odd, signature@) is None,
        },
        !signature_in_range(signature@) ==> r is Err,
{
    secp256k1_recover(hash, is_odd, signature)
}

/// The signature that makes recovery multiply: r is the X coordinate of the
/// point to multiply, s is that X times the scalar `k`, modulo the group order.
pub open spec fn multiple_signature(x: Seq<u8>, k: Seq<u8>) -> Seq<u8> {
    x + be_encode((be_value(x) * be_value(k)) % order(), 32)
}

/// The digest that makes recovery add `t` times the generator to the point
/// at `x`: (−x · t) mod N.
pub open spec fn tweak_digest(x: Seq<u8>, t: Seq<u8>) -> Seq<u8> {
    be_encode((negated_mod_n(be_value(x)) * be_value(t)) % order(), 32)
}

/// Whether `r` is what the library returns after recovery on these inputs:
/// the recovered point, or `InvalidPublicKey` where recovery fails.
pub open spec fn is_recovery_outcome(
    digest: Seq<u8>,
    odd: bool,
    signature: Seq<u8>,
    r: Result<UncompressedPoint, Secp256k1Error>,
) -> bool {
    match r {
        Ok(p) => recovered_key(digest, odd, signature) == Some(p.0@),
        Err(e) => e == Secp256k1Error::InvalidPublicKey && recovered_key(digest, odd, signature)
            is None,
    }
}

/// The one result that is the outcome of recovery on these inputs.
pub open spec fn recovery_result(digest: Seq<u8>, odd: bool, signature: Seq<u8>) -> Result<
    UncompressedPoint,
    Secp256k1Error,
> {
    match recovered_key(digest, odd, signature) {
        Some(key) => Ok(point_of(key)),
        None => Err(Secp256k1Error::InvalidPublicKey),
    }
}

/// What the library returns for a result of recovery: the point that the 64
/// bytes hold, or `InvalidPublicKey` for every failure.
pub fn point_from_recovery(result: Result<[u8; 64], ProgramError>) -> (r: Result<
    UncompressedPoint,
    Secp256k1Error,
>)
    ensures
        match result {
            Ok(key) => r == Ok::<UncompressedPoint, Secp256k1Error>(UncompressedPoint(key)),
            Err(_) => r == Err::<UncompressedPoint, Secp256k1Error>(
                Secp256k1Error::InvalidPublicKey,
            ),
        },
{
    match result {
        Ok(key) => Ok(UncompressedPoint(key)),
        Err(e) => Err(Secp256k1Error::from(e)),
    }
}

/// Recovery, with its failures in the library's own vocabulary.
pub(crate) fn recover_point(hash: &[u8; 32], is_odd: bool, signature: &[u8; 64]) -> (r: Result<
    UncompressedPoint,
    Secp256k1Error,
>)
    ensures
        is_recovery_outcome(hash@, is_odd, signature@, r),
        !signature_in_range(signature@) ==> r == Err::<UncompressedPoint, Secp256k1Error>(
            Secp256k1Error::InvalidPublicKey,
        ),
{
    point_from_recovery(recover(hash, is_odd, signature))
}

/// The outcome of recovery is the one result that `recovery_result` names.
pub proof fn lemma_recovery_result(
    digest: Seq<u8>,
    odd: bool,
    signature: Seq<u8>,
    r: Result<UncompressedPoint, Secp256k1Error>,
)
    requires
        is_recovery_outcome(digest, odd, signature, r),
    ensures
        r == recovery_result(digest, odd, signature),
{
    if let Ok(p) = r {
        lemma_point_of(p);
    }
}

} // verus!
