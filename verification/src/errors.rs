//! The failure vocabulary shared by every operation of the library.

use solana_program_error::ProgramError;
use vstd::prelude::*;
use vstd::std_specs::convert::FromSpecImpl;

verus! {

/// Why an operation could not produce a result.
#[derive(Debug, Clone, Copy, PartialEq, Eq, Structural)]
pub enum Secp256k1Error {
    /// A scalar is zero or out of range.
    InvalidSecretKey,
    /// The recovery primitive rejected its input, or a point encoding is malformed.
    InvalidPublicKey,
    /// The candidate Y coordinate does not satisfy the curve equation.
    InvalidYCoordinate,
    /// A modular inverse of a non-invertible element was requested.
    ArithmeticOverflow,
}

/// Every failure of the recovery primitive is an invalid public key.
impl From<ProgramError> for Secp256k1Error {
    fn from(e: ProgramError) -> (r: Secp256k1Error) {
        Secp256k1Error::InvalidPublicKey
    }
}

impl FromSpecImpl<ProgramError> for Secp256k1Error {
    open spec fn obeys_from_spec() -> bool {
        true
    }

    open spec fn from_spec(e: ProgramError) -> Secp256k1Error {
        Secp256k1Error::InvalidPublicKey
    }
}

} // verus!
