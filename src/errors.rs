use groth16_solana::errors::Groth16Error;
use vstd::prelude::*;

verus! {

/// Why a proof was not accepted.
#[derive(Debug, Clone, Copy, PartialEq, Eq, Structural)]
pub enum ZKPassportError {
    /// The proof bytes are malformed: a wrong length, an all-zero compressed
    /// element, or an element that does not decompress to a curve point.
    InvalidProof,
    /// The key's `ic` table does not match the number of public inputs.
    InvalidVerificationKey,
    /// The proof was decoded but the pairing check did not pass.
    ProofVerificationFailed,
    /// The commitment is not the one the identity was registered with.
    InvalidCommitment,
    /// The nullifier is not the one the identity was registered with.
    InvalidNullifier,
    /// The nullifier already belongs to a registered identity.
    NullifierAlreadyUsed,
}

/// The pairing engine's errors that mean the input itself is malformed.
pub open spec fn is_malformed_input(err: Groth16Error) -> bool {
    ||| err == Groth16Error::InvalidG1Length
    ||| err == Groth16Error::InvalidG2Length
    ||| err == Groth16Error::DecompressingG1Failed
    ||| err == Groth16Error::DecompressingG2Failed
}

/// Sorts an error of the pairing engine into malformed input and failed verification.
pub fn map_groth16_error(err: Groth16Error) -> (code: ZKPassportError)
    ensures
        code == if is_malformed_input(err) {
            ZKPassportError::InvalidProof
        } else {
            ZKPassportError::ProofVerificationFailed
        },
{
    match err {
        Groth16Error::InvalidG1Length
        | Groth16Error::InvalidG2Length
        | Groth16Error::DecompressingG1Failed
        | Groth16Error::DecompressingG2Failed => ZKPassportError::InvalidProof,
        _ => ZKPassportError::ProofVerificationFailed,
    }
}

} // verus!
