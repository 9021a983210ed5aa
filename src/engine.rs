//! What this library relies on from the groth16-solana crate.

use crate::keys::{VerifyingKey, VerifyingKeyModel};
use groth16_solana::decompression::{decompress_g1, decompress_g2};
use groth16_solana::errors::Groth16Error;
use groth16_solana::groth16::{Groth16Verifier, Groth16Verifyingkey};
use vstd::prelude::*;

verus! {

/// The error type of groth16-solana.
#[verifier::external_type_specification]
pub struct ExGroth16Error(Groth16Error);

/// The uncompressed form of a compressed base-group point, if it is one.
pub uninterp spec fn g1_decompression(compressed: Seq<u8>) -> Option<Seq<u8>>;

/// The uncompressed form of a compressed twisted-group point, if it is one.
pub uninterp spec fn g2_decompression(compressed: Seq<u8>) -> Option<Seq<u8>>;

/// Whether the Groth16 pairing equation holds for proof elements `a`, `b`,
/// `c`, the public inputs and the key.
pub uninterp spec fn groth16_accepts(
    a: Seq<u8>,
    b: Seq<u8>,
    c: Seq<u8>,
    inputs: Seq<Seq<u8>>,
    key: VerifyingKeyModel,
) -> bool;

/// Relies on groth16_solana::decompression::decompress_g1: its result depends
/// on the 32 bytes alone, and its only error is `DecompressingG1Failed`.
pub assume_specification[ decompress_g1 ](g1_bytes: &[u8; 32]) -> (r: Result<[u8; 64], Groth16Error>)
    ensures
        match r {
            Ok(point) => g1_decompression(g1_bytes@) == Some(point@),
            Err(e) => g1_decompression(g1_bytes@) is None && e == Groth16Error::DecompressingG1Failed,
        },
;

/// Relies on groth16_solana::decompression::decompress_g2: its result depends
/// on the 64 bytes alone, and its only error is `DecompressingG2Failed`.
pub assume_specification[ decompress_g2 ](g2_bytes: &[u8; 64]) -> (r: Result<[u8; 128], Groth16Error>)
    ensures
        match r {
            Ok(point) => g2_decompression(g2_bytes@) == Some(point@),
            Err(e) => g2_decompression(g2_bytes@) is None && e == Groth16Error::DecompressingG2Failed,
        },
;

/// Relies on groth16_solana's `Groth16Verifier::new` and `Groth16Verifier::verify`.
/// `new` fails only when the key's `ic` table does not hold one entry more
/// than there are inputs, which `requires` rules out. `verify` succeeds
/// exactly when the pairing equation holds, and fails otherwise with one of
/// the errors it raises while preparing the inputs or checking the pairing.
#[verifier::external_body]
pub(crate) fn run_pairing_check<const N: usize>(
    proof_a: &[u8; 64],
    proof_b: &[u8; 128],
    proof_c: &[u8; 64],
    public_inputs: &[[u8; 32]; N],
    vk: &VerifyingKey,
) -> (r: Result<(), Groth16Error>)
    requires
        vk.ic@.len() == N + 1,
    ensures
        r is Ok <==> groth16_accepts(
            proof_a@,
            proof_b@,
            proof_c@,
            public_inputs@.map_values(|x: [u8; 32]| x@),
            vk.model(),
        ),
        r matches Err(e) ==> (e == Groth16Error::ProofVerificationFailed || e
            == Groth16Error::PublicInputGreaterThanFieldSize || e
            == Groth16Error::PreparingInputsG1MulFailed || e
            == Groth16Error::PreparingInputsG1AdditionFailed),
{
    let key = Groth16Verifyingkey {
        nr_pubinputs: N,
        vk_alpha_g1: vk.alpha_g1,
        vk_beta_g2: vk.beta_g2,
        vk_gamme_g2: vk.gamma_g2,
        vk_delta_g2: vk.delta_g2,
        vk_ic: vk.ic.as_slice(),
    };
    let mut verifier = Groth16Verifier::new(proof_a, proof_b, proof_c, public_inputs, &key)?;
    verifier.verify()
}

} // verus!
