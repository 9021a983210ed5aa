//! Groth16 verification against a key, and the three circuits' entry points.

use crate::bytes::all_zero;
use crate::decode::{decode_proof, parse_proof_bytes};
use crate::engine::{g1_decompression, g2_decompression, groth16_accepts, run_pairing_check};
use crate::errors::{map_groth16_error, ZKPassportError};
use crate::inputs::{
    i64_field_element, i64_to_field_element_bytes, u64_field_element, u64_to_field_element_bytes,
};
use crate::keys::{VerifyingKey, VerifyingKeyModel};
use vstd::prelude::*;

verus! {

/// The public inputs as byte strings.
pub open spec fn inputs_model<const N: usize>(inputs: [[u8; 32]; N]) -> Seq<Seq<u8>> {
    inputs@.map_values(|x: [u8; 32]| x@)
}

/// The result of verifying `proof` for `inputs` against `key`: a key whose
/// `ic` table does not fit the inputs is refused before the proof is looked
/// at; then the proof is decoded; then the pairing equation decides.
pub open spec fn verification_outcome(
    proof: Seq<u8>,
    inputs: Seq<Seq<u8>>,
    key: VerifyingKeyModel,
) -> Result<bool, ZKPassportError> {
    if key.ic.len() != inputs.len() + 1 {
        Err(ZKPassportError::InvalidVerificationKey)
    } else {
        match decode_proof(proof) {
            Err(e) => Err(e),
            Ok((a, b, c)) => if groth16_accepts(a, b, c, inputs, key) {
                Ok(true)
            } else {
                Err(ZKPassportError::ProofVerificationFailed)
            },
        }
    }
}

/// Public inputs of the age-range and full-passport circuits, in circuit order.
pub open spec fn age_range_inputs(
    commitment: Seq<u8>,
    nullifier: Seq<u8>,
    current_timestamp: i64,
    min_age: u64,
    max_age: u64,
) -> Seq<Seq<u8>> {
    seq![
        commitment,
        nullifier,
        i64_field_element(current_timestamp),
        u64_field_element(min_age),
        u64_field_element(max_age),
    ]
}

/// Public inputs of the nationality circuit, in circuit order.
pub open spec fn nationality_inputs(
    commitment: Seq<u8>,
    nullifier: Seq<u8>,
    allowed_nationality: u64,
) -> Seq<Seq<u8>> {
    seq![commitment, nullifier, u64_field_element(allowed_nationality)]
}

/// Verifies a proof, compressed or not, for `public_inputs` against `vk`.
/// Succeeds only with `true`; a proof that does not pass the pairing check
/// gives `ProofVerificationFailed`.
pub fn verify_groth16_proof<const N: usize>(
    proof_bytes: &[u8],
    public_inputs: &[[u8; 32]; N],
    vk: &VerifyingKey,
) -> (r: Result<bool, ZKPassportError>)
    ensures
        r == verification_outcome(proof_bytes@, inputs_model(*public_inputs), vk.model()),
{
    if vk.ic.len() == 0 || vk.ic.len() - 1 != N {
        return Err(ZKPassportError::InvalidVerificationKey);
    }
    let parsed = match parse_proof_bytes(proof_bytes) {
        Ok(parsed) => parsed,
        Err(e) => return Err(e),
    };
    match run_pairing_check(&parsed.proof_a, &parsed.proof_b, &parsed.proof_c, public_inputs, vk) {
        Ok(()) => Ok(true),
        Err(e) => Err(map_groth16_error(e)),
    }
}

/// Verifies an age-range proof for a commitment, a nullifier, the current
/// time and an age range, against the age-range circuit's key `vk`.
pub fn verify_age_proof_groth16(
    proof: &[u8],
    commitment: [u8; 32],
    nullifier: [u8; 32],
    current_timestamp: i64,
    min_age: u64,
    max_age: u64,
    vk: &VerifyingKey,
) -> (r: Result<bool, ZKPassportError>)
    ensures
        r == verification_outcome(
            proof@,
            age_range_inputs(commitment@, nullifier@, current_timestamp, min_age, max_age),
            vk.model(),
        ),
{
    let public_inputs = [
        commitment,
        nullifier,
        i64_to_field_element_bytes(current_timestamp),
        u64_to_field_element_bytes(min_age),
        u64_to_field_element_bytes(max_age),
    ];
    assert(inputs_model(public_inputs) =~= age_range_inputs(
        commitment@,
        nullifier@,
        current_timestamp,
        min_age,
        max_age,
    ));
    verify_groth16_proof(proof, &public_inputs, vk)
}

/// Verifies a nationality proof for a commitment, a nullifier and an allowed
/// nationality code, against the nationality circuit's key `vk`.
pub fn verify_nationality_proof_groth16(
    proof: &[u8],
    commitment: [u8; 32],
    nullifier: [u8; 32],
    allowed_nationality: u64,
    vk: &VerifyingKey,
) -> (r: Result<bool, ZKPassportError>)
    ensures
        r == verification_outcome(
            proof@,
            nationality_inputs(commitment@, nullifier@, allowed_nationality),
            vk.model(),
        ),
{
    let public_inputs = [commitment, nullifier, u64_to_field_element_bytes(allowed_nationality)];
    assert(inputs_model(public_inputs) =~= nationality_inputs(
        commitment@,
        nullifier@,
        allowed_nationality,
    ));
    verify_groth16_proof(proof, &public_inputs, vk)
}

/// Verifies a full-passport proof for a commitment, a nullifier, the current
/// time and an age range, against the full-passport circuit's key `vk`.
pub fn verify_passport_proof_groth16(
    proof: &[u8],
    commitment: [u8; 32],
    nullifier: [u8; 32],
    current_timestamp: i64,
    min_age: u64,
    max_age: u64,
    vk: &VerifyingKey,
) -> (r: Result<bool, ZKPassportError>)
    ensures
        r == verification_outcome(
            proof@,
            age_range_inputs(commitment@, nullifier@, current_timestamp, min_age, max_age),
            vk.model(),
        ),
{
    let public_inputs = [
        commitment,
        nullifier,
        i64_to_field_element_bytes(current_timestamp),
        u64_to_field_element_bytes(min_age),
        u64_to_field_element_bytes(max_age),
    ];
    assert(inputs_model(public_inputs) =~= age_range_inputs(
        commitment@,
        nullifier@,
        current_timestamp,
        min_age,
        max_age,
    ));
    verify_groth16_proof(proof, &public_inputs, vk)
}

/// Proof bytes of any length but the compressed and the uncompressed one are
/// malformed, whatever the inputs and the key.
pub proof fn lemma_length_validation(proof: Seq<u8>, inputs: Seq<Seq<u8>>, key: VerifyingKeyModel)
    requires
        proof.len() != 128,
        proof.len() != 256,
    ensures
        decode_proof(proof) == Err::<(Seq<u8>, Seq<u8>, Seq<u8>), _>(ZKPassportError::InvalidProof),
        key.ic.len() == inputs.len() + 1 ==> verification_outcome(proof, inputs, key) == Err::<
            bool,
            _,
        >(ZKPassportError::InvalidProof),
{
}

/// A compressed proof with an all-zero element is malformed, and the pairing
/// equation plays no part in the outcome.
pub proof fn lemma_zero_point_rejection(
    proof: Seq<u8>,
    inputs: Seq<Seq<u8>>,
    key: VerifyingKeyModel,
)
    requires
        proof.len() == 128,
        all_zero(proof.subrange(0, 32)) || all_zero(proof.subrange(32, 96)) || all_zero(
            proof.subrange(96, 128),
        ),
    ensures
        decode_proof(proof) == Err::<(Seq<u8>, Seq<u8>, Seq<u8>), _>(ZKPassportError::InvalidProof),
        key.ic.len() == inputs.len() + 1 ==> verification_outcome(proof, inputs, key) == Err::<
            bool,
            _,
        >(ZKPassportError::InvalidProof),
{
}

/// A compressed proof whose three elements decompress to the three elements
/// of an uncompressed proof decodes to the same points and gets the same
/// verdict. An all-zero compressed element is left out: it is refused
/// before decompression.
pub proof fn lemma_round_trip(
    uncompressed: Seq<u8>,
    compressed: Seq<u8>,
    inputs: Seq<Seq<u8>>,
    key: VerifyingKeyModel,
)
    requires
        uncompressed.len() == 256,
        compressed.len() == 128,
        g1_decompression(compressed.subrange(0, 32)) == Some(uncompressed.subrange(0, 64)),
        g2_decompression(compressed.subrange(32, 96)) == Some(uncompressed.subrange(64, 192)),
        g1_decompression(compressed.subrange(96, 128)) == Some(uncompressed.subrange(192, 256)),
        !all_zero(compressed.subrange(0, 32)),
        !all_zero(compressed.subrange(32, 96)),
        !all_zero(compressed.subrange(96, 128)),
    ensures
        decode_proof(compressed) == decode_proof(uncompressed),
        verification_outcome(compressed, inputs, key) == verification_outcome(
            uncompressed,
            inputs,
            key,
        ),
{
}

/// The verdict depends on the proof, the inputs and the key alone: equal
/// arguments give equal verdicts.
pub proof fn lemma_verdict_deterministic(
    proof1: Seq<u8>,
    inputs1: Seq<Seq<u8>>,
    key1: VerifyingKeyModel,
    proof2: Seq<u8>,
    inputs2: Seq<Seq<u8>>,
    key2: VerifyingKeyModel,
)
    requires
        proof1 == proof2,
        inputs1 == inputs2,
        key1 == key2,
    ensures
        verification_outcome(proof1, inputs1, key1) == verification_outcome(proof2, inputs2, key2),
{
}

/// A key whose `ic` table does not hold one entry more than there are inputs
/// is refused as such, whatever the proof.
pub proof fn lemma_key_input_count(proof: Seq<u8>, inputs: Seq<Seq<u8>>, key: VerifyingKeyModel)
    requires
        key.ic.len() != inputs.len() + 1,
    ensures
        verification_outcome(proof, inputs, key) == Err::<bool, _>(
            ZKPassportError::InvalidVerificationKey,
        ),
{
}

} // verus!
