use zassport::errors::ZKPassportError;
use zassport::identity::{
    verify_age_proof, verify_nationality_proof, verify_passport_proof, Identity, NullifierRegistry,
};
use zassport::keys::VerifyingKey;

fn key_for_inputs(count: usize) -> VerifyingKey {
    VerifyingKey {
        alpha_g1: [0u8; 64],
        beta_g2: [0u8; 128],
        gamma_g2: [0u8; 128],
        delta_g2: [0u8; 128],
        ic: vec![[0u8; 64]; count + 1],
    }
}

fn identity() -> Identity {
    Identity {
        owner: [9u8; 32],
        commitment: [1u8; 32],
        nullifier: [2u8; 32],
        reputation_score: 0,
        last_updated: 0,
        is_active: true,
        bump: 255,
    }
}

#[test]
fn age_check_wants_the_identity_commitment() {
    let err = verify_age_proof(&identity(), [3u8; 32], [2u8; 32], 1, 18, 65, &[1u8; 256], &key_for_inputs(5));
    assert_eq!(err, Err(ZKPassportError::InvalidCommitment));
}

#[test]
fn age_check_wants_the_identity_nullifier() {
    let err = verify_age_proof(&identity(), [1u8; 32], [3u8; 32], 1, 18, 65, &[1u8; 256], &key_for_inputs(5));
    assert_eq!(err, Err(ZKPassportError::InvalidNullifier));
}

#[test]
fn age_check_passes_on_the_verifier_error() {
    let err = verify_age_proof(&identity(), [1u8; 32], [2u8; 32], 1, 18, 65, &[1u8; 10], &key_for_inputs(5));
    assert_eq!(err, Err(ZKPassportError::InvalidProof));
    let err = verify_age_proof(&identity(), [1u8; 32], [2u8; 32], 1, 18, 65, &[1u8; 10], &key_for_inputs(3));
    assert_eq!(err, Err(ZKPassportError::InvalidVerificationKey));
}

#[test]
fn nationality_check_binds_the_identity() {
    let key = key_for_inputs(3);
    let id = identity();
    assert_eq!(
        verify_nationality_proof(&id, [0u8; 32], [2u8; 32], 840, &[1u8; 128], &key),
        Err(ZKPassportError::InvalidCommitment)
    );
    assert_eq!(
        verify_nationality_proof(&id, [1u8; 32], [0u8; 32], 840, &[1u8; 128], &key),
        Err(ZKPassportError::InvalidNullifier)
    );
    assert_eq!(
        verify_nationality_proof(&id, [1u8; 32], [2u8; 32], 840, &[0u8; 128], &key),
        Err(ZKPassportError::InvalidProof)
    );
}

#[test]
fn used_nullifier_cannot_register_again() {
    let mut registry = NullifierRegistry { nullifiers: vec![[5u8; 32], [2u8; 32]], authority: [7u8; 32], bump: 1 };
    let result = verify_passport_proof(&mut registry, [9u8; 32], [1u8; 32], [2u8; 32], &[1u8; 256], 1_704_067_200, 254, &key_for_inputs(5));
    assert!(matches!(result, Err(ZKPassportError::NullifierAlreadyUsed)));
    assert_eq!(registry.nullifiers, vec![[5u8; 32], [2u8; 32]]);
    assert!(registry.contains(&[2u8; 32]));
    assert!(!registry.contains(&[3u8; 32]));
}

#[test]
fn rejected_passport_proof_leaves_the_registry_alone() {
    let mut registry = NullifierRegistry { nullifiers: vec![[5u8; 32]], authority: [7u8; 32], bump: 1 };
    let result = verify_passport_proof(&mut registry, [9u8; 32], [1u8; 32], [2u8; 32], &[0u8; 128], 1_704_067_200, 254, &key_for_inputs(5));
    assert!(matches!(result, Err(ZKPassportError::InvalidProof)));
    let result = verify_passport_proof(&mut registry, [9u8; 32], [1u8; 32], [2u8; 32], &[0u8; 128], 1_704_067_200, 254, &key_for_inputs(3));
    assert!(matches!(result, Err(ZKPassportError::InvalidVerificationKey)));
    assert_eq!(registry.nullifiers, vec![[5u8; 32]]);
}
