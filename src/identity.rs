//! Identities anchored to a passport, and the checks that bind a proof to one.

use crate::errors::ZKPassportError;
use crate::groth16::{
    age_range_inputs, nationality_inputs, verification_outcome, verify_age_proof_groth16,
    verify_nationality_proof_groth16, verify_passport_proof_groth16,
};
use crate::keys::VerifyingKey;
use vstd::prelude::*;

verus! {

/// The youngest age a full-passport proof is checked for at registration.
pub const REGISTRATION_MIN_AGE: u64 = 18;

/// The oldest age a full-passport proof is checked for at registration.
pub const REGISTRATION_MAX_AGE: u64 = 120;

/// An identity registered from a passport proof.
pub struct Identity {
    /// The owning wallet's public key.
    pub owner: [u8; 32],
    /// Hash of the passport data and a salt.
    pub commitment: [u8; 32],
    /// Value derived from the passport that keeps it from registering twice.
    pub nullifier: [u8; 32],
    pub reputation_score: u64,
    pub last_updated: i64,
    pub is_active: bool,
    pub bump: u8,
}

/// The nullifiers of all registered identities.
pub struct NullifierRegistry {
    pub nullifiers: Vec<[u8; 32]>,
    pub authority: [u8; 32],
    pub bump: u8,
}

impl NullifierRegistry {
    /// The registered nullifiers as byte strings.
    pub open spec fn used(&self) -> Seq<Seq<u8>> {
        self.nullifiers@.map_values(|n: [u8; 32]| n@)
    }

    /// Whether `nullifier` is registered.
    pub fn contains(&self, nullifier: &[u8; 32]) -> (found: bool)
        ensures
            found == self.used().contains(nullifier@),
    {
        let mut i: usize = 0;
        while i < self.nullifiers.len()
            invariant
                0 <= i <= self.nullifiers@.len(),
                forall|k: int| 0 <= k < i ==> self.used()[k] != nullifier@,
            decreases self.nullifiers@.len() - i,
        {
            if same_bytes(&self.nullifiers[i], nullifier) {
                assert(self.used()[i as int] == nullifier@);
                return true;
            }
            i += 1;
        }
        false
    }
}

/// Whether two 32-byte values are equal.
fn same_bytes(a: &[u8; 32], b: &[u8; 32]) -> (same: bool)
    ensures
        same == (a@ == b@),
{
    let mut i: usize = 0;
    while i < 32
        invariant
            0 <= i <= 32,
            forall|k: int| 0 <= k < i ==> a@[k] == b@[k],
        decreases 32 - i,
    {
        if a[i] != b[i] {
            return false;
        }
        i += 1;
    }
    assert(a@ =~= b@);
    true
}

/// A verdict as a check on an identity: a proof is accepted only with `true`.
pub open spec fn as_check(verdict: Result<bool, ZKPassportError>) -> Result<(), ZKPassportError> {
    match verdict {
        Ok(true) => Ok(()),
        Ok(false) => Err(ZKPassportError::InvalidProof),
        Err(e) => Err(e),
    }
}

/// The outcome of checking a proof for `identity`: the commitment and then the
/// nullifier must be the identity's own before the proof is looked at.
pub open spec fn identity_check(
    identity: Identity,
    commitment: Seq<u8>,
    nullifier: Seq<u8>,
    verdict: Result<bool, ZKPassportError>,
) -> Result<(), ZKPassportError> {
    if identity.commitment@ != commitment {
        Err(ZKPassportError::InvalidCommitment)
    } else if identity.nullifier@ != nullifier {
        Err(ZKPassportError::InvalidNullifier)
    } else {
        as_check(verdict)
    }
}

fn accept(verdict: Result<bool, ZKPassportError>) -> (r: Result<(), ZKPassportError>)
    ensures
        r == as_check(verdict),
{
    match verdict {
        Ok(true) => Ok(()),
        Ok(false) => Err(ZKPassportError::InvalidProof),
        Err(e) => Err(e),
    }
}

/// Checks an age-range proof for a registered identity.
pub fn verify_age_proof(
    identity: &Identity,
    commitment: [u8; 32],
    nullifier: [u8; 32],
    current_timestamp: i64,
    min_age: u64,
    max_age: u64,
    proof: &[u8],
    vk: &VerifyingKey,
) -> (r: Result<(), ZKPassportError>)
    ensures
        r == identity_check(
            *identity,
            commitment@,
            nullifier@,
            verification_outcome(
                proof@,
                age_range_inputs(commitment@, nullifier@, current_timestamp, min_age, max_age),
                vk.model(),
            ),
        ),
{
    if !same_bytes(&identity.commitment, &commitment) {
        return Err(ZKPassportError::InvalidCommitment);
    }
    if !same_bytes(&identity.nullifier, &nullifier) {
        return Err(ZKPassportError::InvalidNullifier);
    }
    accept(
        verify_age_proof_groth16(
            proof,
            commitment,
            nullifier,
            current_timestamp,
            min_age,
            max_age,
            vk,
        ),
    )
}

/// Checks a nationality proof for a registered identity.
pub fn verify_nationality_proof(
    identity: &Identity,
    commitment: [u8; 32],
    nullifier: [u8; 32],
    allowed_nationality: u64,
    proof: &[u8],
    vk: &VerifyingKey,
) -> (r: Result<(), ZKPassportError>)
    ensures
        r == identity_check(
            *identity,
            commitment@,
            nullifier@,
            verification_outcome(
                proof@,
                nationality_inputs(commitment@, nullifier@, allowed_nationality),
                vk.model(),
            ),
        ),
{
    if !same_bytes(&identity.commitment, &commitment) {
        return Err(ZKPassportError::InvalidCommitment);
    }
    if !same_bytes(&identity.nullifier, &nullifier) {
        return Err(ZKPassportError::InvalidNullifier);
    }
    accept(verify_nationality_proof_groth16(proof, commitment, nullifier, allowed_nationality, vk))
}

/// Registers the identity that a full-passport proof stands for. The
/// nullifier must be new; the proof is checked for the current time and the
/// registration age range; then the nullifier is recorded and the identity
/// is returned, active and with no reputation yet. On any error the registry
/// is left as it was.
pub fn verify_passport_proof(
    registry: &mut NullifierRegistry,
    owner: [u8; 32],
    commitment: [u8; 32],
    nullifier: [u8; 32],
    proof: &[u8],
    current_time: i64,
    bump: u8,
    vk: &VerifyingKey,
) -> (r: Result<Identity, ZKPassportError>)
    ensures
        ({
            let verdict = verification_outcome(
                proof@,
                age_range_inputs(
                    commitment@,
                    nullifier@,
                    current_time,
                    REGISTRATION_MIN_AGE,
                    REGISTRATION_MAX_AGE,
                ),
                vk.model(),
            );
            if old(registry).used().contains(nullifier@) {
                r == Err::<Identity, _>(ZKPassportError::NullifierAlreadyUsed)
            } else {
                match as_check(verdict) {
                    Err(e) => r == Err::<Identity, _>(e),
                    Ok(()) => r is Ok,
                }
            }
        }),
        r is Err ==> *final(registry) == *old(registry),
        r matches Ok(identity) ==> {
            &&& final(registry).used() == old(registry).used().push(nullifier@)
            &&& final(registry).authority == old(registry).authority
            &&& final(registry).bump == old(registry).bump
            &&& identity == (Identity {
                owner,
                commitment,
                nullifier,
                reputation_score: 0,
                last_updated: current_time,
                is_active: true,
                bump,
            })
        },
{
    if registry.contains(&nullifier) {
        return Err(ZKPassportError::NullifierAlreadyUsed);
    }
    let verdict = verify_passport_proof_groth16(
        proof,
        commitment,
        nullifier,
        current_time,
        REGISTRATION_MIN_AGE,
        REGISTRATION_MAX_AGE,
        vk,
    );
    match accept(verdict) {
        Err(e) => return Err(e),
        Ok(()) => {},
    }
    registry.nullifiers.push(nullifier);
    assert(registry.used() =~= old(registry).used().push(nullifier@));
    Ok(
        Identity {
            owner,
            commitment,
            nullifier,
            reputation_score: 0,
            last_updated: current_time,
            is_active: true,
            bump,
        },
    )
}

} // verus!
