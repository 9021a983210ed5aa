//! Verification keys.

use vstd::prelude::*;

verus! {

/// A Groth16 verification key: the generators `alpha` (base group), `beta`,
/// `gamma` and `delta` (twisted group), and one base-group point of `ic` for
/// the constant term and for each public input.
pub struct VerifyingKey {
    pub alpha_g1: [u8; 64],
    pub beta_g2: [u8; 128],
    pub gamma_g2: [u8; 128],
    pub delta_g2: [u8; 128],
    pub ic: Vec<[u8; 64]>,
}

/// The bytes of a verification key.
pub ghost struct VerifyingKeyModel {
    pub alpha: Seq<u8>,
    pub beta: Seq<u8>,
    pub gamma: Seq<u8>,
    pub delta: Seq<u8>,
    pub ic: Seq<Seq<u8>>,
}

impl VerifyingKey {
    pub open spec fn model(&self) -> VerifyingKeyModel {
        VerifyingKeyModel {
            alpha: self.alpha_g1@,
            beta: self.beta_g2@,
            gamma: self.gamma_g2@,
            delta: self.delta_g2@,
            ic: self.ic@.map_values(|p: [u8; 64]| p@),
        }
    }
}

} // verus!
