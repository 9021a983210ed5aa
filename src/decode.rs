//! Proof decoding: the two fixed-size encodings and their common result.

use crate::bytes::all_zero;
use crate::convert::{convert_proof_a_from_snarkjs, point_with_negated_y};
use crate::engine::{g1_decompression, g2_decompression};
use crate::errors::{map_groth16_error, ZKPassportError};
use groth16_solana::decompression::{decompress_g1, decompress_g2};
use vstd::prelude::*;

verus! {

pub const G1_COMPRESSED_BYTES: usize = 32;

pub const G2_COMPRESSED_BYTES: usize = 64;

pub const G1_UNCOMPRESSED_BYTES: usize = 64;

pub const G2_UNCOMPRESSED_BYTES: usize = 128;

/// A compressed proof: `A` (32) then `B` (64) then `C` (32).
pub const COMPRESSED_PROOF_BYTES: usize = 128;

/// An uncompressed proof: `A` (64) then `B` (128) then `C` (64).
pub const UNCOMPRESSED_PROOF_BYTES: usize = 256;

/// The three uncompressed points of a proof, with `A` already in the
/// convention that the pairing check expects.
pub struct ParsedProof {
    pub proof_a: [u8; 64],
    pub proof_b: [u8; 128],
    pub proof_c: [u8; 64],
}

impl View for ParsedProof {
    type V = (Seq<u8>, Seq<u8>, Seq<u8>);

    open spec fn view(&self) -> (Seq<u8>, Seq<u8>, Seq<u8>) {
        (self.proof_a@, self.proof_b@, self.proof_c@)
    }
}

/// What decoding makes of proof bytes.
pub open spec fn decode_proof(bytes: Seq<u8>) -> Result<(Seq<u8>, Seq<u8>, Seq<u8>), ZKPassportError> {
    if bytes.len() == UNCOMPRESSED_PROOF_BYTES {
        Ok(
            (
                point_with_negated_y(bytes.subrange(0, 64)),
                bytes.subrange(64, 192),
                bytes.subrange(192, 256),
            ),
        )
    } else if bytes.len() == COMPRESSED_PROOF_BYTES {
        let a = bytes.subrange(0, 32);
        let b = bytes.subrange(32, 96);
        let c = bytes.subrange(96, 128);
        if all_zero(a) || all_zero(b) || all_zero(c) {
            Err(ZKPassportError::InvalidProof)
        } else {
            match (g1_decompression(a), g2_decompression(b), g1_decompression(c)) {
                (Some(pa), Some(pb), Some(pc)) => Ok((point_with_negated_y(pa), pb, pc)),
                _ => Err(ZKPassportError::InvalidProof),
            }
        }
    } else {
        Err(ZKPassportError::InvalidProof)
    }
}

/// Copies `N` bytes of `bytes` from `start` on.
fn slice_to_array<const N: usize>(bytes: &[u8], start: usize) -> (out: [u8; N])
    requires
        start + N <= bytes@.len(),
    ensures
        out@ == bytes@.subrange(start as int, start + N),
{
    let mut out = [0u8; N];
    let len = bytes.len();
    let mut i: usize = 0;
    while i < N
        invariant
            len == bytes@.len(),
            start + N <= bytes@.len(),
            0 <= i <= N,
            out@.len() == N,
            forall|k: int| 0 <= k < i ==> #[trigger] out@[k] == bytes@[start + k],
        decreases N - i,
    {
        out[i] = bytes[start + i];
        i += 1;
    }
    assert(out@ =~= bytes@.subrange(start as int, start + N));
    out
}

/// Whether every byte is zero.
fn is_all_zero(bytes: &[u8]) -> (r: bool)
    ensures
        r == all_zero(bytes@),
{
    let mut i: usize = 0;
    while i < bytes.len()
        invariant
            0 <= i <= bytes@.len(),
            forall|k: int| 0 <= k < i ==> bytes@[k] == 0,
        decreases bytes@.len() - i,
    {
        if bytes[i] != 0 {
            return false;
        }
        i += 1;
    }
    true
}

/// Splits proof bytes into `A`, `B` and `C`, decompressing them when the
/// proof is compressed, and negates the `y` coordinate of `A`.
pub fn parse_proof_bytes(proof_bytes: &[u8]) -> (r: Result<ParsedProof, ZKPassportError>)
    ensures
        match r {
            Ok(parsed) => decode_proof(proof_bytes@) == Ok::<_, ZKPassportError>(parsed@),
            Err(e) => decode_proof(proof_bytes@) == Err::<(Seq<u8>, Seq<u8>, Seq<u8>), _>(e),
        },
{
    if proof_bytes.len() == UNCOMPRESSED_PROOF_BYTES {
        let proof_a_raw = slice_to_array::<64>(proof_bytes, 0);
        let proof_b = slice_to_array::<128>(proof_bytes, 64);
        let proof_c = slice_to_array::<64>(proof_bytes, 192);
        let proof_a = convert_proof_a_from_snarkjs(&proof_a_raw);
        Ok(ParsedProof { proof_a, proof_b, proof_c })
    } else if proof_bytes.len() == COMPRESSED_PROOF_BYTES {
        let proof_a_compressed = slice_to_array::<32>(proof_bytes, 0);
        let proof_b_compressed = slice_to_array::<64>(proof_bytes, 32);
        let proof_c_compressed = slice_to_array::<32>(proof_bytes, 96);
        if is_all_zero(&proof_a_compressed) || is_all_zero(&proof_b_compressed) || is_all_zero(
            &proof_c_compressed,
        ) {
            return Err(ZKPassportError::InvalidProof);
        }
        let proof_a_raw = match decompress_g1(&proof_a_compressed) {
            Ok(point) => point,
            Err(e) => return Err(map_groth16_error(e)),
        };
        let proof_b = match decompress_g2(&proof_b_compressed) {
            Ok(point) => point,
            Err(e) => return Err(map_groth16_error(e)),
        };
        let proof_c = match decompress_g1(&proof_c_compressed) {
            Ok(point) => point,
            Err(e) => return Err(map_groth16_error(e)),
        };
        let proof_a = convert_proof_a_from_snarkjs(&proof_a_raw);
        Ok(ParsedProof { proof_a, proof_b, proof_c })
    } else {
        Err(ZKPassportError::InvalidProof)
    }
}

} // verus!
