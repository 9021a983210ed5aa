use crate::bytes::{be_bytes, be_value, le_bytes, lemma_le_bytes_unique};
use crate::field::{negate_field_element_in_place, negated_value};
use vstd::arithmetic::div_mod::lemma_fundamental_div_mod_converse;
use vstd::prelude::*;

verus! {

/// `s` with the bytes of each `chunk`-byte chunk in reverse order.
pub open spec fn chunks_reversed(s: Seq<u8>, chunk: nat) -> Seq<u8> {
    Seq::new(
        s.len(),
        |i: int| s[(i / chunk as int) * chunk as int + (chunk as int - 1 - i % chunk as int)],
    )
}

/// A big-endian 32-byte field element negated modulo the field modulus.
pub open spec fn negated_be(y: Seq<u8>) -> Seq<u8> {
    be_bytes(negated_value(be_value(y)), 32)
}

/// An uncompressed base-group point with its `y` coordinate negated; `x` is kept.
pub open spec fn point_with_negated_y(a: Seq<u8>) -> Seq<u8> {
    a.subrange(0, 32) + negated_be(a.subrange(32, 64))
}

/// A twisted-group point with the two 32-byte halves of each 64-byte coordinate exchanged.
pub open spec fn g2_halves_exchanged(p: Seq<u8>) -> Seq<u8> {
    p.subrange(32, 64) + p.subrange(0, 32) + p.subrange(96, 128) + p.subrange(64, 96)
}

/// Reverses the byte order inside each `CHUNK`-byte chunk of `value`.
pub fn swap_endianness_chunks<const N: usize, const CHUNK: usize>(value: &[u8; N]) -> (swapped: [u8; N])
    requires
        CHUNK > 0,
        N % CHUNK == 0,
    ensures
        swapped@ == chunks_reversed(value@, CHUNK as nat),
{
    let mut swapped = [0u8; N];
    let chunks: usize = N / CHUNK;
    proof {
        lemma_fundamental_div_mod_converse(N as int, CHUNK as int, chunks as int, 0);
        assert(chunks * CHUNK == N) by (nonlinear_arith)
            requires
                N == CHUNK * chunks + 0,
        ;
    }
    let mut c: usize = 0;
    while c < chunks
        invariant
            chunks * CHUNK == N,
            CHUNK > 0,
            0 <= c <= chunks,
            swapped@.len() == N,
            value@.len() == N,
            forall|k: int|
                0 <= k < c * CHUNK ==> #[trigger] swapped@[k] == chunks_reversed(
                    value@,
                    CHUNK as nat,
                )[k],
        decreases chunks - c,
    {
        proof {
            assert((c + 1) * CHUNK <= N) by (nonlinear_arith)
                requires
                    c < chunks,
                    chunks * CHUNK == N,
            ;
            assert((c + 1) * CHUNK == c * CHUNK + CHUNK) by (nonlinear_arith);
        }
        let start: usize = c * CHUNK;
        let mut i: usize = 0;
        while i < CHUNK
            invariant
                chunks * CHUNK == N,
                CHUNK > 0,
                c < chunks,
                start == c * CHUNK,
                start + CHUNK <= N,
                0 <= i <= CHUNK,
                swapped@.len() == N,
                value@.len() == N,
                forall|k: int|
                    0 <= k < start + i ==> #[trigger] swapped@[k] == chunks_reversed(
                        value@,
                        CHUNK as nat,
                    )[k],
            decreases CHUNK - i,
        {
            proof {
                lemma_fundamental_div_mod_converse(
                    (start + i) as int,
                    CHUNK as int,
                    c as int,
                    i as int,
                );
            }
            swapped[start + i] = value[start + CHUNK - 1 - i];
            i += 1;
        }
        c += 1;
    }
    proof {
        assert(swapped@ =~= chunks_reversed(value@, CHUNK as nat));
    }
    swapped
}

/// Reverses each 32-byte coordinate of an uncompressed base-group point.
pub fn swap_g1_endianness(value: &[u8; 64]) -> (swapped: [u8; 64])
    ensures
        swapped@ == chunks_reversed(value@, 32),
{
    swap_endianness_chunks::<64, 32>(value)
}

/// Reverses each 64-byte coordinate of an uncompressed twisted-group point.
pub fn swap_g2_endianness(value: &[u8; 128]) -> (swapped: [u8; 128])
    ensures
        swapped@ == chunks_reversed(value@, 64),
{
    swap_endianness_chunks::<128, 64>(value)
}

/// Exchanges the two halves of each extension-field coordinate of a
/// twisted-group point: `(c0, c1)` becomes `(c1, c0)`, for `x` and for `y`.
pub fn convert_snarkjs_g2_to_alt(point: [u8; 128]) -> (reordered: [u8; 128])
    ensures
        reordered@ == g2_halves_exchanged(point@),
{
    let mut reordered = [0u8; 128];
    let mut i: usize = 0;
    while i < 32
        invariant
            0 <= i <= 32,
            reordered@.len() == 128,
            forall|k: int| 0 <= k < i ==> #[trigger] reordered@[k] == point@[k + 32],
            forall|k: int| 32 <= k < 32 + i ==> #[trigger] reordered@[k] == point@[k - 32],
            forall|k: int| 64 <= k < 64 + i ==> #[trigger] reordered@[k] == point@[k + 32],
            forall|k: int| 96 <= k < 96 + i ==> #[trigger] reordered@[k] == point@[k - 32],
        decreases 32 - i,
    {
        reordered[i] = point[i + 32];
        reordered[i + 32] = point[i];
        reordered[i + 64] = point[i + 96];
        reordered[i + 96] = point[i + 64];
        i += 1;
    }
    proof {
        let r = reordered@;
        let p = point@;
        assert(r =~= g2_halves_exchanged(p));
    }
    reordered
}

/// Brings proof element `A` from the proving toolchain's convention to the
/// one the pairing check expects: the big-endian `y` coordinate is negated
/// modulo the field modulus (reversed to little-endian, negated, reversed
/// back); `x` is kept.
pub fn convert_proof_a_from_snarkjs(proof_a_be: &[u8; 64]) -> (converted: [u8; 64])
    ensures
        converted@ == point_with_negated_y(proof_a_be@),
{
    let mut y_le = [0u8; 32];
    let mut i: usize = 0;
    while i < 32
        invariant
            0 <= i <= 32,
            y_le@.len() == 32,
            forall|k: int| 0 <= k < i ==> y_le@[k] == proof_a_be@[63 - k],
        decreases 32 - i,
    {
        y_le[i] = proof_a_be[63 - i];
        i += 1;
    }
    let ghost y_be = proof_a_be@.subrange(32, 64);
    assert(y_le@ =~= y_be.reverse());
    negate_field_element_in_place(&mut y_le);
    let ghost n = negated_value(be_value(y_be));
    proof {
        lemma_le_bytes_unique(y_le@, n);
    }
    let mut converted = *proof_a_be;
    let mut j: usize = 0;
    while j < 32
        invariant
            0 <= j <= 32,
            converted@.len() == 64,
            y_le@ == le_bytes(n, 32),
            forall|k: int| 0 <= k < 32 ==> #[trigger] converted@[k] == proof_a_be@[k],
            forall|k: int| 32 <= k < 32 + j ==> #[trigger] converted@[k] == y_le@[63 - k],
        decreases 32 - j,
    {
        converted[32 + j] = y_le[31 - j];
        j += 1;
    }
    assert(converted@ =~= point_with_negated_y(proof_a_be@));
    converted
}

} // verus!
