//! Public inputs as 32-byte big-endian field elements.

use crate::bytes::{be_bytes, le_bytes, pow256};
use vstd::arithmetic::div_mod::lemma_div_denominator;
use vstd::prelude::*;

verus! {

/// The field element of a 64-bit unsigned integer: its value in 32 bytes, big-endian.
pub open spec fn u64_field_element(value: u64) -> Seq<u8> {
    be_bytes(value as nat, 32)
}

/// The field element of a 64-bit signed integer: its 64-bit two's-complement
/// pattern in the low 8 bytes, zero above.
pub open spec fn i64_field_element(value: i64) -> Seq<u8> {
    u64_field_element(value as u64)
}

proof fn lemma_le_bytes_index(n: nat, len: nat, i: int)
    requires
        0 <= i < len,
    ensures
        le_bytes(n, len).len() == len,
        le_bytes(n, len)[i] == ((n / pow256(i as nat)) % 256) as u8,
    decreases len,
{
    crate::bytes::lemma_le_bytes_value(n, len);
    if i < len - 1 {
        lemma_le_bytes_index(n, (len - 1) as nat, i);
    }
}

/// Writes `value` big-endian into the last 8 of 32 bytes; the first 24 are zero.
pub fn u64_to_field_element_bytes(value: u64) -> (bytes: [u8; 32])
    ensures
        bytes@ == u64_field_element(value),
{
    let mut bytes = [0u8; 32];
    let mut rest: u64 = value;
    let mut k: usize = 0;
    proof {
        assert(pow256(0) == 1);
        assert(value as nat / 1 == value as nat);
    }
    while k < 32
        invariant
            0 <= k <= 32,
            bytes@.len() == 32,
            rest as nat == value as nat / pow256(k as nat),
            forall|j: int| 0 <= j < 32 - k ==> #[trigger] bytes@[j] == 0,
            forall|j: int|
                32 - k <= j < 32 ==> #[trigger] bytes@[j] == ((value as nat / pow256(
                    (31 - j) as nat,
                )) % 256) as u8,
        decreases 32 - k,
    {
        bytes[31 - k] = (rest % 256) as u8;
        proof {
            crate::bytes::lemma_pow256_positive(k as nat);
            lemma_div_denominator(value as int, pow256(k as nat) as int, 256);
            assert(pow256(k as nat) * 256 == pow256((k + 1) as nat));
        }
        rest = rest / 256;
        k += 1;
    }
    proof {
        let n = value as nat;
        crate::bytes::lemma_le_bytes_value(n, 32);
        assert forall|j: int| 0 <= j < 32 implies #[trigger] bytes@[j] == be_bytes(n, 32)[j] by {
            lemma_le_bytes_index(n, 32, 31 - j);
        }
        assert(bytes@ =~= be_bytes(n, 32));
    }
    bytes
}

/// Writes the 64-bit two's-complement pattern of `value` big-endian into the
/// last 8 of 32 bytes; the first 24 are zero.
pub fn i64_to_field_element_bytes(value: i64) -> (bytes: [u8; 32])
    ensures
        bytes@ == i64_field_element(value),
{
    u64_to_field_element_bytes(value as u64)
}

} // verus!
