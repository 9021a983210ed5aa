use crate::bytes::{
    all_zero, le_value, lemma_le_value_bound, lemma_le_value_injective, lemma_pow256_positive, pow256,
};
use vstd::arithmetic::div_mod::lemma_fundamental_div_mod_converse;
use vstd::prelude::*;

verus! {

/// The modulus of the BN254 base field, least significant byte first:
/// 21888242871839275222246405745257275088696311157297823662689037894645226208583.
pub const FIELD_MODULUS_LE: [u8; 32] = [
    71, 253, 124, 216, 22, 140, 32, 60, 141, 202, 113, 104, 145, 106, 129, 151, 93, 88, 129, 129,
    182, 69, 80, 184, 41, 160, 49, 225, 114, 78, 100, 48,
];

/// The field modulus as a number.
pub open spec fn field_modulus() -> nat {
    le_value(FIELD_MODULUS_LE@)
}

/// What negation does to the value of a 32-byte little-endian string: zero
/// stays zero, and any other `v` becomes `modulus - v`, wrapped to 256 bits.
/// Below the modulus this is the additive inverse.
pub open spec fn negated_value(v: nat) -> nat {
    if v == 0 {
        0
    } else {
        ((field_modulus() - v) % (pow256(32) as int)) as nat
    }
}

proof fn lemma_zero_value(s: Seq<u8>)
    ensures
        all_zero(s) <==> le_value(s) == 0,
    decreases s.len(),
{
    if s.len() > 0 {
        let k = (s.len() - 1) as nat;
        lemma_zero_value(s.drop_last());
        lemma_pow256_positive(k);
        let p = pow256(k);
        let x = s.last() as nat;
        assert(x * p == 0 ==> x == 0) by (nonlinear_arith)
            requires
                p > 0,
        ;
        if all_zero(s) {
            assert(all_zero(s.drop_last()));
        }
        if le_value(s) == 0 {
            assert forall|i: int| 0 <= i < s.len() implies s[i] == 0 by {
                if i < s.len() - 1 {
                    assert(s[i] == s.drop_last()[i]);
                }
            }
        }
    }
}

/// Replaces a 32-byte little-endian field element by its negation modulo the
/// field modulus. Zero is left as it is. The loop runs over all 32 bytes for
/// every nonzero input.
pub fn negate_field_element_in_place(value: &mut [u8])
    requires
        old(value)@.len() == 32,
    ensures
        final(value)@.len() == 32,
        le_value(final(value)@) == negated_value(le_value(old(value)@)),
{
    let mut nonzero = false;
    let mut k: usize = 0;
    while k < 32
        invariant
            value@ == old(value)@,
            value@.len() == 32,
            0 <= k <= 32,
            nonzero <==> exists|j: int| 0 <= j < k && value@[j] != 0,
        decreases 32 - k,
    {
        if value[k] != 0 {
            nonzero = true;
        }
        k += 1;
    }
    proof {
        lemma_zero_value(old(value)@);
    }
    if !nonzero {
        return;
    }
    let ghost original = value@;
    let modulus: [u8; 32] = FIELD_MODULUS_LE;
    let mut borrow: u16 = 0;
    let mut i: usize = 0;
    while i < 32
        invariant
            original == old(value)@,
            original.len() == 32,
            modulus@ == FIELD_MODULUS_LE@,
            value@.len() == 32,
            0 <= i <= 32,
            borrow <= 1,
            forall|j: int| i <= j < 32 ==> value@[j] == original[j],
            le_value(value@.take(i as int)) + le_value(original.take(i as int)) == le_value(
                modulus@.take(i as int),
            ) + borrow * pow256(i as nat),
        decreases 32 - i,
    {
        let m = modulus[i] as u16;
        let v = value[i] as u16;
        let diff = m.wrapping_sub(v).wrapping_sub(borrow);
        let byte = (diff & 0xff) as u8;
        let next: u16 = if diff > 0xff {
            1
        } else {
            0
        };
        proof {
            assert(diff & 0xff == diff % 256) by (bit_vector);
            assert(byte as int == diff % 256);
            assert(byte as int + v + borrow == m + 256 * next);
        }
        let ghost before = value@;
        value[i] = byte;
        proof {
            let ii = i as int;
            assert(value@.take(ii + 1).drop_last() =~= before.take(ii));
            assert(original.take(ii + 1).drop_last() =~= original.take(ii));
            assert(modulus@.take(ii + 1).drop_last() =~= modulus@.take(ii));
            let p = pow256(i as nat);
            let a = le_value(before.take(ii));
            let b = le_value(original.take(ii));
            let c = le_value(modulus@.take(ii));
            assert((byte as nat) * p + (v as nat) * p + borrow * p == (m as nat) * p + next * (256
                * p)) by (nonlinear_arith)
                requires
                    byte as int + v + borrow == m + 256 * next,
            ;
        }
        borrow = next;
        i += 1;
    }
    proof {
        let out = value@;
        let v = le_value(original);
        let n = pow256(32) as int;
        assert(out.take(32) =~= out);
        assert(original.take(32) =~= original);
        assert(modulus@.take(32) =~= modulus@);
        lemma_le_value_bound(out);
        assert(le_value(out) + v == field_modulus() + borrow * pow256(32));
        assert(field_modulus() - v == -(borrow as int) * n + le_value(out)) by (nonlinear_arith)
            requires
                le_value(out) + v == field_modulus() + borrow * pow256(32),
                n == pow256(32),
        ;
        lemma_fundamental_div_mod_converse(
            field_modulus() - v,
            n,
            -(borrow as int),
            le_value(out) as int,
        );
    }
}

/// Negating twice gives back any value below the modulus, and zero is its own negation.
pub proof fn lemma_negation_involution(v: nat)
    requires
        v < field_modulus(),
    ensures
        negated_value(negated_value(v)) == v,
        negated_value(0) == 0,
{
    lemma_le_value_bound(FIELD_MODULUS_LE@);
    let n = pow256(32) as int;
    if v != 0 {
        lemma_fundamental_div_mod_converse(field_modulus() - v, n, 0, field_modulus() - v);
        let w = (field_modulus() - v) as nat;
        lemma_fundamental_div_mod_converse(field_modulus() - w, n, 0, v as int);
    }
}

/// Applying the negation twice to a 32-byte element below the modulus gives
/// back the same bytes: `once` is what the first application leaves, `twice`
/// what the second leaves.
pub proof fn lemma_negate_twice(value: Seq<u8>, once: Seq<u8>, twice: Seq<u8>)
    requires
        value.len() == 32,
        once.len() == 32,
        twice.len() == 32,
        le_value(value) < field_modulus(),
        le_value(once) == negated_value(le_value(value)),
        le_value(twice) == negated_value(le_value(once)),
    ensures
        twice == value,
{
    lemma_negation_involution(le_value(value));
    lemma_le_value_injective(twice, value);
}

} // verus!
