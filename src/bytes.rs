use vstd::arithmetic::div_mod::{lemma_fundamental_div_mod_converse, lemma_mod_breakdown};
use vstd::prelude::*;

verus! {

/// `256^n`.
pub open spec fn pow256(n: nat) -> nat
    decreases n,
{
    if n == 0 {
        1
    } else {
        256 * pow256((n - 1) as nat)
    }
}

/// The unsigned integer whose little-endian bytes are `s`.
pub open spec fn le_value(s: Seq<u8>) -> nat
    decreases s.len(),
{
    if s.len() == 0 {
        0
    } else {
        le_value(s.drop_last()) + s.last() as nat * pow256((s.len() - 1) as nat)
    }
}

/// The unsigned integer whose big-endian bytes are `s`.
pub open spec fn be_value(s: Seq<u8>) -> nat {
    le_value(s.reverse())
}

/// The `len` low-order bytes of `n`, least significant first.
pub open spec fn le_bytes(n: nat, len: nat) -> Seq<u8>
    decreases len,
{
    if len == 0 {
        Seq::empty()
    } else {
        le_bytes(n, (len - 1) as nat).push(((n / pow256((len - 1) as nat)) % 256) as u8)
    }
}

/// The `len` low-order bytes of `n`, most significant first.
pub open spec fn be_bytes(n: nat, len: nat) -> Seq<u8> {
    le_bytes(n, len).reverse()
}

pub open spec fn all_zero(s: Seq<u8>) -> bool {
    forall|i: int| 0 <= i < s.len() ==> s[i] == 0
}

pub proof fn lemma_pow256_positive(n: nat)
    ensures
        pow256(n) > 0,
    decreases n,
{
    if n > 0 {
        lemma_pow256_positive((n - 1) as nat);
    }
}

pub proof fn lemma_le_value_bound(s: Seq<u8>)
    ensures
        le_value(s) < pow256(s.len()),
    decreases s.len(),
{
    if s.len() > 0 {
        let n = (s.len() - 1) as nat;
        lemma_le_value_bound(s.drop_last());
        let p = pow256(n);
        let lo = le_value(s.drop_last());
        let hi = s.last() as nat;
        assert(lo + hi * p < 256 * p) by (nonlinear_arith)
            requires
                lo < p,
                hi <= 255,
        ;
    }
}

/// Two byte strings of one length with the same value are the same.
pub proof fn lemma_le_value_injective(s: Seq<u8>, t: Seq<u8>)
    requires
        s.len() == t.len(),
        le_value(s) == le_value(t),
    ensures
        s == t,
    decreases s.len(),
{
    if s.len() > 0 {
        let n = (s.len() - 1) as nat;
        let p = pow256(n);
        lemma_pow256_positive(n);
        lemma_le_value_bound(s.drop_last());
        lemma_le_value_bound(t.drop_last());
        let x = le_value(s) as int;
        lemma_fundamental_div_mod_converse(x, p as int, s.last() as int, le_value(s.drop_last()) as int);
        lemma_fundamental_div_mod_converse(x, p as int, t.last() as int, le_value(t.drop_last()) as int);
        lemma_le_value_injective(s.drop_last(), t.drop_last());
        assert(s == s.drop_last().push(s.last()));
        assert(t == t.drop_last().push(t.last()));
    }
}

pub proof fn lemma_le_bytes_value(n: nat, len: nat)
    ensures
        le_bytes(n, len).len() == len,
        le_value(le_bytes(n, len)) == n % pow256(len),
    decreases len,
{
    if len == 0 {
        assert(n % 1 == 0) by (nonlinear_arith);
    } else {
        let k = (len - 1) as nat;
        lemma_le_bytes_value(n, k);
        lemma_pow256_positive(k);
        let s = le_bytes(n, len);
        let p = pow256(k);
        assert(s.drop_last() == le_bytes(n, k));
        let d = (n / p) % 256;
        assert(s.last() as nat == d);
        lemma_mod_breakdown(n as int, p as int, 256);
        assert(p * 256 == pow256(len));
        assert(le_value(s) == n % p + d * p);
        assert(n % pow256(len) == p * d + n % p);
        assert(p * d == d * p) by (nonlinear_arith);
    }
}

/// A byte string is the bytes of its own value.
pub proof fn lemma_le_bytes_of_value(s: Seq<u8>)
    ensures
        le_bytes(le_value(s), s.len()) == s,
{
    lemma_le_value_bound(s);
    lemma_le_bytes_value(le_value(s), s.len());
    assert(le_value(s) % pow256(s.len()) == le_value(s)) by {
        vstd::arithmetic::div_mod::lemma_small_mod(le_value(s), pow256(s.len()));
    }
    lemma_le_value_injective(le_bytes(le_value(s), s.len()), s);
}

/// Bytes whose value is `v` are the bytes of `v`, at their own length.
pub proof fn lemma_le_bytes_unique(s: Seq<u8>, v: nat)
    requires
        le_value(s) == v,
    ensures
        s == le_bytes(v, s.len()),
{
    lemma_le_bytes_of_value(s);
}

} // verus!
