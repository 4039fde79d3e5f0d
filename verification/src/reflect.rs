//! The bit reflector: reverses the order of the low `bits` bits of a
//! word.  Reflection is applied to the polynomial and the initial value
//! at construction time and, in bit-serial reflected mode, to the
//! register at read time.

use vstd::prelude::*;

use crate::model::{
    high_bit_of, lemma_or_assoc, lemma_or_zero, lemma_pow2_nonzero, lemma_pow2_shl1,
    lemma_pow2_shr1, reflect_k, spec_reflect,
};

verus! {

/// Reverse the order of the low `bits` bits of `n`: the bit at position
/// `bits - 1` lands at position 0, and so on.  Bits at or above position
/// `bits` are ignored.
pub fn reflect_value(bits: u8, n: u64) -> (r: u64)
    requires
        1 <= bits <= 64,
    ensures
        r == spec_reflect(bits as nat, n),
{
    let high_bit = 1u64 << ((bits - 1) as u64);
    let mut i = high_bit;
    let mut j = 1u64;
    let mut out = 0u64;
    let ghost mut t: nat = 0;

    proof {
        lemma_pow2_nonzero((bits - 1) as u64);
        assert(1u64 << 0u64 == 1u64) by (bit_vector);
        lemma_or_zero(reflect_k(n, high_bit, 1u64, bits as nat));
        assert(high_bit == high_bit_of(bits as nat));
    }

    while i != 0
        invariant
            1 <= bits <= 64,
            t <= bits as nat,
            i == (if t < bits as nat {
                1u64 << ((bits - 1 - t) as u64)
            } else {
                0u64
            }),
            t < bits as nat ==> j == 1u64 << (t as u64),
            out | reflect_k(n, i, j, (bits - t) as nat) == spec_reflect(bits as nat, n),
        decreases bits - t,
    {
        proof {
            if t >= bits as nat {
                assert(i == 0);
            }
            lemma_pow2_nonzero((bits - 1 - t) as u64);
            assert(t < bits as nat);
        }
        let ghost pre_i = i;
        let ghost pre_j = j;
        let ghost pre_out = out;
        let ghost k = (bits - t) as nat;

        if n & i != 0 {
            out = out | j;
        }
        j = j << 1;
        i = i >> 1;

        proof {
            t = t + 1;
            lemma_pow2_shr1((bits - 1 - (t - 1)) as u64);
            if t < bits as nat {
                lemma_pow2_shl1(((t - 1)) as u64);
            }
            let c: u64 = if n & pre_i != 0 {
                pre_j
            } else {
                0u64
            };
            assert(reflect_k(n, pre_i, pre_j, k) == c | reflect_k(
                n,
                pre_i >> 1,
                pre_j << 1,
                (k - 1) as nat,
            ));
            lemma_or_zero(pre_out);
            lemma_or_assoc(pre_out, c, reflect_k(n, pre_i >> 1, pre_j << 1, (k - 1) as nat));
            assert(out == pre_out | c);
        }
    }
    proof {
        if t < bits as nat {
            lemma_pow2_nonzero((bits - 1 - t) as u64);
        }
        assert(t == bits as nat);
        assert(reflect_k(n, i, j, 0) == 0u64);
        lemma_or_zero(out);
    }
    out
}

} // verus!
