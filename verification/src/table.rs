//! The table builder: 256-entry lookup tables that let an engine of
//! byte-aligned width consume a whole byte per update instead of one bit
//! at a time.

use vstd::prelude::*;

use crate::model::{
    fwd_round, fwd_rounds, fwd_table_entry, fwd_table_seq, high_bit_of, low_mask, rev_round,
    rev_rounds, rev_table_entry, rev_table_seq, zero_table_seq,
};

verus! {

/// Build the forward (non-reflected) lookup table: each candidate byte
/// is run through `bits` left-shifting serial rounds and confined to the
/// low `bits` bits.
pub fn make_table(poly: u64, bits: u8) -> (t: Vec<u64>)
    requires
        1 <= bits <= 64,
    ensures
        t@ == fwd_table_seq(poly, bits as nat),
{
    let high_bit = 1u64 << ((bits - 1) as u64);
    proof {
        crate::model::lemma_pow2_nonzero((bits - 1) as u64);
    }
    let mask = (((high_bit - 1) << 1) | 1);
    let mut t: Vec<u64> = Vec::new();
    let mut idx: usize = 0;
    while idx < 256
        invariant
            1 <= bits <= 64,
            high_bit == high_bit_of(bits as nat),
            mask == low_mask(bits as nat),
            idx <= 256,
            t@.len() == idx,
            forall|k: int|
                0 <= k < idx ==> t@[k] == fwd_table_entry(poly, bits as nat, k as u64),
        decreases 256 - idx,
    {
        let mut v: u64 = idx as u64;
        let mut r: u8 = 0;
        while r < bits
            invariant
                r <= bits,
                v == fwd_rounds(poly, high_bit, idx as u64, r as nat),
            decreases bits - r,
        {
            if v & high_bit == 0 {
                v = v << 1;
            } else {
                v = (v << 1) ^ poly;
            }
            r = r + 1;
        }
        t.push(v & mask);
        idx = idx + 1;
    }
    proof {
        assert(t@ =~= fwd_table_seq(poly, bits as nat));
    }
    t
}

/// Build the reflected lookup table: each candidate byte is run through
/// 8 right-shifting serial rounds against the pre-reflected polynomial.
pub fn make_reflect_table(poly_rev: u64) -> (t: Vec<u64>)
    ensures
        t@ == rev_table_seq(poly_rev),
{
    let mut t: Vec<u64> = Vec::new();
    let mut idx: usize = 0;
    while idx < 256
        invariant
            idx <= 256,
            t@.len() == idx,
            forall|k: int| 0 <= k < idx ==> t@[k] == rev_table_entry(poly_rev, k as u64),
        decreases 256 - idx,
    {
        let mut v: u64 = idx as u64;
        let mut r: u8 = 0;
        while r < 8
            invariant
                r <= 8,
                v == rev_rounds(poly_rev, idx as u64, r as nat),
            decreases 8 - r,
        {
            if v & 1 != 0 {
                v = (v >> 1) ^ poly_rev;
            } else {
                v = v >> 1;
            }
            r = r + 1;
        }
        t.push(v);
        idx = idx + 1;
    }
    proof {
        assert(t@ =~= rev_table_seq(poly_rev));
    }
    t
}

/// The 256-entry all-zero placeholder table held by an engine that
/// updates bit-serially.
pub fn zero_table() -> (t: Vec<u64>)
    ensures
        t@ == zero_table_seq(),
{
    let mut t: Vec<u64> = Vec::new();
    let mut idx: usize = 0;
    while idx < 256
        invariant
            idx <= 256,
            t@.len() == idx,
            forall|k: int| 0 <= k < idx ==> t@[k] == 0u64,
        decreases 256 - idx,
    {
        t.push(0u64);
        idx = idx + 1;
    }
    proof {
        assert(t@ =~= zero_table_seq());
    }
    t
}

} // verus!
