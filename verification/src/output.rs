//! The output formatter: serializing a finished CRC value to its
//! minimal-length big- or little-endian byte sequence, and the facts
//! relating the two encodings to each other and back to the value.

use vstd::prelude::*;

use crate::model::{be_bytes, be_partial, byte_of, le_bytes, le_decode, low_mask, reorder_partial};

verus! {

/// The `e` low bytes of `v`, least significant first.
pub fn crc_bytes_le(v: u64, e: u8) -> (r: Vec<u8>)
    requires
        1 <= e <= 8,
    ensures
        r@ == le_bytes(v, e as nat),
{
    let mut r: Vec<u8> = Vec::new();
    let mut k: u8 = 0;
    while k < e
        invariant
            e <= 8,
            k <= e,
            r@ == le_bytes(v, k as nat),
        decreases e - k,
    {
        r.push(((v >> ((8 * k) as u64)) & 0xFF) as u8);
        k = k + 1;
    }
    r
}

/// The `e` low bytes of `v`, most significant first.
pub fn crc_bytes_be(v: u64, e: u8) -> (r: Vec<u8>)
    requires
        1 <= e <= 8,
    ensures
        r@ == be_bytes(v, e as nat),
{
    let mut r: Vec<u8> = Vec::new();
    let mut k: u8 = 0;
    while k < e
        invariant
            1 <= e <= 8,
            k <= e,
            r@ == be_partial(v, e as nat, k as nat),
        decreases e - k,
    {
        r.push(((v >> ((8 * (e - 1 - k)) as u64)) & 0xFF) as u8);
        k = k + 1;
    }
    r
}

/// Index characterization of the little-endian encoding.
pub proof fn lemma_le_index(v: u64, n: nat)
    requires
        n <= 8,
    ensures
        le_bytes(v, n).len() == n,
        forall|k: int| 0 <= k < n ==> le_bytes(v, n)[k] == byte_of(v, k as nat),
    decreases n,
{
    if n > 0 {
        lemma_le_index(v, (n - 1) as nat);
    }
}

/// Index characterization of the big-endian encoding.
pub proof fn lemma_be_index(v: u64, e: nat, i: nat)
    requires
        i <= e <= 8,
    ensures
        be_partial(v, e, i).len() == i,
        forall|k: int| 0 <= k < i ==> be_partial(v, e, i)[k] == byte_of(v, (e - 1 - k) as nat),
    decreases i,
{
    if i > 0 {
        lemma_be_index(v, e, (i - 1) as nat);
    }
}

/// The big-endian and little-endian encodings of the same value are
/// exact byte-order reversals of each other.
pub proof fn lemma_endian_reverse(v: u64, e: nat)
    requires
        1 <= e <= 8,
    ensures
        be_bytes(v, e) == le_bytes(v, e).reverse(),
{
    lemma_le_index(v, e);
    lemma_be_index(v, e, e);
    assert(be_bytes(v, e) =~= le_bytes(v, e).reverse());
}

/// One step of reassembling a value from its low bytes.
proof fn lemma_decode_step(v: u64, s: u64)
    by (bit_vector)
    requires
        s <= 48,
    ensures
        (v & (((1u64 << s) - 1) as u64)) | (((((v >> s) & 0xFF) as u8) as u64) << s) == v & ((((
        1u64 << ((s + 8) as u64)) - 1) as u64)),
{
}

/// Reassembling all eight bytes.
proof fn lemma_decode_last(v: u64)
    by (bit_vector)
    ensures
        (v & (((1u64 << 56u64) - 1) as u64)) | (((((v >> 56u64) & 0xFF) as u8) as u64) << 56u64)
            == v,
        v & 0u64 == 0u64,
{
}

/// The little-endian encoding of the `n` low bytes of `v` decodes to `v`
/// masked to those bytes.
proof fn lemma_le_decode_masked(v: u64, n: nat)
    requires
        n <= 7,
    ensures
        le_decode(le_bytes(v, n)) == v & ((((1u64 << ((8 * n) as u64)) - 1)) as u64),
    decreases n,
{
    lemma_le_index(v, n);
    if n == 0 {
        assert(v & (((1u64 << 0u64) - 1) as u64) == 0u64) by (bit_vector);
    } else {
        lemma_le_decode_masked(v, (n - 1) as nat);
        let s = le_bytes(v, (n - 1) as nat);
        let b = byte_of(v, (n - 1) as nat);
        assert(le_bytes(v, n).drop_last() =~= s);
        assert(le_bytes(v, n).last() == b);
        lemma_decode_step(v, (8 * (n - 1)) as u64);
        assert(le_decode(le_bytes(v, n)) == le_decode(s) | ((b as u64) << ((8 * (n
            - 1)) as u64)));
    }
}

/// A little-endian encoding long enough to hold every significant byte
/// of `v` decodes back to `v` exactly.
pub proof fn lemma_le_decode(v: u64, n: nat)
    requires
        1 <= n <= 8,
        n < 8 ==> v >> ((8 * n) as u64) == 0,
    ensures
        le_decode(le_bytes(v, n)) == v,
{
    lemma_le_index(v, n);
    if n == 8 {
        lemma_le_decode_masked(v, 7);
        assert(le_bytes(v, 8).drop_last() =~= le_bytes(v, 7));
        assert(le_bytes(v, 8).last() == byte_of(v, 7));
        lemma_decode_last(v);
    } else {
        lemma_le_decode_masked(v, n);
        let s = (8 * n) as u64;
        assert(v >> s == 0 ==> (v & (((1u64 << s) - 1) as u64)) == v) by (bit_vector)
            requires
                s <= 56,
        ;
    }
}

/// A value confined to the low `bits` bits has no significant byte above
/// byte `(bits + 7) / 8`.
pub proof fn lemma_masked_value_fits(x: u64, b: u64, e: u64)
    by (bit_vector)
    requires
        1 <= b <= 64,
        e == (b + 7) / 8,
    ensures
        e < 8 ==> (x & (((((1u64 << ((b - 1) as u64)) - 1) as u64) << 1) | 1)) >> ((8 * e) as u64)
            == 0,
        (x & (((((1u64 << ((b - 1) as u64)) - 1) as u64) << 1) | 1)) <= ((((1u64 << ((b
            - 1) as u64)) - 1) as u64) << 1) | 1,
        1 <= e <= 8,
{
}

/// One step of the output byte-reorder keeps the value inside its byte
/// budget.
proof fn lemma_reorder_step_bound(a: u64, c: u64, s: u64)
    by (bit_vector)
    requires
        s <= 48,
        a >> s == 0,
        c <= 0xFF,
    ensures
        (a | (c << s)) >> ((s + 8) as u64) == 0,
{
}

/// The reordered output value has no significant byte above byte `e`.
pub proof fn lemma_reorder_fits(v: u64, e: nat, i: nat)
    requires
        i <= e <= 8,
        e < 8,
    ensures
        reorder_partial(v, e, i) >> ((8 * i) as u64) == 0,
    decreases i,
{
    if i == 0 {
        assert(0u64 >> 0u64 == 0) by (bit_vector);
    } else {
        lemma_reorder_fits(v, e, (i - 1) as nat);
        lemma_reorder_step_bound(
            reorder_partial(v, e, (i - 1) as nat),
            byte_of(v, (e - i) as nat) as u64,
            (8 * (i - 1)) as u64,
        );
    }
}

} // verus!
