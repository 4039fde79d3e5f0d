//! The mathematical model of the CRC family: bit masks, the bit-serial
//! update round, lookup-table entries, per-byte register updates, bit
//! reflection, and the byte encodings of a finished value.
//!
//! Every register is modelled as a `u64`; an engine of logical width
//! `bits` only ever exposes the low `bits` bits of it.

use vstd::prelude::*;

verus! {

/// The single bit at position `bits - 1`: the most significant bit of a
/// register of logical width `bits`.
pub open spec fn high_bit_of(bits: nat) -> u64
    recommends
        1 <= bits <= 64,
{
    1u64 << ((bits - 1) as u64)
}

/// Bit mask covering exactly the low `bits` bits of a 64-bit word.
pub open spec fn low_mask(bits: nat) -> u64
    recommends
        1 <= bits <= 64,
{
    ((((high_bit_of(bits) - 1) as u64) << 1) as u64) | 1
}

/// One forward (most-significant-bit-first) serial round: shift the
/// register left once and fold the polynomial in when the bit shifted
/// out was set.
pub open spec fn fwd_round(poly: u64, high_bit: u64, v: u64) -> u64 {
    if v & high_bit != 0 {
        (v << 1) ^ poly
    } else {
        v << 1
    }
}

/// `k` forward serial rounds applied to `v`.
pub open spec fn fwd_rounds(poly: u64, high_bit: u64, v: u64, k: nat) -> u64
    decreases k,
{
    if k == 0 {
        v
    } else {
        fwd_round(poly, high_bit, fwd_rounds(poly, high_bit, v, (k - 1) as nat))
    }
}

/// One reflected (least-significant-bit-first) serial round: shift the
/// register right once and fold the pre-reflected polynomial in when the
/// bit shifted out was set.
pub open spec fn rev_round(poly_rev: u64, v: u64) -> u64 {
    if v & 1 != 0 {
        (v >> 1) ^ poly_rev
    } else {
        v >> 1
    }
}

/// `k` reflected serial rounds applied to `v`.
pub open spec fn rev_rounds(poly_rev: u64, v: u64, k: nat) -> u64
    decreases k,
{
    if k == 0 {
        v
    } else {
        rev_round(poly_rev, rev_rounds(poly_rev, v, (k - 1) as nat))
    }
}

/// Entry `i` of the forward lookup table for width `bits`: the byte `i`
/// run through `bits` forward rounds, confined to the low `bits` bits.
pub open spec fn fwd_table_entry(poly: u64, bits: nat, i: u64) -> u64
    recommends
        1 <= bits <= 64,
{
    fwd_rounds(poly, high_bit_of(bits), i, bits) & low_mask(bits)
}

/// Entry `i` of the reflected lookup table: the byte `i` run through 8
/// reflected rounds.  No masking is needed: right shifts only shrink.
pub open spec fn rev_table_entry(poly_rev: u64, i: u64) -> u64 {
    rev_rounds(poly_rev, i, 8)
}

/// The full 256-entry forward table.
pub open spec fn fwd_table_seq(poly: u64, bits: nat) -> Seq<u64> {
    Seq::new(256, |i: int| fwd_table_entry(poly, bits, i as u64))
}

/// The full 256-entry reflected table.
pub open spec fn rev_table_seq(poly_rev: u64) -> Seq<u64> {
    Seq::new(256, |i: int| rev_table_entry(poly_rev, i as u64))
}

/// The 256-entry placeholder table carried by an engine that does not
/// use table-driven updates.
pub open spec fn zero_table_seq() -> Seq<u64> {
    Seq::new(256, |i: int| 0u64)
}

/// `k` steps of the reflection loop: bit `high` of `n` lands at bit
/// position 0, and each lower source bit at the next position up.
/// `i` walks down from the high bit, `j` walks up from bit 0.
pub open spec fn reflect_k(n: u64, i: u64, j: u64, k: nat) -> u64
    decreases k,
{
    if k == 0 {
        0u64
    } else {
        (if n & i != 0 {
            j
        } else {
            0u64
        }) | reflect_k(n, i >> 1, j << 1, (k - 1) as nat)
    }
}

/// The bit-reversal of the low `bits` bits of `n`: bit `bits - 1` of `n`
/// becomes bit 0 of the result, and so on.
pub open spec fn spec_reflect(bits: nat, n: u64) -> u64
    recommends
        1 <= bits <= 64,
{
    reflect_k(n, high_bit_of(bits), 1u64, bits)
}

/// The bit-reversal of a whole byte.
pub open spec fn rev8(n: u8) -> u8 {
    spec_reflect(8, n as u64) as u8
}

/// One bit-serial update of the running register with one input bit:
/// the textbook test-then-shift-then-conditional-xor order.  The input
/// bit toggles the tested flag, which is equivalent to feeding it into
/// the top of the register.
pub open spec fn bit_step(poly: u64, high_bit: u64, sum: u64, data_bit: bool) -> u64 {
    let tested = if data_bit {
        (sum & high_bit) ^ high_bit
    } else {
        sum & high_bit
    };
    if tested != 0 {
        (sum << 1) ^ poly
    } else {
        sum << 1
    }
}

/// The first `t` bits of the byte `n`, most significant first, each fed
/// into the register by one `bit_step`.
pub open spec fn bit_steps(poly: u64, high_bit: u64, sum: u64, n: u8, t: nat) -> u64
    recommends
        t <= 8,
    decreases t,
{
    if t == 0 {
        sum
    } else {
        bit_step(
            poly,
            high_bit,
            bit_steps(poly, high_bit, sum, n, (t - 1) as nat),
            (n >> ((8 - t) as u8)) & 1 == 1,
        )
    }
}

/// Byte `k` (counting from the least significant end) of `v`.
pub open spec fn byte_of(v: u64, k: nat) -> u8 {
    ((v >> ((8 * k) as u64)) & 0xFF) as u8
}

/// The `n` low bytes of `v`, least significant first.
pub open spec fn le_bytes(v: u64, n: nat) -> Seq<u8>
    recommends
        n <= 8,
    decreases n,
{
    if n == 0 {
        Seq::empty()
    } else {
        le_bytes(v, (n - 1) as nat).push(byte_of(v, (n - 1) as nat))
    }
}

/// The first `i` of the `e` low bytes of `v`, most significant first.
pub open spec fn be_partial(v: u64, e: nat, i: nat) -> Seq<u8>
    recommends
        i <= e <= 8,
    decreases i,
{
    if i == 0 {
        Seq::empty()
    } else {
        be_partial(v, e, (i - 1) as nat).push(byte_of(v, (e - i) as nat))
    }
}

/// The `e` low bytes of `v`, most significant first.
pub open spec fn be_bytes(v: u64, e: nat) -> Seq<u8>
    recommends
        e <= 8,
{
    be_partial(v, e, e)
}

/// The value a little-endian byte sequence of at most 8 bytes denotes.
pub open spec fn le_decode(s: Seq<u8>) -> u64
    recommends
        s.len() <= 8,
    decreases s.len(),
{
    if s.len() == 0 {
        0u64
    } else {
        le_decode(s.drop_last()) | ((s.last() as u64) << ((8 * (s.len() - 1)) as u64))
    }
}

/// The first `i` steps of the output byte-reorder: byte `e - 1 - m` of
/// `v` is placed at byte position `m`, for `m < i`.
pub open spec fn reorder_partial(v: u64, e: nat, i: nat) -> u64
    recommends
        i <= e <= 8,
    decreases i,
{
    if i == 0 {
        0u64
    } else {
        reorder_partial(v, e, (i - 1) as nat) | (
        ((byte_of(v, (e - i) as nat) as u64) << ((8 * (i - 1)) as u64)))
    }
}

/// `v` with the order of its `e` low bytes reversed.
pub open spec fn reorder_bytes(v: u64, e: nat) -> u64
    recommends
        1 <= e <= 8,
{
    reorder_partial(v, e, e)
}

pub proof fn lemma_or_assoc(a: u64, b: u64, c: u64)
    by (bit_vector)
    ensures
        (a | b) | c == a | (b | c),
{
}

pub proof fn lemma_or_zero(a: u64)
    by (bit_vector)
    ensures
        a | 0u64 == a,
        0u64 | a == a,
{
}

pub proof fn lemma_pow2_nonzero(s: u64)
    by (bit_vector)
    requires
        s < 64,
    ensures
        1u64 << s != 0,
{
}

pub proof fn lemma_pow2_shr1(a: u64)
    by (bit_vector)
    requires
        a < 64,
    ensures
        (1u64 << a) >> 1 == (if a == 0 {
            0u64
        } else {
            1u64 << ((a - 1) as u64)
        }),
{
}

pub proof fn lemma_bit8(m: u8, t: u8)
    by (bit_vector)
    requires
        t < 8,
    ensures
        0x80u8 >> t != 0,
        (0x80u8 >> t) >> 1 == (if t == 7 {
            0u8
        } else {
            0x80u8 >> ((t + 1) as u8)
        }),
        ((m & (0x80u8 >> t)) != 0) == (((m >> ((7 - t) as u8)) & 1) == 1),
{
}

pub proof fn lemma_shr_bounds(x: u64)
    by (bit_vector)
    ensures
        x >> 8u64 == 0 ==> x <= 0xFF,
        x >> 16u64 == 0 ==> x <= 0xFFFF,
        x >> 24u64 == 0 ==> x <= 0xFF_FFFF,
        x >> 32u64 == 0 ==> x <= 0xFFFF_FFFF,
        x >> 40u64 == 0 ==> x <= 0xFF_FFFF_FFFF,
        x >> 48u64 == 0 ==> x <= 0xFFFF_FFFF_FFFF,
        x >> 56u64 == 0 ==> x <= 0xFF_FFFF_FFFF_FFFF,
{
}

pub proof fn lemma_single_byte(x: u64)
    by (bit_vector)
    ensures
        (x >> 0u64) & 0xFF == x & 0xFF,
        x <= 0xFF ==> x & 0xFF == x,
{
}

pub proof fn lemma_nibble(x: u64)
    by (bit_vector)
    ensures
        x & 0xF < 16,
{
}

pub proof fn lemma_byte_cast(x: u64)
    by (bit_vector)
    ensures
        (((x & 0xFF) as u8) as u64) == x & 0xFF,
{
}

pub proof fn lemma_pow2_shl1(t: u64)
    by (bit_vector)
    requires
        t < 63,
    ensures
        (1u64 << t) << 1 == 1u64 << ((t + 1) as u64),
{
}

} // verus!
