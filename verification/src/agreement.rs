//! Table-driven and bit-serial updates compute the same CRC: for a
//! byte-aligned width and identical parameters, an engine that consumes
//! a lookup-table entry per byte and an engine that runs eight serial
//! rounds per byte read out the same value for the same input.
//!
//! The proof works modulo the width mask: both update rules may differ
//! in the garbage they accumulate above bit `bits - 1`, but every
//! observation (the table index, the high-bit test and the final read)
//! looks only below it.

use vstd::prelude::*;

use crate::engine::{after_digest, byte_step, fold_bytes, spec_crc_of, Engine};
use crate::model::{
    bit_step, bit_steps, fwd_round, fwd_rounds, fwd_table_entry, fwd_table_seq, high_bit_of,
    low_mask, reflect_k, rev8, rev_round, rev_rounds, rev_table_entry, rev_table_seq, spec_reflect,
};

verus! {

/// `v` has no bit at or above position `bb`.
pub open spec fn fits(v: u64, bb: u64) -> bool {
    bb < 64 ==> v >> bb == 0
}

/// The mask of the low `bb` bits, over a machine-width argument.
pub open spec fn m64(bb: u64) -> u64
    recommends
        1 <= bb <= 64,
{
    ((((1u64 << ((bb - 1) as u64)) - 1) as u64) << 1) | 1
}

/// The single bit at position `bb - 1`, over a machine-width argument.
pub open spec fn h64(bb: u64) -> u64
    recommends
        1 <= bb <= 64,
{
    1u64 << ((bb - 1) as u64)
}


/// A grab bag of width-mask facts shared by the proofs below.
#[verifier::rlimit(100)]
proof fn lemma_mask_ops(a: u64, b: u64, c: u64, bb: u64, i: u64, j: u64)
    by (bit_vector)
    requires
        1 <= bb <= 64,
    ensures
        a >> 0u64 == a,
        a << 0u64 == a,
        a ^ 0u64 == a,
        1u64 << 0u64 == 1u64,
        a & (((1u64 << 0u64) - 1) as u64) == 0,
        (0u64 >> i) & 1 == 0,
        i < bb && a & m64(bb) == b & m64(bb) ==> (a >> i) & 1 == (b >> i) & 1,
        ((a ^ b) >> i) & 1 == ((a >> i) & 1) ^ ((b >> i) & 1),
        fits(a, bb) && fits(b, bb) ==> fits(a ^ b, bb),
        j < bb ==> ((a & m64(bb)) >> j) & 1 == (a >> j) & 1,
        fits(a & m64(bb), bb),
        fits(1u64, bb) && fits(0u64, bb),
        j < bb && i == bb - 1 - j ==> (h64(bb) >> i) & 1 == (1u64 >> j) & 1,
        a & m64(bb) == b & m64(bb) ==> (a ^ c) & m64(bb) == (b ^ c) & m64(bb),
        a & m64(bb) == a ==> fits(a, bb),
        a >> 8u64 == 0 ==> ((a as u8) as u64) == a,
        a <= 0xFF ==> (a & m64(8)) & (((1u64 << 8u64) - 1) as u64) == a,
        bb >= 8 && fits(a, bb) && c <= 0xFF ==> fits(a ^ c, bb),
{
}

/// One forward round distributes over xor: with a single-bit high-bit
/// test, the round is linear over GF(2).
proof fn lemma_round_linear(poly: u64, bb: u64, a: u64, b: u64)
    by (bit_vector)
    requires
        1 <= bb <= 64,
    ensures
        fwd_round(poly, h64(bb), a ^ b) == fwd_round(poly, h64(bb), a) ^ fwd_round(
            poly,
            h64(bb),
            b,
        ),
{
}

/// Any number of forward rounds distributes over xor.
proof fn lemma_rounds_linear(poly: u64, bb: u64, a: u64, b: u64, k: nat)
    requires
        1 <= bb <= 64,
    ensures
        fwd_rounds(poly, h64(bb), a ^ b, k) == fwd_rounds(poly, h64(bb), a, k) ^ fwd_rounds(
            poly,
            h64(bb),
            b,
            k,
        ),
    decreases k,
{
    if k > 0 {
        lemma_rounds_linear(poly, bb, a, b, (k - 1) as nat);
        lemma_round_linear(
            poly,
            bb,
            fwd_rounds(poly, h64(bb), a, (k - 1) as nat),
            fwd_rounds(poly, h64(bb), b, (k - 1) as nat),
        );
    }
}

/// One forward round only reads the register below the width: registers
/// equal on the low `bb` bits stay equal on them.
proof fn lemma_round_congruent(poly: u64, bb: u64, a: u64, b: u64)
    by (bit_vector)
    requires
        1 <= bb <= 64,
        a & m64(bb) == b & m64(bb),
    ensures
        fwd_round(poly, h64(bb), a) & m64(bb) == fwd_round(poly, h64(bb), b) & m64(bb),
{
}

/// Any number of forward rounds preserves equality on the low bits.
proof fn lemma_rounds_congruent(poly: u64, bb: u64, a: u64, b: u64, k: nat)
    requires
        1 <= bb <= 64,
        a & m64(bb) == b & m64(bb),
    ensures
        fwd_rounds(poly, h64(bb), a, k) & m64(bb) == fwd_rounds(poly, h64(bb), b, k) & m64(bb),
    decreases k,
{
    if k > 0 {
        lemma_rounds_congruent(poly, bb, a, b, (k - 1) as nat);
        lemma_round_congruent(
            poly,
            bb,
            fwd_rounds(poly, h64(bb), a, (k - 1) as nat),
            fwd_rounds(poly, h64(bb), b, (k - 1) as nat),
        );
    }
}

/// The shift facts one round of a value far from the high bit needs.
proof fn lemma_shift_step(bb: u64, k: u64, v: u64)
    by (bit_vector)
    requires
        1 <= bb <= 64,
        1 <= k <= bb,
        k <= 63,
        v >> ((bb - k) as u64) == 0,
    ensures
        v >> ((bb - (k - 1)) as u64) == 0,
        (v << ((k - 1) as u64)) & h64(bb) == 0,
        (v << ((k - 1) as u64)) << 1 == v << k,
{
}

/// A value whose significant bits lie at least `k` below the width never
/// engages the high bit in `k` rounds: the rounds are a plain shift.
proof fn lemma_rounds_shift_only(poly: u64, bb: u64, v: u64, k: u64)
    requires
        1 <= bb <= 64,
        k <= bb,
        k <= 63,
        v >> ((bb - k) as u64) == 0,
    ensures
        fwd_rounds(poly, h64(bb), v, k as nat) == v << k,
    decreases k,
{
    if k == 0 {
        lemma_mask_ops(v, 0, 0, bb, 0, 0);
    } else {
        lemma_shift_step(bb, k, v);
        lemma_rounds_shift_only(poly, bb, v, (k - 1) as u64);
    }
}

/// Rounds compose: `j + k` rounds are `j` rounds followed by `k` rounds.
proof fn lemma_rounds_split(poly: u64, hb: u64, v: u64, j: nat, k: nat)
    ensures
        fwd_rounds(poly, hb, v, j + k) == fwd_rounds(poly, hb, fwd_rounds(poly, hb, v, j), k),
    decreases k,
{
    if k > 0 {
        lemma_rounds_split(poly, hb, v, j, (k - 1) as nat);
    }
}

/// A forward table entry is eight rounds of the byte aligned to the top
/// of the register: the first `bits - 8` of its `bits` rounds only shift
/// the byte up.
proof fn lemma_table_entry_form(poly: u64, bb: u64, i: u64)
    requires
        8 <= bb <= 64,
        i <= 0xFF,
    ensures
        fwd_table_entry(poly, bb as nat, i) == fwd_rounds(
            poly,
            h64(bb),
            i << ((bb - 8) as u64),
            8,
        ) & m64(bb),
{
    assert(high_bit_of(bb as nat) == h64(bb));
    assert(low_mask(bb as nat) == m64(bb));
    assert(i >> 8u64 == 0) by (bit_vector)
        requires
            i <= 0xFF,
    ;
    lemma_rounds_split(poly, h64(bb), i, (bb - 8) as nat, 8);
    lemma_rounds_shift_only(poly, bb, i, (bb - 8) as u64);
}

/// One bit-serial step, read modulo the mask, is one forward round of
/// the register with the input bit xored into the high-bit position.
proof fn lemma_bit_step_to_round(poly: u64, bb: u64, a: u64, r: u64, db: bool)
    by (bit_vector)
    requires
        1 <= bb <= 64,
        a & m64(bb) == r & m64(bb),
    ensures
        bit_step(poly, h64(bb), a, db) & m64(bb) == fwd_round(
            poly,
            h64(bb),
            r ^ (if db {
                h64(bb)
            } else {
                0u64
            }),
        ) & m64(bb),
{
}

/// Feeding the top `k` bits of a byte serially equals `k` forward rounds
/// of the register with those bits xored in at the top, modulo the mask.
proof fn lemma_bit_steps_form(poly: u64, bb: u64, s: u64, n: u8, k: u64)
    requires
        8 <= bb <= 64,
        k <= 8,
    ensures
        bit_steps(poly, h64(bb), s, n, k as nat) & m64(bb) == fwd_rounds(
            poly,
            h64(bb),
            s ^ (((n as u64) >> ((8 - k) as u64)) << ((bb - k) as u64)),
            k as nat,
        ) & m64(bb),
    decreases k,
{
    if k == 0 {
        assert(s ^ (((n as u64) >> 8u64) << ((bb) as u64)) == s) by (bit_vector)
            requires
                8 <= bb <= 64,
        ;
    } else {
        lemma_bit_steps_form(poly, bb, s, n, (k - 1) as u64);
        let a = bit_steps(poly, h64(bb), s, n, (k - 1) as nat);
        let r_arg = s ^ (((n as u64) >> ((8 - (k - 1)) as u64)) << ((bb - (k - 1)) as u64));
        let r = fwd_rounds(poly, h64(bb), r_arg, (k - 1) as nat);
        let db = ((n >> ((8 - k) as u8)) & 1) == 1;
        let bval: u64 = if db {
            1u64
        } else {
            0u64
        };
        let v0 = bval << ((bb - k) as u64);
        assert(v0 >> ((bb - (k - 1)) as u64) == 0 && v0 << ((k - 1) as u64) == (if db {
            h64(bb)
        } else {
            0u64
        }) && (r_arg ^ v0 == s ^ (((n as u64) >> ((8 - k) as u64)) << ((bb - k) as u64))))
            by (bit_vector)
            requires
                8 <= bb <= 64,
                1 <= k <= 8,
                db == (((n >> ((8 - k as u8) as u8)) & 1) == 1),
                bval == (if db {
                    1u64
                } else {
                    0u64
                }),
                v0 == bval << ((bb - k) as u64),
                r_arg == s ^ (((n as u64) >> ((8 - (k - 1)) as u64)) << ((bb - (k
                    - 1)) as u64)),
        ;
        lemma_bit_step_to_round(poly, bb, a, r, db);
        lemma_rounds_shift_only(poly, bb, v0, (k - 1) as u64);
        lemma_rounds_linear(poly, bb, r_arg, v0, (k - 1) as nat);
        assert(bit_steps(poly, h64(bb), s, n, k as nat) == bit_step(poly, h64(bb), a, db));
    }
}

/// The table-driven forward byte update equals eight serial rounds of
/// the register with the input byte xored in at the top, modulo the
/// mask.
proof fn lemma_table_byte_form(poly: u64, bb: u64, s: u64, n: u8)
    requires
        8 <= bb <= 64,
    ensures
        ((s << 8) ^ fwd_table_entry(
            poly,
            bb as nat,
            ((((s >> ((bb - 8) as u64)) as u8) ^ n) as u64),
        )) & m64(bb) == fwd_rounds(
            poly,
            h64(bb),
            s ^ ((n as u64) << ((bb - 8) as u64)),
            8,
        ) & m64(bb),
{
    let top: u64 = ((s >> ((bb - 8) as u64)) as u8) as u64;
    let nn = n as u64;
    let idx: u64 = ((((s >> ((bb - 8) as u64)) as u8) ^ n) as u64);
    let low: u64 = (s & m64(bb)) ^ (top << ((bb - 8) as u64));
    assert(idx == top ^ nn && idx <= 0xFF && low >> ((bb - 8) as u64) == 0 && ((s << 8) & m64(bb)
        == (low << 8) & m64(bb)) && ((top << ((bb - 8) as u64)) ^ (nn << ((bb - 8) as u64)) == (top
        ^ nn) << ((bb - 8) as u64)) && (low ^ ((top ^ nn) << ((bb - 8) as u64)) == (s & m64(bb)) ^ (
    nn << ((bb - 8) as u64))) && (((s & m64(bb)) ^ (nn << ((bb - 8) as u64))) & m64(bb) == (s ^ (nn
        << ((bb - 8) as u64))) & m64(bb))) by (bit_vector)
        requires
            8 <= bb <= 64,
            top == ((s >> ((bb - 8) as u64)) as u8) as u64,
            nn == n as u64,
            idx == ((((s >> ((bb - 8) as u64)) as u8) ^ n) as u64),
            low == (s & m64(bb)) ^ (top << ((bb - 8) as u64)),
    ;
    lemma_table_entry_form(poly, bb, idx);
    lemma_rounds_shift_only(poly, bb, low, 8);
    lemma_rounds_linear(poly, bb, low, (top ^ nn) << ((bb - 8) as u64), 8);
    lemma_rounds_congruent(
        poly,
        bb,
        (s & m64(bb)) ^ (nn << ((bb - 8) as u64)),
        s ^ (nn << ((bb - 8) as u64)),
        8,
    );
    let t_entry = fwd_rounds(poly, h64(bb), (top ^ nn) << ((bb - 8) as u64), 8);
    let target = fwd_rounds(poly, h64(bb), (s & m64(bb)) ^ (nn << ((bb - 8) as u64)), 8);
    assert(target == (low << 8) ^ t_entry);
    assert(((s << 8) ^ (t_entry & m64(bb))) & m64(bb) == ((low << 8) ^ t_entry) & m64(bb))
        by (bit_vector)
        requires
            (s << 8) & m64(bb) == (low << 8) & m64(bb),
            8 <= bb <= 64,
    ;
}

/// One byte folded into the table-driven engine and into the bit-serial
/// engine leaves the two registers equal on the low bits, provided they
/// were equal there before.
proof fn lemma_byte_step_agree(e_t: Engine, e_s: Engine, poly: u64, bits: u8, s_t: u64, s_s: u64, n: u8)
    requires
        e_t.wf(),
        e_s.wf(),
        8 <= bits <= 64,
        e_t.by_table,
        !e_t.reflect,
        e_t.bits == bits,
        e_t.lookup_table@ == fwd_table_seq(poly, bits as nat),
        !e_s.by_table,
        !e_s.reflect,
        e_s.bits == bits,
        e_s.poly == poly,
        s_t & low_mask(bits as nat) == s_s & low_mask(bits as nat),
    ensures
        byte_step(e_t, s_t, n) & low_mask(bits as nat) == byte_step(e_s, s_s, n) & low_mask(
            bits as nat,
        ),
{
    let bb = bits as u64;
    assert(m64(bb) == low_mask(bits as nat));
    assert(h64(bb) == high_bit_of(bits as nat));
    let nn = n as u64;
    let idx: u64 = ((((s_t >> ((bb - 8) as u64)) as u8) ^ n) as u64);
    assert(e_t.lookup_table@[idx as int] == fwd_table_entry(poly, bits as nat, idx));
    lemma_table_byte_form(poly, bb, s_t, n);
    if bits == 8 {
        // The full-width rule drops the shifted-out register byte, which
        // the mask would drop anyway.
        assert(byte_step(e_t, s_t, n) == e_t.lookup_table@[(((s_t as u8) ^ n) as int)]);
        assert((((s_t as u8) ^ n) as u64) == idx && (((s_t << 8) ^ fwd_table_entry(
            poly,
            8,
            idx,
        )) & m64(8)) == fwd_table_entry(poly, 8, idx) & m64(8)) by (bit_vector)
            requires
                bb == 8,
                idx == ((((s_t >> ((bb - 8) as u64)) as u8) ^ n) as u64),
                fwd_table_entry(poly, 8, idx) <= 0xFFFFFFFFFFFFFFFF,
        ;
        assert(fwd_table_entry(poly, 8, idx) & m64(8) == fwd_table_entry(poly, 8, idx) & low_mask(
            8,
        ));
    } else {
        assert(byte_step(e_t, s_t, n) == (s_t << 8) ^ e_t.lookup_table@[idx as int]);
    }
    // The bit-serial side.
    assert(byte_step(e_s, s_s, n) == bit_steps(poly, h64(bb), s_s, n, 8));
    lemma_bit_steps_form(poly, bb, s_s, n, 8);
    lemma_mask_ops(nn, 0, 0, bb, 0, 0);
    // Bridge the two register arguments, equal on the low bits.
    lemma_mask_ops(s_t, s_s, nn << ((bb - 8) as u64), bb, 0, 0);
    lemma_rounds_congruent(
        poly,
        bb,
        s_t ^ (nn << ((bb - 8) as u64)),
        s_s ^ (nn << ((bb - 8) as u64)),
        8,
    );
}

/// Digesting any byte sequence into the two engines keeps the registers
/// equal on the low bits.
proof fn lemma_fold_agree(
    e_t: Engine,
    e_s: Engine,
    poly: u64,
    bits: u8,
    s_t: u64,
    s_s: u64,
    data: Seq<u8>,
)
    requires
        e_t.wf(),
        e_s.wf(),
        8 <= bits <= 64,
        e_t.by_table,
        !e_t.reflect,
        e_t.bits == bits,
        e_t.lookup_table@ == fwd_table_seq(poly, bits as nat),
        !e_s.by_table,
        !e_s.reflect,
        e_s.bits == bits,
        e_s.poly == poly,
        s_t & low_mask(bits as nat) == s_s & low_mask(bits as nat),
    ensures
        fold_bytes(e_t, s_t, data) & low_mask(bits as nat) == fold_bytes(e_s, s_s, data)
            & low_mask(bits as nat),
    decreases data.len(),
{
    if data.len() > 0 {
        lemma_fold_agree(e_t, e_s, poly, bits, s_t, s_s, data.drop_last());
        lemma_byte_step_agree(
            e_t,
            e_s,
            poly,
            bits,
            fold_bytes(e_t, s_t, data.drop_last()),
            fold_bytes(e_s, s_s, data.drop_last()),
            data.last(),
        );
    }
}

/// Table/bit-serial agreement, forward mode: for any byte-aligned width
/// and identical (polynomial, width, initial value, final xor)
/// parameters with reflection off, a table-driven engine and a
/// bit-serial engine read out the same CRC value after digesting the
/// same data.
pub proof fn lemma_table_matches_bitwise_forward(
    e_t: Engine,
    e_s: Engine,
    poly: u64,
    bits: u8,
    initial: u64,
    final_xor: u64,
    data: Seq<u8>,
)
    requires
        e_t.wf(),
        e_s.wf(),
        8 <= bits,
        e_t.configured(true, poly, bits, initial, final_xor, false, false),
        e_s.configured(false, poly, bits, initial, final_xor, false, false),
    ensures
        spec_crc_of(after_digest(e_t, data)) == spec_crc_of(after_digest(e_s, data)),
{
    lemma_fold_agree(e_t, e_s, poly, bits, initial, initial, data);
    let f_t = fold_bytes(e_t, initial, data);
    let f_s = fold_bytes(e_s, initial, data);
    assert(m64(bits as u64) == low_mask(bits as nat));
    lemma_mask_ops(f_t, f_s, final_xor, bits as u64, 0, 0);
}

/// Two values confined to the low `bb` bits and equal bit by bit there
/// are equal.
proof fn lemma_bits_determine(a: u64, b: u64, bb: u64)
    requires
        bb <= 64,
        fits(a, bb),
        fits(b, bb),
        forall|j: u64| j < bb ==> (#[trigger] (a >> j)) & 1 == (b >> j) & 1,
    ensures
        a == b,
    decreases bb,
{
    if bb == 0 {
        lemma_mask_ops(a, 0, 0, 64, 0, 0);
        lemma_mask_ops(b, 0, 0, 64, 0, 0);
    } else {
        assert forall|j: u64| j < bb - 1 implies (#[trigger] ((a >> 1) >> j)) & 1 == ((b >> 1)
            >> j) & 1 by {
            assert((a >> 1) >> j == a >> ((j + 1) as u64) && (b >> 1) >> j == b >> ((j
                + 1) as u64)) by (bit_vector)
                requires
                    j < 63,
            ;
            assert((a >> ((j + 1) as u64)) & 1 == (b >> ((j + 1) as u64)) & 1);
        }
        assert(((a >> 1) >> ((bb - 1) as u64) == 0 || a >> bb != 0) && ((b >> 1) >> ((bb
            - 1) as u64) == 0 || b >> bb != 0) && (a >> 1) >> 63u64 == 0 && (b >> 1) >> 63u64
            == 0) by (bit_vector)
            requires
                1 <= bb <= 64,
        ;
        lemma_bits_determine(a >> 1, b >> 1, (bb - 1) as u64);
        assert(a == b) by (bit_vector)
            requires
                a >> 1 == b >> 1,
                (a >> 0u64) & 1 == (b >> 0u64) & 1,
        ;
    }
}

/// Bit `t` of an or, and bit `t` of the one-bit-or-zero accumulator cell.
proof fn lemma_or_cell_bits(c: u64, rest: u64, n: u64, p: u64, q: u64, t: u64)
    by (bit_vector)
    requires
        p <= 63,
        q <= 63,
        t <= 63,
        c == (if n & (1u64 << p) != 0 {
            1u64 << q
        } else {
            0u64
        }),
    ensures
        (rest >> t) & 1 == 0 ==> ((c | rest) >> t) & 1 == (c >> t) & 1,
        (c >> t) & 1 == 0 ==> ((c | rest) >> t) & 1 == (rest >> t) & 1,
        t != q ==> (c >> t) & 1 == 0,
        (c >> q) & 1 == (n >> p) & 1,
{
}

/// A right shift of a right shift adds the shift amounts.
#[verifier::rlimit(50)]
proof fn lemma_shr_add(x: u64, a: u64, b: u64, t: u64)
    by (bit_vector)
    requires
        a <= 63,
        b <= 63,
        t == a + b,
        t <= 63,
    ensures
        (x >> a) >> b == x >> t,
        (0u64 >> b) & 1 == 0,
        (0u64 >> b) == 0,
{
}

/// Bit characterization of the reflection loop: starting from source bit
/// `p` and destination bit `q`, `k` steps copy source bits `p` down to
/// `p - k + 1` to destination bits `q` up to `q + k - 1`, and set nothing
/// else.
proof fn lemma_reflect_k_bits(n: u64, p: u64, q: u64, k: u64)
    requires
        p <= 63,
        q <= 63,
        k <= p + 1,
        q + k <= 64,
    ensures
        forall|m: u64|
            m < k ==> (#[trigger] (reflect_k(n, 1u64 << p, 1u64 << q, k as nat) >> ((q
                + m) as u64))) & 1 == (n >> ((p - m) as u64)) & 1,
        forall|t: u64|
            t <= 63 && (t < q || t >= q + k) ==> (#[trigger] (reflect_k(
                n,
                1u64 << p,
                1u64 << q,
                k as nat,
            ) >> t)) & 1 == 0,
    decreases k,
{
    let r = reflect_k(n, 1u64 << p, 1u64 << q, k as nat);
    if k == 0 {
        assert forall|t: u64| t <= 63 implies (#[trigger] (r >> t)) & 1 == 0 by {
            lemma_shr_add(0u64, 0, t, t);
            assert(r == 0u64);
        }
    } else {
        let c: u64 = if n & (1u64 << p) != 0 {
            1u64 << q
        } else {
            0u64
        };
        let rest = reflect_k(n, (1u64 << p) >> 1, (1u64 << q) << 1, (k - 1) as nat);
        assert(r == c | rest);
        let p1 = (p - 1) as u64;
        let q1 = (q + 1) as u64;
        if k == 1 {
            assert(rest == 0u64);
        } else {
            assert((1u64 << p) >> 1 == 1u64 << p1 && (1u64 << q) << 1 == 1u64 << q1)
                by (bit_vector)
                requires
                    1 <= p <= 63,
                    q <= 62,
                    p1 == p - 1,
                    q1 == q + 1,
            ;
            lemma_reflect_k_bits(n, p1, q1, (k - 1) as u64);
            assert(rest == reflect_k(n, 1u64 << p1, 1u64 << q1, (k - 1) as nat));
        }
        assert forall|m: u64|
            m < k implies (#[trigger] (r >> ((q + m) as u64))) & 1 == (n >> ((p - m) as u64))
            & 1 by {
            let t = (q + m) as u64;
            lemma_or_cell_bits(c, rest, n, p, q, t);
            if m == 0 {
                if k == 1 {
                    lemma_shr_add(0u64, 0, t, t);
                    assert((rest >> t) & 1 == 0);
                } else {
                    // destination bit q lies below everything `rest` sets
                    assert((reflect_k(n, 1u64 << p1, 1u64 << q1, (k - 1) as nat) >> t) & 1 == 0);
                }
                assert((r >> t) & 1 == (n >> p) & 1);
            } else {
                let m1 = (m - 1) as u64;
                if k == 1 {
                    assert(false);
                } else {
                    assert((reflect_k(n, 1u64 << p1, 1u64 << q1, (k - 1) as nat) >> ((q1
                        + m1) as u64)) & 1 == (n >> ((p1 - m1) as u64)) & 1);
                    assert((q1 + m1) as u64 == t);
                    assert((p1 - m1) as u64 == (p - m) as u64);
                    assert((rest >> t) & 1 == (n >> ((p - m) as u64)) & 1);
                }
            }
        }
        assert forall|t: u64|
            t <= 63 && (t < q || t >= q + k) implies (#[trigger] (r >> t)) & 1 == 0 by {
            lemma_or_cell_bits(c, rest, n, p, q, t);
            if k == 1 {
                lemma_shr_add(0u64, 0, t, t);
                assert((rest >> t) & 1 == 0);
            } else {
                assert((reflect_k(n, 1u64 << p1, 1u64 << q1, (k - 1) as nat) >> t) & 1 == 0);
            }
        }
    }
}

/// The reflection of a value is confined to the width, and carries the
/// source bits in reverse order.
proof fn lemma_reflect_bits(v: u64, bb: u64)
    requires
        1 <= bb <= 64,
    ensures
        fits(spec_reflect(bb as nat, v), bb),
        forall|j: u64|
            j < bb ==> (#[trigger] (spec_reflect(bb as nat, v) >> j)) & 1 == (v >> ((bb - 1
                - j) as u64)) & 1,
{
    let r = spec_reflect(bb as nat, v);
    lemma_mask_ops(v, 0, 0, bb, 0, 0);
    assert(high_bit_of(bb as nat) == 1u64 << ((bb - 1) as u64));
    lemma_reflect_k_bits(v, (bb - 1) as u64, 0, bb);
    assert(r == reflect_k(v, 1u64 << ((bb - 1) as u64), 1u64 << 0u64, bb as nat));
    assert forall|j: u64|
        j < bb implies (#[trigger] (r >> j)) & 1 == (v >> ((bb - 1 - j) as u64)) & 1 by {
        assert((r >> ((0 + j) as u64)) & 1 == (v >> (((bb - 1) - j) as u64)) & 1);
    }
    if bb < 64 {
        assert forall|j: u64| j < 64 - bb implies (#[trigger] ((r >> bb) >> j)) & 1 == (0u64
            >> j) & 1 by {
            lemma_shr_add(r, bb, j, (bb + j) as u64);
            assert((r >> ((bb + j) as u64)) & 1 == 0);
        }
        assert((r >> bb) >> ((64 - bb) as u64) == 0 && 0u64 >> ((64 - bb) as u64) == 0)
            by (bit_vector)
            requires
                1 <= bb <= 63,
        ;
        lemma_bits_determine(r >> bb, 0u64, (64 - bb) as u64);
    }
}

/// Reflection reads only the low bits of its argument.
proof fn lemma_reflect_congruent(a: u64, b: u64, bb: u64)
    requires
        1 <= bb <= 64,
        a & m64(bb) == b & m64(bb),
    ensures
        spec_reflect(bb as nat, a) == spec_reflect(bb as nat, b),
{
    lemma_reflect_bits(a, bb);
    lemma_reflect_bits(b, bb);
    let ra = spec_reflect(bb as nat, a);
    let rb = spec_reflect(bb as nat, b);
    assert forall|j: u64| j < bb implies (#[trigger] (ra >> j)) & 1 == (rb >> j) & 1 by {
        let i = (bb - 1 - j) as u64;
        lemma_mask_ops(a, b, 0, bb, i, 0);
        assert((a >> i) & 1 == (b >> i) & 1);
    }
    lemma_bits_determine(ra, rb, bb);
}

/// Reflection distributes over xor.
proof fn lemma_reflect_xor(a: u64, b: u64, bb: u64)
    requires
        1 <= bb <= 64,
    ensures
        spec_reflect(bb as nat, a ^ b) == spec_reflect(bb as nat, a) ^ spec_reflect(bb as nat, b),
{
    lemma_reflect_bits(a, bb);
    lemma_reflect_bits(b, bb);
    lemma_reflect_bits(a ^ b, bb);
    let ra = spec_reflect(bb as nat, a);
    let rb = spec_reflect(bb as nat, b);
    let rab = spec_reflect(bb as nat, a ^ b);
    assert forall|j: u64| j < bb implies (#[trigger] (rab >> j)) & 1 == ((ra ^ rb) >> j) & 1 by {
        let i = (bb - 1 - j) as u64;
        lemma_mask_ops(a, b, 0, bb, i, 0);
        lemma_mask_ops(ra, rb, 0, bb, j, 0);
    }
    lemma_mask_ops(ra, rb, 0, bb, 0, 0);
    lemma_bits_determine(rab, ra ^ rb, bb);
}

/// The high bit reflects to bit zero, and zero to zero.
proof fn lemma_reflect_constants(bb: u64)
    requires
        1 <= bb <= 64,
    ensures
        spec_reflect(bb as nat, h64(bb)) == 1u64,
        spec_reflect(bb as nat, 0u64) == 0u64,
{
    lemma_reflect_bits(h64(bb), bb);
    lemma_reflect_bits(0u64, bb);
    let rh = spec_reflect(bb as nat, h64(bb));
    let rz = spec_reflect(bb as nat, 0u64);
    assert forall|j: u64| j < bb implies (#[trigger] (rh >> j)) & 1 == (1u64 >> j) & 1 by {
        let i = (bb - 1 - j) as u64;
        assert((rh >> j) & 1 == (h64(bb) >> i) & 1);
        lemma_mask_ops(0, 0, 0, bb, i, j);
    }
    assert forall|j: u64| j < bb implies (#[trigger] (rz >> j)) & 1 == (0u64 >> j) & 1 by {
        let i = (bb - 1 - j) as u64;
        assert((rz >> j) & 1 == (0u64 >> i) & 1);
        lemma_mask_ops(0, 0, 0, bb, i, j);
        lemma_mask_ops(0, 0, 0, bb, j, j);
    }
    lemma_mask_ops(0, 0, 0, bb, 0, 0);
    lemma_bits_determine(rh, 1u64, bb);
    lemma_bits_determine(rz, 0u64, bb);
}

/// Reflecting twice gives back the low bits.
proof fn lemma_reflect_involution(x: u64, bb: u64)
    requires
        1 <= bb <= 64,
    ensures
        spec_reflect(bb as nat, spec_reflect(bb as nat, x)) == x & m64(bb),
{
    lemma_reflect_bits(x, bb);
    lemma_reflect_bits(spec_reflect(bb as nat, x), bb);
    let rx = spec_reflect(bb as nat, x);
    let r = spec_reflect(bb as nat, rx);
    assert forall|j: u64| j < bb implies (#[trigger] (r >> j)) & 1 == ((x & m64(bb)) >> j) & 1 by {
        let i = (bb - 1 - j) as u64;
        assert((r >> j) & 1 == (rx >> i) & 1);
        assert((bb - 1 - i) as u64 == j);
        assert((rx >> i) & 1 == (x >> j) & 1);
        lemma_mask_ops(x, 0, 0, bb, 0, j);
        assert(((x & m64(bb)) >> j) & 1 == (x >> j) & 1);
    }
    lemma_mask_ops(x, 0, 0, bb, 0, 0);
    lemma_bits_determine(r, x & m64(bb), bb);
}

/// One forward round of the internal (most-significant-bit-first)
/// register is one reflected round of the register seen in output
/// orientation.
proof fn lemma_round_conjugate(pr: u64, x: u64, bb: u64)
    requires
        1 <= bb <= 64,
        fits(pr, bb),
    ensures
        spec_reflect(bb as nat, fwd_round(spec_reflect(bb as nat, pr), h64(bb), x)) == rev_round(
            pr,
            spec_reflect(bb as nat, x),
        ),
{
    let p = spec_reflect(bb as nat, pr);
    let y = fwd_round(p, h64(bb), x);
    let xr = spec_reflect(bb as nat, x);
    let lhs = spec_reflect(bb as nat, y);
    let rhs = rev_round(pr, xr);
    lemma_reflect_bits(pr, bb);
    lemma_reflect_bits(x, bb);
    lemma_reflect_bits(y, bb);
    assert forall|j: u64| j < bb implies (#[trigger] (lhs >> j)) & 1 == (rhs >> j) & 1 by {
        let i = (bb - 1 - j) as u64;
        assert((lhs >> j) & 1 == (y >> i) & 1);
        assert((p >> i) & 1 == (pr >> ((bb - 1 - i) as u64)) & 1);
        assert((bb - 1 - i) as u64 == j);
        if j + 1 < bb {
            assert((xr >> ((j + 1) as u64)) & 1 == (x >> ((bb - 1 - (j + 1)) as u64)) & 1);
        }
        assert((xr >> 0u64) & 1 == (x >> ((bb - 1) as u64)) & 1);
        assert((y >> i) & 1 == (rhs >> j) & 1) by (bit_vector)
            requires
                1 <= bb <= 64,
                j < bb,
                i == bb - 1 - j,
                fits(xr, bb),
                fits(pr, bb),
                y == fwd_round(p, h64(bb), x),
                rhs == rev_round(pr, xr),
                (p >> i) & 1 == (pr >> j) & 1,
                (xr >> 0u64) & 1 == (x >> ((bb - 1) as u64)) & 1,
                j + 1 < bb ==> (xr >> ((j + 1) as u64)) & 1 == (x >> ((bb - 2 - j) as u64)) & 1,
        ;
    }
    assert(fits(rhs, bb)) by (bit_vector)
        requires
            1 <= bb <= 64,
            fits(xr, bb),
            fits(pr, bb),
            rhs == rev_round(pr, xr),
    ;
    lemma_bits_determine(lhs, rhs, bb);
}

/// Any number of forward rounds in internal orientation is the same
/// number of reflected rounds in output orientation.
proof fn lemma_rounds_conjugate(pr: u64, x: u64, bb: u64, k: nat)
    requires
        1 <= bb <= 64,
        fits(pr, bb),
    ensures
        spec_reflect(bb as nat, fwd_rounds(spec_reflect(bb as nat, pr), h64(bb), x, k))
            == rev_rounds(pr, spec_reflect(bb as nat, x), k),
    decreases k,
{
    if k > 0 {
        lemma_rounds_conjugate(pr, x, bb, (k - 1) as nat);
        lemma_round_conjugate(
            pr,
            fwd_rounds(spec_reflect(bb as nat, pr), h64(bb), x, (k - 1) as nat),
            bb,
        );
    }
}

/// One reflected round distributes over xor.
proof fn lemma_rev_round_linear(pr: u64, a: u64, b: u64)
    by (bit_vector)
    ensures
        rev_round(pr, a ^ b) == rev_round(pr, a) ^ rev_round(pr, b),
{
}

/// Any number of reflected rounds distributes over xor.
proof fn lemma_rev_rounds_linear(pr: u64, a: u64, b: u64, k: nat)
    ensures
        rev_rounds(pr, a ^ b, k) == rev_rounds(pr, a, k) ^ rev_rounds(pr, b, k),
    decreases k,
{
    if k > 0 {
        lemma_rev_rounds_linear(pr, a, b, (k - 1) as nat);
        lemma_rev_round_linear(
            pr,
            rev_rounds(pr, a, (k - 1) as nat),
            rev_rounds(pr, b, (k - 1) as nat),
        );
    }
}

/// A value with its low `k` bits clear never engages the low bit in `k`
/// reflected rounds: the rounds are a plain shift down.
proof fn lemma_rev_rounds_shift_only(pr: u64, v: u64, k: u64)
    requires
        k <= 8,
        v & (((1u64 << k) - 1) as u64) == 0,
    ensures
        rev_rounds(pr, v, k as nat) == v >> k,
    decreases k,
{
    if k == 0 {
        lemma_mask_ops(v, 0, 0, 8, 0, 0);
    } else {
        assert((v >> 1) & (((1u64 << ((k - 1) as u64)) - 1) as u64) == 0 && v & 1 == 0 && (v >> 1)
            >> ((k - 1) as u64) == v >> k) by (bit_vector)
            requires
                1 <= k <= 8,
                v & (((1u64 << k) - 1) as u64) == 0,
        ;
        lemma_rev_rounds_shift_only(pr, v >> 1, (k - 1) as u64);
        assert(rev_rounds(pr, v, k as nat) == rev_rounds(
            pr,
            rev_round(pr, v),
            (k - 1) as nat,
        )) by {
            lemma_rev_rounds_front(pr, v, k as nat);
        }
    }
}

/// Reflected rounds can also be peeled from the front.
proof fn lemma_rev_rounds_front(pr: u64, v: u64, k: nat)
    requires
        k >= 1,
    ensures
        rev_rounds(pr, v, k) == rev_rounds(pr, rev_round(pr, v), (k - 1) as nat),
    decreases k,
{
    if k == 1 {
        assert(rev_rounds(pr, v, 0) == v);
        assert(rev_rounds(pr, rev_round(pr, v), 0) == rev_round(pr, v));
    } else {
        lemma_rev_rounds_front(pr, v, (k - 1) as nat);
        assert(rev_rounds(pr, rev_round(pr, v), (k - 1) as nat) == rev_round(
            pr,
            rev_rounds(pr, rev_round(pr, v), (k - 2) as nat),
        ));
    }
}

/// Feeding the top `k` bits of a byte into the internal register is, in
/// output orientation, `k` reflected rounds with the byte's reflected
/// low `k` bits xored in at the bottom.
proof fn lemma_bit_steps_conjugate(pr: u64, s: u64, m: u8, bb: u64, k: u64)
    requires
        8 <= bb <= 64,
        k <= 8,
        fits(pr, bb),
    ensures
        spec_reflect(
            bb as nat,
            bit_steps(spec_reflect(bb as nat, pr), h64(bb), s, m, k as nat),
        ) == rev_rounds(
            pr,
            spec_reflect(bb as nat, s) ^ (spec_reflect(8, m as u64) & (((1u64 << k)
                - 1) as u64)),
            k as nat,
        ),
    decreases k,
{
    let p = spec_reflect(bb as nat, pr);
    let sr = spec_reflect(bb as nat, s);
    let r8 = spec_reflect(8, m as u64);
    if k == 0 {
        lemma_mask_ops(r8, 0, 0, bb, 0, 0);
        lemma_mask_ops(sr, 0, 0, bb, 0, 0);
        assert(sr ^ (r8 & (((1u64 << 0u64) - 1) as u64)) == sr);
    } else {
        lemma_bit_steps_conjugate(pr, s, m, bb, (k - 1) as u64);
        let a = bit_steps(p, h64(bb), s, m, (k - 1) as nat);
        let db = ((m >> ((8 - k) as u8)) & 1) == 1;
        let bval: u64 = if db {
            1u64
        } else {
            0u64
        };
        // The serially consumed bit is bit `k - 1` of the reflected byte.
        lemma_reflect_bits(m as u64, 8);
        assert((r8 >> ((k - 1) as u64)) & 1 == ((m as u64) >> ((8 - 1 - (k - 1)) as u64)) & 1);

        // bit_steps(k) = bit_step(a, db); in output orientation this is
        // one reflected round of the reflection of `a` with `bval` in.
        lemma_bit_step_to_round(p, bb, a, a, db);
        lemma_reflect_congruent(
            bit_step(p, h64(bb), a, db),
            fwd_round(
                p,
                h64(bb),
                a ^ (if db {
                    h64(bb)
                } else {
                    0u64
                }),
            ),
            bb,
        );
        lemma_round_conjugate(
            pr,
            a ^ (if db {
                h64(bb)
            } else {
                0u64
            }),
            bb,
        );
        lemma_reflect_xor(
            a,
            if db {
                h64(bb)
            } else {
                0u64
            },
            bb,
        );
        lemma_reflect_constants(bb);
        assert(spec_reflect(bb as nat, bit_steps(p, h64(bb), s, m, k as nat)) == rev_round(
            pr,
            spec_reflect(bb as nat, a) ^ bval,
        ));
        // Pull the new bit inside the earlier rounds.
        let l_prev = r8 & (((1u64 << ((k - 1) as u64)) - 1) as u64);
        let v0 = bval << ((k - 1) as u64);
        assert(bval == (r8 >> ((k - 1) as u64)) & 1 && v0 & (((1u64 << ((k - 1) as u64))
            - 1) as u64) == 0 && v0 >> ((k - 1) as u64) == bval && (sr ^ l_prev) ^ v0 == sr ^ (r8
            & (((1u64 << k) - 1) as u64))) by (bit_vector)
            requires
                1 <= k <= 8,
                db == (((m >> ((8 - k as u8) as u8)) & 1) == 1),
                bval == (if db {
                    1u64
                } else {
                    0u64
                }),
                (r8 >> ((k - 1) as u64)) & 1 == ((m as u64) >> ((8 - k) as u64)) & 1,
                v0 == bval << ((k - 1) as u64),
                l_prev == r8 & (((1u64 << ((k - 1) as u64)) - 1) as u64),
        ;
        lemma_rev_rounds_shift_only(pr, v0, (k - 1) as u64);
        lemma_rev_rounds_linear(pr, sr ^ l_prev, v0, (k - 1) as nat);
        assert(rev_rounds(pr, v0, (k - 1) as nat) == bval);
        assert(rev_rounds(pr, (sr ^ l_prev) ^ v0, (k - 1) as nat) == spec_reflect(bb as nat, a)
            ^ bval);
        let x_final = sr ^ (r8 & (((1u64 << k) - 1) as u64));
        assert((sr ^ l_prev) ^ v0 == x_final);
        assert(rev_rounds(pr, x_final, k as nat) == rev_round(
            pr,
            rev_rounds(pr, x_final, (k - 1) as nat),
        ));
        assert(rev_round(pr, spec_reflect(bb as nat, a) ^ bval) == rev_rounds(
            pr,
            x_final,
            k as nat,
        ));
    }
}

/// One reflected round of a register within the width, against a
/// polynomial within the width, stays within the width.
proof fn lemma_rev_round_fits(pr: u64, v: u64, bb: u64)
    by (bit_vector)
    requires
        1 <= bb <= 64,
        fits(pr, bb),
        fits(v, bb),
    ensures
        fits(rev_round(pr, v), bb),
{
}

/// Any number of reflected rounds stays within the width.
proof fn lemma_rev_rounds_fits(pr: u64, v: u64, bb: u64, k: nat)
    requires
        1 <= bb <= 64,
        fits(pr, bb),
        fits(v, bb),
    ensures
        fits(rev_rounds(pr, v, k), bb),
    decreases k,
{
    if k > 0 {
        lemma_rev_rounds_fits(pr, v, bb, (k - 1) as nat);
        lemma_rev_round_fits(pr, rev_rounds(pr, v, (k - 1) as nat), bb);
    }
}

/// The table-driven reflected byte update equals eight reflected rounds
/// of the register with the input byte xored in at the bottom.
proof fn lemma_rev_table_byte_form(pr: u64, s: u64, n: u8)
    ensures
        (s >> 8) ^ rev_table_entry(pr, (((s as u8) ^ n) as u64)) == rev_rounds(
            pr,
            s ^ (n as u64),
            8,
        ),
{
    let lowb = ((s as u8) as u64);
    let hi = s ^ lowb;
    assert((((s as u8) ^ n) as u64) == lowb ^ (n as u64) && hi & (((1u64 << 8u64)
        - 1) as u64) == 0 && hi >> 8u64 == s >> 8u64 && (s ^ (n as u64)) == hi ^ (lowb ^ (
    n as u64))) by (bit_vector)
        requires
            lowb == ((s as u8) as u64),
            hi == s ^ lowb,
    ;
    lemma_rev_rounds_linear(pr, hi, lowb ^ (n as u64), 8);
    lemma_rev_rounds_shift_only(pr, hi, 8);
}

/// One byte folded into the reflected table-driven engine is the
/// reflection of the byte folded into the reflected bit-serial engine.
proof fn lemma_byte_step_agree_reflected(
    e_t: Engine,
    e_s: Engine,
    pr: u64,
    bits: u8,
    s_t: u64,
    s_s: u64,
    n: u8,
)
    requires
        e_t.wf(),
        e_s.wf(),
        8 <= bits <= 64,
        e_t.by_table,
        e_t.reflect,
        e_t.bits == bits,
        e_t.lookup_table@ == rev_table_seq(pr),
        !e_s.by_table,
        e_s.reflect,
        e_s.bits == bits,
        e_s.poly == spec_reflect(bits as nat, pr),
        fits(pr, bits as u64),
        fits(s_t, bits as u64),
        s_t == spec_reflect(bits as nat, s_s),
    ensures
        byte_step(e_t, s_t, n) == spec_reflect(bits as nat, byte_step(e_s, s_s, n)),
        fits(byte_step(e_t, s_t, n), bits as u64),
{
    let bb = bits as u64;
    let nn = n as u64;
    let idx = (((s_t as u8) ^ n) as u64);
    assert(e_t.lookup_table@[idx as int] == rev_table_entry(pr, idx));
    lemma_rev_table_byte_form(pr, s_t, n);
    if bits == 8 {
        assert(byte_step(e_t, s_t, n) == e_t.lookup_table@[(((s_t as u8) ^ n) as int)]);
        let te = rev_table_entry(pr, idx);
        assert((s_t >> 8u64) ^ te == te) by (bit_vector)
            requires
                s_t >> 8u64 == 0,
        ;
    } else {
        assert(byte_step(e_t, s_t, n) == (s_t >> 8) ^ e_t.lookup_table@[(((s_t as u8)
            ^ n) as int)]);
    }
    assert(byte_step(e_t, s_t, n) == rev_rounds(pr, s_t ^ nn, 8));
    // The bit-serial engine feeds the bit-reversed byte into the
    // internal register; in output orientation that is the byte itself
    // fed into the reflected rounds.
    let m = rev8(n);
    assert(byte_step(e_s, s_s, n) == bit_steps(
        spec_reflect(bits as nat, pr),
        e_s.high_bit,
        s_s,
        m,
        8,
    ));
    assert(e_s.high_bit == h64(bb));
    lemma_bit_steps_conjugate(pr, s_s, m, bb, 8);
    lemma_reflect_bits(n as u64, 8);
    lemma_mask_ops(spec_reflect(8, n as u64), 0, 0, 8, 0, 0);
    assert((m as u64) == spec_reflect(8, n as u64));
    lemma_reflect_involution(n as u64, 8);
    lemma_mask_ops(nn, 0, 0, 8, 0, 0);
    assert(spec_reflect(8, m as u64) & (((1u64 << 8u64) - 1) as u64) == nn);
    assert(spec_reflect(bits as nat, byte_step(e_s, s_s, n)) == rev_rounds(
        pr,
        spec_reflect(bits as nat, s_s) ^ nn,
        8,
    ));
    // Both registers stay within the width.
    lemma_mask_ops(s_t, 0, nn, bb, 0, 0);
    lemma_rev_rounds_fits(pr, s_t ^ nn, bb, 8);
}

/// Digesting any byte sequence keeps the reflected table-driven register
/// equal to the reflection of the reflected bit-serial register.
proof fn lemma_fold_agree_reflected(
    e_t: Engine,
    e_s: Engine,
    pr: u64,
    bits: u8,
    s_t: u64,
    s_s: u64,
    data: Seq<u8>,
)
    requires
        e_t.wf(),
        e_s.wf(),
        8 <= bits <= 64,
        e_t.by_table,
        e_t.reflect,
        e_t.bits == bits,
        e_t.lookup_table@ == rev_table_seq(pr),
        !e_s.by_table,
        e_s.reflect,
        e_s.bits == bits,
        e_s.poly == spec_reflect(bits as nat, pr),
        fits(pr, bits as u64),
        fits(s_t, bits as u64),
        s_t == spec_reflect(bits as nat, s_s),
    ensures
        fold_bytes(e_t, s_t, data) == spec_reflect(bits as nat, fold_bytes(e_s, s_s, data)),
        fits(fold_bytes(e_t, s_t, data), bits as u64),
    decreases data.len(),
{
    if data.len() > 0 {
        lemma_fold_agree_reflected(e_t, e_s, pr, bits, s_t, s_s, data.drop_last());
        lemma_byte_step_agree_reflected(
            e_t,
            e_s,
            pr,
            bits,
            fold_bytes(e_t, s_t, data.drop_last()),
            fold_bytes(e_s, s_s, data.drop_last()),
            data.last(),
        );
    }
}

/// Table/bit-serial agreement, reflected mode: for any byte-aligned
/// width and identical parameters with reflection on, a table-driven
/// engine and a bit-serial engine read out the same CRC value after
/// digesting the same data, provided the (pre-reflected) polynomial lies
/// within the width and the initial value reads the same in both bit
/// orders.  Without the latter the two update rules genuinely diverge:
/// they seed the register in different orientations.
pub proof fn lemma_table_matches_bitwise_reflected(
    e_t: Engine,
    e_s: Engine,
    poly_rev: u64,
    bits: u8,
    initial: u64,
    final_xor: u64,
    data: Seq<u8>,
)
    requires
        e_t.wf(),
        e_s.wf(),
        8 <= bits,
        e_t.configured(true, poly_rev, bits, initial, final_xor, true, false),
        e_s.configured(false, poly_rev, bits, initial, final_xor, true, false),
        poly_rev & low_mask(bits as nat) == poly_rev,
        spec_reflect(bits as nat, initial) == initial & low_mask(bits as nat),
    ensures
        spec_crc_of(after_digest(e_t, data)) == spec_crc_of(after_digest(e_s, data)),
{
    let bb = bits as u64;
    let s0 = spec_reflect(bits as nat, initial);
    lemma_reflect_involution(initial, bb);
    assert(m64(bb) == low_mask(bits as nat));
    lemma_mask_ops(poly_rev, 0, 0, bb, 0, 0);
    lemma_reflect_bits(initial, bb);
    assert(s0 == spec_reflect(bits as nat, s0)) by {
        assert(spec_reflect(bits as nat, spec_reflect(bits as nat, initial)) == initial & m64(bb));
        assert(initial & m64(bb) == s0);
    }
    lemma_fold_agree_reflected(e_t, e_s, poly_rev, bits, s0, s0, data);
}

} // verus!
