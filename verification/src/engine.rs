//! The CRC engine: the running register together with the mode flags and
//! (in table mode) the lookup table, over a 64-bit register.  An engine
//! of logical width `bits` (1 to 64) exposes exactly the low `bits` bits
//! of the register through `get_crc_value`.

use vstd::prelude::*;

use crate::model::{
    bit_step, bit_steps, fwd_table_seq, high_bit_of, low_mask, reorder_bytes, reorder_partial,
    rev8, rev_table_seq, spec_reflect, zero_table_seq,
};
use crate::reflect::reflect_value;
use crate::table::{make_reflect_table, make_table, zero_table};

verus! {

/// One CRC computation in progress: the register `sum` advances byte by
/// byte under `digest`, and `get_crc_value` reads the externally visible
/// value out of it.
pub struct Engine {
    /// True iff updates go through the lookup table (byte-aligned width).
    pub by_table: bool,
    /// In bit-serial mode, the working polynomial (bit-reversed back to
    /// most-significant-bit-first form when `reflect` is set); unused and
    /// zero in table mode, where the table already encodes it.
    pub poly: u64,
    /// The 256-entry lookup table; an all-zero placeholder in bit-serial
    /// mode.
    pub lookup_table: Vec<u64>,
    /// The running register.
    pub sum: u64,
    /// The logical CRC width, 1 to 64.
    pub bits: u8,
    /// The single bit at position `bits - 1`.
    pub high_bit: u64,
    /// The mask covering exactly the low `bits` bits.
    pub mask: u64,
    /// The caller-supplied initial value, in raw (un-reflected) form.
    pub initial: u64,
    /// The constant xored into the finished register at read time.
    pub final_xor: u64,
    /// Whether data bits are processed least-significant-bit-first.
    pub reflect: bool,
    /// Whether the bytes of the output value are reversed at read time.
    pub reorder: bool,
}

/// The working form of the initial value: the form the register is
/// seeded with at construction and restored to by `reset`.
pub open spec fn working_init(bits: nat, initial: u64, reflect: bool) -> u64 {
    if reflect {
        spec_reflect(bits, initial)
    } else {
        initial
    }
}

/// One whole input byte folded into the register, by the update rule the
/// engine's mode selects.
pub open spec fn byte_step(e: Engine, sum: u64, n: u8) -> u64 {
    if e.by_table {
        if e.bits == 8 {
            e.lookup_table@[(((sum as u8) ^ n) as int)]
        } else if e.reflect {
            (sum >> 8) ^ e.lookup_table@[(((sum as u8) ^ n) as int)]
        } else {
            (sum << 8) ^ e.lookup_table@[((((sum >> ((e.bits - 8) as u64)) as u8) ^ n) as int)]
        }
    } else if e.reflect {
        bit_steps(e.poly, e.high_bit, sum, rev8(n), 8)
    } else {
        bit_steps(e.poly, e.high_bit, sum, n, 8)
    }
}

/// A whole byte sequence folded into the register, front to back.
pub open spec fn fold_bytes(e: Engine, sum: u64, data: Seq<u8>) -> u64
    decreases data.len(),
{
    if data.len() == 0 {
        sum
    } else {
        byte_step(e, fold_bytes(e, sum, data.drop_last()), data.last())
    }
}

/// The externally visible value before the output byte-reorder: final
/// xor and masking, with a read-time bit reversal in bit-serial
/// reflected mode (that mode keeps the register in internal
/// most-significant-bit-first orientation).
pub open spec fn raw_crc(e: Engine) -> u64 {
    if e.by_table || !e.reflect {
        (e.sum ^ e.final_xor) & e.mask
    } else {
        (spec_reflect(e.bits as nat, e.sum) ^ e.final_xor) & e.mask
    }
}

/// The number of bytes the output value occupies.
pub open spec fn nbytes(bits: nat) -> nat {
    (bits + 7) / 8
}

/// The externally visible CRC value of the engine's current state.
pub open spec fn spec_crc_of(e: Engine) -> u64 {
    if e.reorder {
        reorder_bytes(raw_crc(e), nbytes(e.bits as nat))
    } else {
        raw_crc(e)
    }
}

impl Engine {
    /// Internal consistency of the derived fields.
    pub open spec fn wf(self) -> bool {
        &&& 1 <= self.bits <= 64
        &&& self.high_bit == high_bit_of(self.bits as nat)
        &&& self.mask == low_mask(self.bits as nat)
        &&& self.lookup_table@.len() == 256
        &&& self.by_table ==> self.bits % 8 == 0
    }

    /// The engine is exactly the one `Engine::new` builds from these
    /// parameters, with the given output byte-order flag.
    pub open spec fn configured(
        self,
        by_table: bool,
        poly: u64,
        bits: u8,
        initial: u64,
        final_xor: u64,
        reflect: bool,
        reorder: bool,
    ) -> bool {
        &&& self.by_table == by_table
        &&& self.bits == bits
        &&& self.high_bit == high_bit_of(bits as nat)
        &&& self.mask == low_mask(bits as nat)
        &&& self.initial == initial
        &&& self.final_xor == final_xor
        &&& self.reflect == reflect
        &&& self.reorder == reorder
        &&& self.poly == (if by_table {
            0u64
        } else if reflect {
            spec_reflect(bits as nat, poly)
        } else {
            poly
        })
        &&& self.lookup_table@ == (if !by_table {
            zero_table_seq()
        } else if reflect {
            rev_table_seq(poly)
        } else {
            fwd_table_seq(poly, bits as nat)
        })
        &&& self.sum == working_init(bits as nat, initial, reflect)
    }

    /// The two engines differ at most in the running register.
    pub open spec fn eq_config(self, other: Engine) -> bool {
        &&& self.by_table == other.by_table
        &&& self.poly == other.poly
        &&& self.lookup_table == other.lookup_table
        &&& self.bits == other.bits
        &&& self.high_bit == other.high_bit
        &&& self.mask == other.mask
        &&& self.initial == other.initial
        &&& self.final_xor == other.final_xor
        &&& self.reflect == other.reflect
        &&& self.reorder == other.reorder
    }

    /// Build an engine.  In table mode the lookup table is derived from
    /// the polynomial; in bit-serial reflected mode the (pre-reflected)
    /// polynomial is bit-reversed back to internal orientation.  The
    /// register is seeded with the working form of `initial`.
    pub fn new(by_table: bool, poly: u64, bits: u8, initial: u64, final_xor: u64, reflect: bool)
        -> (e: Engine)
        requires
            1 <= bits <= 64,
            by_table ==> bits % 8 == 0,
        ensures
            e.wf(),
            e.configured(by_table, poly, bits, initial, final_xor, reflect, false),
    {
        let high_bit = 1u64 << ((bits - 1) as u64);
        proof {
            crate::model::lemma_pow2_nonzero((bits - 1) as u64);
        }
        let mask = ((high_bit - 1) << 1) | 1;
        let sum = if reflect {
            reflect_value(bits, initial)
        } else {
            initial
        };
        let eff_poly: u64;
        let lookup_table: Vec<u64>;
        if by_table {
            eff_poly = 0;
            lookup_table = if reflect {
                make_reflect_table(poly)
            } else {
                make_table(poly, bits)
            };
        } else {
            eff_poly = if reflect {
                reflect_value(bits, poly)
            } else {
                poly
            };
            lookup_table = zero_table();
        }
        Engine {
            by_table,
            poly: eff_poly,
            lookup_table,
            sum,
            bits,
            high_bit,
            mask,
            initial,
            final_xor,
            reflect,
            reorder: false,
        }
    }

    /// Fold the data into the running register, one byte at a time.
    /// Digesting a sequence in chunks gives the same register as
    /// digesting the concatenation at once (`lemma_digest_chunks`).
    pub fn digest(&mut self, data: &[u8])
        requires
            old(self).wf(),
        ensures
            final(self).wf(),
            final(self).eq_config(*old(self)),
            final(self).sum == fold_bytes(*old(self), old(self).sum, data@),
    {
        let mut idx: usize = 0;
        while idx < data.len()
            invariant
                self.wf(),
                self.eq_config(*old(self)),
                idx <= data@.len(),
                self.sum == fold_bytes(*old(self), old(self).sum, data@.take(idx as int)),
            decreases data@.len() - idx,
        {
            let n = data[idx];
            let s = step_one(&*self, self.sum, n);
            proof {
                assert(data@.take(idx + 1).drop_last() =~= data@.take(idx as int));
                assert(data@.take(idx + 1).last() == data@[idx as int]);
                assert(byte_step(*self, self.sum, n) == byte_step(*old(self), self.sum, n));
            }
            self.sum = s;
            idx = idx + 1;
        }
        proof {
            assert(data@.take(data@.len() as int) =~= data@);
        }
    }

    /// Restore the register to the working form of the initial value,
    /// exactly the value installed at construction.
    pub fn reset(&mut self)
        requires
            old(self).wf(),
        ensures
            final(self).wf(),
            final(self).eq_config(*old(self)),
            final(self).sum == working_init(
                old(self).bits as nat,
                old(self).initial,
                old(self).reflect,
            ),
    {
        if self.reflect {
            let s = reflect_value(self.bits, self.initial);
            self.sum = s;
        } else {
            self.sum = self.initial;
        }
    }

    /// Read the externally visible CRC value out of the register.  The
    /// state is untouched: repeated reads return the same value.
    pub fn get_crc_value(&self) -> (r: u64)
        requires
            self.wf(),
        ensures
            r == spec_crc_of(*self),
    {
        let s = if self.by_table || !self.reflect {
            (self.sum ^ self.final_xor) & self.mask
        } else {
            (reflect_value(self.bits, self.sum) ^ self.final_xor) & self.mask
        };
        if self.reorder {
            let e = (self.bits as u64 + 7) / 8;
            let e_dec = e - 1;
            let mut new_sum: u64 = 0;
            let mut i: u64 = 0;
            while i < e
                invariant
                    1 <= e <= 8,
                    e == nbytes(self.bits as nat),
                    e_dec == e - 1,
                    i <= e,
                    new_sum == reorder_partial(s, e as nat, i as nat),
                decreases e - i,
            {
                new_sum = new_sum | (((s >> ((e_dec - i) * 8)) & 0xFF) << (i * 8));
                proof {
                    crate::model::lemma_byte_cast(s >> ((e_dec - i) * 8));
                }
                i = i + 1;
            }
            new_sum
        } else {
            s
        }
    }
}

/// The engine as it stands after digesting `data`: only the register has
/// moved.
pub open spec fn after_digest(e: Engine, data: Seq<u8>) -> Engine {
    Engine { sum: fold_bytes(e, e.sum, data), ..e }
}

/// The engine as it stands after `reset`: the register holds the working
/// form of the initial value again.
pub open spec fn after_reset(e: Engine) -> Engine {
    Engine { sum: working_init(e.bits as nat, e.initial, e.reflect), ..e }
}

/// Splitting a byte stream at any index and digesting the two parts in
/// order advances the register exactly as digesting the whole stream in
/// one call: the update has no lookahead or buffering beyond the
/// register itself.
pub proof fn lemma_digest_chunks(e: Engine, sum: u64, part1: Seq<u8>, part2: Seq<u8>)
    ensures
        fold_bytes(e, sum, part1 + part2) == fold_bytes(e, fold_bytes(e, sum, part1), part2),
    decreases part2.len(),
{
    if part2.len() == 0 {
        assert(part1 + part2 =~= part1);
    } else {
        lemma_digest_chunks(e, sum, part1, part2.drop_last());
        assert((part1 + part2).drop_last() =~= part1 + part2.drop_last());
    }
}

/// `reset` discards everything that was digested: digesting any data and
/// then resetting leaves the engine in exactly the state a freshly
/// constructed engine with the same parameters starts in (which is also
/// the state resetting without digesting anything reaches).
pub proof fn lemma_reset_equivalence(e: Engine, data: Seq<u8>)
    ensures
        after_reset(after_digest(e, data)) == after_reset(e),
{
}

/// The externally visible value fits in the `nbytes(bits)` output bytes,
/// and hence in any integer type of at least `bits` bits.
pub proof fn lemma_crc_value_bound(e: Engine)
    requires
        e.wf(),
    ensures
        nbytes(e.bits as nat) < 8 ==> spec_crc_of(e) >> ((8 * nbytes(e.bits as nat)) as u64) == 0,
        e.bits <= 8 ==> spec_crc_of(e) <= 0xFF,
        e.bits <= 16 ==> spec_crc_of(e) <= 0xFFFF,
        e.bits <= 32 ==> spec_crc_of(e) <= 0xFFFF_FFFF,
{
    let b = e.bits as u64;
    let eb = (((b + 7) / 8) as u64);
    crate::output::lemma_masked_value_fits(e.sum ^ e.final_xor, b, eb);
    crate::output::lemma_masked_value_fits(
        spec_reflect(e.bits as nat, e.sum) ^ e.final_xor,
        b,
        eb,
    );
    if e.reorder && eb < 8 {
        crate::output::lemma_reorder_fits(raw_crc(e), eb as nat, eb as nat);
    }
    crate::model::lemma_shr_bounds(spec_crc_of(e));
}

/// The two byte encodings of the engine's visible value are reversals of
/// each other, and each denotes that value again.
pub proof fn lemma_engine_endian(e: Engine)
    requires
        e.wf(),
    ensures
        crate::model::be_bytes(spec_crc_of(e), nbytes(e.bits as nat)) == crate::model::le_bytes(
            spec_crc_of(e),
            nbytes(e.bits as nat),
        ).reverse(),
        crate::model::le_decode(
            crate::model::le_bytes(spec_crc_of(e), nbytes(e.bits as nat)),
        ) == spec_crc_of(e),
{
    lemma_crc_value_bound(e);
    crate::output::lemma_endian_reverse(spec_crc_of(e), nbytes(e.bits as nat));
    crate::output::lemma_le_decode(spec_crc_of(e), nbytes(e.bits as nat));
}

/// One byte folded into the given register value, by the engine's mode.
fn step_one(e: &Engine, sum: u64, n: u8) -> (r: u64)
    requires
        e.wf(),
    ensures
        r == byte_step(*e, sum, n),
{
    if e.by_table {
        if e.bits == 8 {
            let i = ((sum as u8) ^ n) as usize;
            e.lookup_table[i]
        } else if e.reflect {
            let i = ((sum as u8) ^ n) as usize;
            (sum >> 8) ^ e.lookup_table[i]
        } else {
            let i = (((sum >> ((e.bits - 8) as u64)) as u8) ^ n) as usize;
            (sum << 8) ^ e.lookup_table[i]
        }
    } else {
        let m = if e.reflect {
            reflect_value(8, n as u64) as u8
        } else {
            n
        };
        let mut s = sum;
        let mut i: u8 = 0x80;
        let ghost mut t: nat = 0;
        proof {
            assert(0x80u8 >> 0u8 == 0x80u8) by (bit_vector);
        }
        while i != 0
            invariant
                t <= 8,
                i == (if t < 8 {
                    (0x80u8 >> (t as u8)) as u8
                } else {
                    0u8
                }),
                s == bit_steps(e.poly, e.high_bit, sum, m, t),
            decreases 8 - t,
        {
            proof {
                crate::model::lemma_bit8(m, t as u8);
                assert(t < 8);
            }
            let mut b = s & e.high_bit;
            s = s << 1;
            if m & i != 0 {
                b = b ^ e.high_bit;
            }
            if b != 0 {
                s = s ^ e.poly;
            }
            i = i >> 1;
            proof {
                t = t + 1;
            }
        }
        proof {
            if t < 8 {
                crate::model::lemma_bit8(m, t as u8);
            }
        }
        s
    }
}

} // verus!
