//! CRC values of logical width 33 to 64 bits.

use vstd::prelude::*;

use crate::engine::{fold_bytes, nbytes, spec_crc_of, working_init, Engine};
use crate::hexfmt::{hex_seq, hex_string};
use crate::model::{be_bytes, le_bytes};
use crate::output::{crc_bytes_be, crc_bytes_le};

verus! {

/// Computes a CRC-64 (or CRC-x where x is at most 64) value.
pub struct CRCu64 {
    /// The underlying computation engine.
    pub engine: Engine,
}

impl CRCu64 {
    /// The engine is consistent and its width fits this type.
    pub open spec fn wf(self) -> bool {
        &&& self.engine.wf()
        &&& self.engine.bits <= 64
    }

    /// Create a `CRCu64` instance by providing the length of bits, the
    /// polynomial, an initial value, a final xor value and the
    /// reflection mode.
    pub fn create_crc(poly: u64, bits: u8, initial: u64, final_xor: u64, reflect: bool) -> (crc:
        CRCu64)
        requires
            1 <= bits <= 64,
        ensures
            crc.wf(),
            crc.engine.configured(
                bits % 8 == 0,
                poly as u64,
                bits,
                initial as u64,
                final_xor as u64,
                reflect,
                false,
            ),
    {
        CRCu64 {
            engine: Engine::new(
                bits % 8 == 0,
                poly as u64,
                bits,
                initial as u64,
                final_xor as u64,
                reflect,
            ),
        }
    }

    /// Digest some data.
    pub fn digest(&mut self, data: &[u8])
        requires
            old(self).wf(),
        ensures
            final(self).wf(),
            final(self).engine.eq_config(old(self).engine),
            final(self).engine.sum == fold_bytes(
                old(self).engine,
                old(self).engine.sum,
                data@,
            ),
    {
        self.engine.digest(data);
    }

    /// Reset the running register to the working form of the initial
    /// value.
    pub fn reset(&mut self)
        requires
            old(self).wf(),
        ensures
            final(self).wf(),
            final(self).engine.eq_config(old(self).engine),
            final(self).engine.sum == working_init(
                old(self).engine.bits as nat,
                old(self).engine.initial,
                old(self).engine.reflect,
            ),
    {
        self.engine.reset();
    }

    /// Get the current CRC value.  The state is untouched: `digest` may
    /// be called again afterwards.
    pub fn get_crc(&self) -> (r: u64)
        requires
            self.wf(),
        ensures
            r as u64 == spec_crc_of(self.engine),
    {
        proof {
            crate::engine::lemma_crc_value_bound(self.engine);
        }
        self.engine.get_crc_value()
    }

    /// The current CRC value, as its minimal little-endian byte
    /// encoding: `(bits + 7) / 8` bytes, least significant first.
    pub fn get_crc_vec_le(&mut self) -> (r: Vec<u8>)
        requires
            old(self).wf(),
        ensures
            *final(self) == *old(self),
            r@ == le_bytes(
                spec_crc_of(old(self).engine),
                nbytes(old(self).engine.bits as nat),
            ),
    {
        let crc = self.engine.get_crc_value();
        crc_bytes_le(crc, (self.engine.bits + 7) / 8)
    }

    /// The current CRC value, as its minimal big-endian byte encoding:
    /// `(bits + 7) / 8` bytes, most significant first.
    pub fn get_crc_vec_be(&mut self) -> (r: Vec<u8>)
        requires
            old(self).wf(),
        ensures
            *final(self) == *old(self),
            r@ == be_bytes(
                spec_crc_of(old(self).engine),
                nbytes(old(self).engine.bits as nat),
            ),
    {
        let crc = self.engine.get_crc_value();
        crc_bytes_be(crc, (self.engine.bits + 7) / 8)
    }

    /// The current CRC value as `0x` followed by one upper-case hex
    /// digit per nibble of the logical width.
    pub fn to_hex_string(&self) -> (r: String)
        requires
            self.wf(),
        ensures
            r@ == hex_seq(spec_crc_of(self.engine), (((self.engine.bits + 3) / 4) as nat)),
    {
        let v = self.engine.get_crc_value();
        hex_string(v, (self.engine.bits + 3) / 4)
    }

    /// The lookup table the engine carries (all zeros for an engine that
    /// updates bit-serially).
    pub fn lookup_table(&self) -> (t: &Vec<u64>)
        ensures
            t == self.engine.lookup_table,
    {
        &self.engine.lookup_table
    }
}

impl CRCu64 {
    /// Preset: polynomial `0x0000000004820009`, 40 bits, initial value `0x0000000000000000`,
    /// final xor `0x000000FFFFFFFFFF`, not reflected.
    pub fn crc40gsm() -> (crc: CRCu64)
        ensures
            crc.wf(),
            crc.engine.configured(true, 0x0000000004820009u64, 40, 0x0000000000000000u64, 0x000000FFFFFFFFFFu64, false, false),
    {
        Self::create_crc(0x0000000004820009, 40, 0x0000000000000000, 0x000000FFFFFFFFFF, false)
    }

    /// Preset: polynomial `0x42F0E1EBA9EA3693`, 64 bits, initial value `0x0000000000000000`,
    /// final xor `0x0000000000000000`, not reflected.
    pub fn crc64() -> (crc: CRCu64)
        ensures
            crc.wf(),
            crc.engine.configured(true, 0x42F0E1EBA9EA3693u64, 64, 0x0000000000000000u64, 0x0000000000000000u64, false, false),
    {
        Self::create_crc(0x42F0E1EBA9EA3693, 64, 0x0000000000000000, 0x0000000000000000, false)
    }

    /// Preset: polynomial `0xD800000000000000`, 64 bits, initial value `0xFFFFFFFFFFFFFFFF`,
    /// final xor `0xFFFFFFFFFFFFFFFF`, reflected (the polynomial is given in its reflected form).
    pub fn crc64iso() -> (crc: CRCu64)
        ensures
            crc.wf(),
            crc.engine.configured(true, 0xD800000000000000u64, 64, 0xFFFFFFFFFFFFFFFFu64, 0xFFFFFFFFFFFFFFFFu64, true, false),
    {
        Self::create_crc(0xD800000000000000, 64, 0xFFFFFFFFFFFFFFFF, 0xFFFFFFFFFFFFFFFF, true)
    }

    /// Preset: polynomial `0x42F0E1EBA9EA3693`, 64 bits, initial value `0xFFFFFFFFFFFFFFFF`,
    /// final xor `0xFFFFFFFFFFFFFFFF`, not reflected.
    pub fn crc64we() -> (crc: CRCu64)
        ensures
            crc.wf(),
            crc.engine.configured(true, 0x42F0E1EBA9EA3693u64, 64, 0xFFFFFFFFFFFFFFFFu64, 0xFFFFFFFFFFFFFFFFu64, false, false),
    {
        Self::create_crc(0x42F0E1EBA9EA3693, 64, 0xFFFFFFFFFFFFFFFF, 0xFFFFFFFFFFFFFFFF, false)
    }

    /// Preset: polynomial `0x95AC9329AC4BC9B5`, 64 bits, initial value `0x0000000000000000`,
    /// final xor `0x0000000000000000`, reflected (the polynomial is given in its reflected form).
    pub fn crc64jones() -> (crc: CRCu64)
        ensures
            crc.wf(),
            crc.engine.configured(true, 0x95AC9329AC4BC9B5u64, 64, 0x0000000000000000u64, 0x0000000000000000u64, true, false),
    {
        Self::create_crc(0x95AC9329AC4BC9B5, 64, 0x0000000000000000, 0x0000000000000000, true)
    }
}

} // verus!
