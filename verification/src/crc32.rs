//! CRC values of logical width 17 to 32 bits.

use vstd::prelude::*;

use crate::engine::{fold_bytes, nbytes, spec_crc_of, working_init, Engine};
use crate::hexfmt::{hex_seq, hex_string};
use crate::model::{be_bytes, le_bytes};
use crate::output::{crc_bytes_be, crc_bytes_le};

verus! {

/// Computes a CRC-32 (or CRC-x where x is at most 32) value.
pub struct CRCu32 {
    /// The underlying computation engine.
    pub engine: Engine,
}

impl CRCu32 {
    /// The engine is consistent and its width fits this type.
    pub open spec fn wf(self) -> bool {
        &&& self.engine.wf()
        &&& self.engine.bits <= 32
    }

    /// Create a `CRCu32` instance by providing the length of bits, the
    /// polynomial, an initial value, a final xor value and the
    /// reflection mode.
    pub fn create_crc(poly: u32, bits: u8, initial: u32, final_xor: u32, reflect: bool) -> (crc:
        CRCu32)
        requires
            1 <= bits <= 32,
        ensures
            crc.wf(),
            crc.engine.configured(
                bits % 8 == 0,
                poly as u64,
                bits,
                initial as u64,
                final_xor as u64,
                reflect,
                false,
            ),
    {
        CRCu32 {
            engine: Engine::new(
                bits % 8 == 0,
                poly as u64,
                bits,
                initial as u64,
                final_xor as u64,
                reflect,
            ),
        }
    }

    /// Digest some data.
    pub fn digest(&mut self, data: &[u8])
        requires
            old(self).wf(),
        ensures
            final(self).wf(),
            final(self).engine.eq_config(old(self).engine),
            final(self).engine.sum == fold_bytes(
                old(self).engine,
                old(self).engine.sum,
                data@,
            ),
    {
        self.engine.digest(data);
    }

    /// Reset the running register to the working form of the initial
    /// value.
    pub fn reset(&mut self)
        requires
            old(self).wf(),
        ensures
            final(self).wf(),
            final(self).engine.eq_config(old(self).engine),
            final(self).engine.sum == working_init(
                old(self).engine.bits as nat,
                old(self).engine.initial,
                old(self).engine.reflect,
            ),
    {
        self.engine.reset();
    }

    /// Get the current CRC value.  The state is untouched: `digest` may
    /// be called again afterwards.
    pub fn get_crc(&self) -> (r: u32)
        requires
            self.wf(),
        ensures
            r as u64 == spec_crc_of(self.engine),
    {
        proof {
            crate::engine::lemma_crc_value_bound(self.engine);
        }
        self.engine.get_crc_value() as u32
    }

    /// The current CRC value, as its minimal little-endian byte
    /// encoding: `(bits + 7) / 8` bytes, least significant first.
    pub fn get_crc_vec_le(&mut self) -> (r: Vec<u8>)
        requires
            old(self).wf(),
        ensures
            *final(self) == *old(self),
            r@ == le_bytes(
                spec_crc_of(old(self).engine),
                nbytes(old(self).engine.bits as nat),
            ),
    {
        let crc = self.engine.get_crc_value();
        crc_bytes_le(crc, (self.engine.bits + 7) / 8)
    }

    /// The current CRC value, as its minimal big-endian byte encoding:
    /// `(bits + 7) / 8` bytes, most significant first.
    pub fn get_crc_vec_be(&mut self) -> (r: Vec<u8>)
        requires
            old(self).wf(),
        ensures
            *final(self) == *old(self),
            r@ == be_bytes(
                spec_crc_of(old(self).engine),
                nbytes(old(self).engine.bits as nat),
            ),
    {
        let crc = self.engine.get_crc_value();
        crc_bytes_be(crc, (self.engine.bits + 7) / 8)
    }

    /// The current CRC value as `0x` followed by one upper-case hex
    /// digit per nibble of the logical width.
    pub fn to_hex_string(&self) -> (r: String)
        requires
            self.wf(),
        ensures
            r@ == hex_seq(spec_crc_of(self.engine), (((self.engine.bits + 3) / 4) as nat)),
    {
        let v = self.engine.get_crc_value();
        hex_string(v, (self.engine.bits + 3) / 4)
    }

    /// The lookup table the engine carries (all zeros for an engine that
    /// updates bit-serially).
    pub fn lookup_table(&self) -> (t: &Vec<u64>)
        ensures
            t == self.engine.lookup_table,
    {
        &self.engine.lookup_table
    }
}

impl CRCu32 {
    /// Preset: polynomial `0x0001685B`, 17 bits, initial value `0x00000000`,
    /// final xor `0x00000000`, not reflected.
    pub fn crc17can() -> (crc: CRCu32)
        ensures
            crc.wf(),
            crc.engine.configured(false, 0x0001685Bu64, 17, 0x00000000u64, 0x00000000u64, false, false),
    {
        Self::create_crc(0x0001685B, 17, 0x00000000, 0x00000000, false)
    }

    /// Preset: polynomial `0x00102899`, 21 bits, initial value `0x00000000`,
    /// final xor `0x00000000`, not reflected.
    pub fn crc21can() -> (crc: CRCu32)
        ensures
            crc.wf(),
            crc.engine.configured(false, 0x00102899u64, 21, 0x00000000u64, 0x00000000u64, false, false),
    {
        Self::create_crc(0x00102899, 21, 0x00000000, 0x00000000, false)
    }

    /// Preset: polynomial `0x00864CFB`, 24 bits, initial value `0x00B704CE`,
    /// final xor `0x00000000`, not reflected.
    pub fn crc24() -> (crc: CRCu32)
        ensures
            crc.wf(),
            crc.engine.configured(true, 0x00864CFBu64, 24, 0x00B704CEu64, 0x00000000u64, false, false),
    {
        Self::create_crc(0x00864CFB, 24, 0x00B704CE, 0x00000000, false)
    }

    /// Preset: polynomial `0x00DA6000`, 24 bits, initial value `0x00555555`,
    /// final xor `0x00000000`, reflected (the polynomial is given in its reflected form).
    pub fn crc24ble() -> (crc: CRCu32)
        ensures
            crc.wf(),
            crc.engine.configured(true, 0x00DA6000u64, 24, 0x00555555u64, 0x00000000u64, true, false),
    {
        Self::create_crc(0x00DA6000, 24, 0x00555555, 0x00000000, true)
    }

    /// Preset: polynomial `0x005D6DCB`, 24 bits, initial value `0x00FEDCBA`,
    /// final xor `0x00000000`, not reflected.
    pub fn crc24flexray_a() -> (crc: CRCu32)
        ensures
            crc.wf(),
            crc.engine.configured(true, 0x005D6DCBu64, 24, 0x00FEDCBAu64, 0x00000000u64, false, false),
    {
        Self::create_crc(0x005D6DCB, 24, 0x00FEDCBA, 0x00000000, false)
    }

    /// Preset: polynomial `0x005D6DCB`, 24 bits, initial value `0x00ABCDEF`,
    /// final xor `0x00000000`, not reflected.
    pub fn crc24flexray_b() -> (crc: CRCu32)
        ensures
            crc.wf(),
            crc.engine.configured(true, 0x005D6DCBu64, 24, 0x00ABCDEFu64, 0x00000000u64, false, false),
    {
        Self::create_crc(0x005D6DCB, 24, 0x00ABCDEF, 0x00000000, false)
    }

    /// Preset: polynomial `0x00864CFB`, 24 bits, initial value `0x00000000`,
    /// final xor `0x00000000`, not reflected.
    pub fn crc24lte_a() -> (crc: CRCu32)
        ensures
            crc.wf(),
            crc.engine.configured(true, 0x00864CFBu64, 24, 0x00000000u64, 0x00000000u64, false, false),
    {
        Self::create_crc(0x00864CFB, 24, 0x00000000, 0x00000000, false)
    }

    /// Preset: polynomial `0x00800063`, 24 bits, initial value `0x00000000`,
    /// final xor `0x00000000`, not reflected.
    pub fn crc24lte_b() -> (crc: CRCu32)
        ensures
            crc.wf(),
            crc.engine.configured(true, 0x00800063u64, 24, 0x00000000u64, 0x00000000u64, false, false),
    {
        Self::create_crc(0x00800063, 24, 0x00000000, 0x00000000, false)
    }

    /// Preset: polynomial `0x00800063`, 24 bits, initial value `0x00FFFFFF`,
    /// final xor `0x00FFFFFF`, not reflected.
    pub fn crc24os9() -> (crc: CRCu32)
        ensures
            crc.wf(),
            crc.engine.configured(true, 0x00800063u64, 24, 0x00FFFFFFu64, 0x00FFFFFFu64, false, false),
    {
        Self::create_crc(0x00800063, 24, 0x00FFFFFF, 0x00FFFFFF, false)
    }

    /// Preset: polynomial `0x2030B9C7`, 30 bits, initial value `0x3FFFFFFF`,
    /// final xor `0x3FFFFFFF`, not reflected.
    pub fn crc30cdma() -> (crc: CRCu32)
        ensures
            crc.wf(),
            crc.engine.configured(false, 0x2030B9C7u64, 30, 0x3FFFFFFFu64, 0x3FFFFFFFu64, false, false),
    {
        Self::create_crc(0x2030B9C7, 30, 0x3FFFFFFF, 0x3FFFFFFF, false)
    }

    /// Preset: polynomial `0xEDB88320`, 32 bits, initial value `0xFFFFFFFF`,
    /// final xor `0xFFFFFFFF`, reflected (the polynomial is given in its reflected form).
    pub fn crc32() -> (crc: CRCu32)
        ensures
            crc.wf(),
            crc.engine.configured(true, 0xEDB88320u64, 32, 0xFFFFFFFFu64, 0xFFFFFFFFu64, true, false),
    {
        Self::create_crc(0xEDB88320, 32, 0xFFFFFFFF, 0xFFFFFFFF, true)
    }

    /// Preset: polynomial `0x04C11DB7`, 32 bits, initial value `0xFFFFFFFF`,
    /// final xor `0xFFFFFFFF`, not reflected.
    /// The bytes of the output value are reversed at read time.
    pub fn crc32mhash() -> (crc: CRCu32)
        ensures
            crc.wf(),
            crc.engine.configured(true, 0x04C11DB7u64, 32, 0xFFFFFFFFu64, 0xFFFFFFFFu64, false, true),
    {
        let mut crc = Self::create_crc(0x04C11DB7, 32, 0xFFFFFFFF, 0xFFFFFFFF, false);
        crc.engine.reorder = true;
        crc
    }

    /// Preset: polynomial `0x04C11DB7`, 32 bits, initial value `0xFFFFFFFF`,
    /// final xor `0xFFFFFFFF`, not reflected.
    pub fn crc32bzip2() -> (crc: CRCu32)
        ensures
            crc.wf(),
            crc.engine.configured(true, 0x04C11DB7u64, 32, 0xFFFFFFFFu64, 0xFFFFFFFFu64, false, false),
    {
        Self::create_crc(0x04C11DB7, 32, 0xFFFFFFFF, 0xFFFFFFFF, false)
    }

    /// Preset: polynomial `0x82F63B78`, 32 bits, initial value `0xFFFFFFFF`,
    /// final xor `0xFFFFFFFF`, reflected (the polynomial is given in its reflected form).
    pub fn crc32c() -> (crc: CRCu32)
        ensures
            crc.wf(),
            crc.engine.configured(true, 0x82F63B78u64, 32, 0xFFFFFFFFu64, 0xFFFFFFFFu64, true, false),
    {
        Self::create_crc(0x82F63B78, 32, 0xFFFFFFFF, 0xFFFFFFFF, true)
    }

    /// Preset: polynomial `0xD419CC15`, 32 bits, initial value `0xFFFFFFFF`,
    /// final xor `0xFFFFFFFF`, reflected (the polynomial is given in its reflected form).
    pub fn crc32d() -> (crc: CRCu32)
        ensures
            crc.wf(),
            crc.engine.configured(true, 0xD419CC15u64, 32, 0xFFFFFFFFu64, 0xFFFFFFFFu64, true, false),
    {
        Self::create_crc(0xD419CC15, 32, 0xFFFFFFFF, 0xFFFFFFFF, true)
    }

    /// Preset: polynomial `0x04C11DB7`, 32 bits, initial value `0xFFFFFFFF`,
    /// final xor `0x00000000`, not reflected.
    pub fn crc32mpeg2() -> (crc: CRCu32)
        ensures
            crc.wf(),
            crc.engine.configured(true, 0x04C11DB7u64, 32, 0xFFFFFFFFu64, 0x00000000u64, false, false),
    {
        Self::create_crc(0x04C11DB7, 32, 0xFFFFFFFF, 0x00000000, false)
    }

    /// Preset: polynomial `0x04C11DB7`, 32 bits, initial value `0x00000000`,
    /// final xor `0xFFFFFFFF`, not reflected.
    pub fn crc32posix() -> (crc: CRCu32)
        ensures
            crc.wf(),
            crc.engine.configured(true, 0x04C11DB7u64, 32, 0x00000000u64, 0xFFFFFFFFu64, false, false),
    {
        Self::create_crc(0x04C11DB7, 32, 0x00000000, 0xFFFFFFFF, false)
    }

    /// Preset: polynomial `0x814141AB`, 32 bits, initial value `0x00000000`,
    /// final xor `0x00000000`, not reflected.
    pub fn crc32q() -> (crc: CRCu32)
        ensures
            crc.wf(),
            crc.engine.configured(true, 0x814141ABu64, 32, 0x00000000u64, 0x00000000u64, false, false),
    {
        Self::create_crc(0x814141AB, 32, 0x00000000, 0x00000000, false)
    }

    /// Preset: polynomial `0xEDB88320`, 32 bits, initial value `0xFFFFFFFF`,
    /// final xor `0x00000000`, reflected (the polynomial is given in its reflected form).
    pub fn crc32jamcrc() -> (crc: CRCu32)
        ensures
            crc.wf(),
            crc.engine.configured(true, 0xEDB88320u64, 32, 0xFFFFFFFFu64, 0x00000000u64, true, false),
    {
        Self::create_crc(0xEDB88320, 32, 0xFFFFFFFF, 0x00000000, true)
    }

    /// Preset: polynomial `0x000000AF`, 32 bits, initial value `0x00000000`,
    /// final xor `0x00000000`, not reflected.
    pub fn crc32xfer() -> (crc: CRCu32)
        ensures
            crc.wf(),
            crc.engine.configured(true, 0x000000AFu64, 32, 0x00000000u64, 0x00000000u64, false, false),
    {
        Self::create_crc(0x000000AF, 32, 0x00000000, 0x00000000, false)
    }
}

} // verus!
