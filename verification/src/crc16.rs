//! CRC values of logical width 9 to 16 bits.

use vstd::prelude::*;

use crate::engine::{fold_bytes, nbytes, spec_crc_of, working_init, Engine};
use crate::hexfmt::{hex_seq, hex_string};
use crate::model::{be_bytes, le_bytes};
use crate::output::{crc_bytes_be, crc_bytes_le};

verus! {

/// Computes a CRC-16 (or CRC-x where x is at most 16) value.
pub struct CRCu16 {
    /// The underlying computation engine.
    pub engine: Engine,
}

impl CRCu16 {
    /// The engine is consistent and its width fits this type.
    pub open spec fn wf(self) -> bool {
        &&& self.engine.wf()
        &&& self.engine.bits <= 16
    }

    /// Create a `CRCu16` instance by providing the length of bits, the
    /// polynomial, an initial value, a final xor value and the
    /// reflection mode.
    pub fn create_crc(poly: u16, bits: u8, initial: u16, final_xor: u16, reflect: bool) -> (crc:
        CRCu16)
        requires
            1 <= bits <= 16,
        ensures
            crc.wf(),
            crc.engine.configured(
                bits % 8 == 0,
                poly as u64,
                bits,
                initial as u64,
                final_xor as u64,
                reflect,
                false,
            ),
    {
        CRCu16 {
            engine: Engine::new(
                bits % 8 == 0,
                poly as u64,
                bits,
                initial as u64,
                final_xor as u64,
                reflect,
            ),
        }
    }

    /// Digest some data.
    pub fn digest(&mut self, data: &[u8])
        requires
            old(self).wf(),
        ensures
            final(self).wf(),
            final(self).engine.eq_config(old(self).engine),
            final(self).engine.sum == fold_bytes(
                old(self).engine,
                old(self).engine.sum,
                data@,
            ),
    {
        self.engine.digest(data);
    }

    /// Reset the running register to the working form of the initial
    /// value.
    pub fn reset(&mut self)
        requires
            old(self).wf(),
        ensures
            final(self).wf(),
            final(self).engine.eq_config(old(self).engine),
            final(self).engine.sum == working_init(
                old(self).engine.bits as nat,
                old(self).engine.initial,
                old(self).engine.reflect,
            ),
    {
        self.engine.reset();
    }

    /// Get the current CRC value.  The state is untouched: `digest` may
    /// be called again afterwards.
    pub fn get_crc(&self) -> (r: u16)
        requires
            self.wf(),
        ensures
            r as u64 == spec_crc_of(self.engine),
    {
        proof {
            crate::engine::lemma_crc_value_bound(self.engine);
        }
        self.engine.get_crc_value() as u16
    }

    /// The current CRC value, as its minimal little-endian byte
    /// encoding: `(bits + 7) / 8` bytes, least significant first.
    pub fn get_crc_vec_le(&mut self) -> (r: Vec<u8>)
        requires
            old(self).wf(),
        ensures
            *final(self) == *old(self),
            r@ == le_bytes(
                spec_crc_of(old(self).engine),
                nbytes(old(self).engine.bits as nat),
            ),
    {
        let crc = self.engine.get_crc_value();
        crc_bytes_le(crc, (self.engine.bits + 7) / 8)
    }

    /// The current CRC value, as its minimal big-endian byte encoding:
    /// `(bits + 7) / 8` bytes, most significant first.
    pub fn get_crc_vec_be(&mut self) -> (r: Vec<u8>)
        requires
            old(self).wf(),
        ensures
            *final(self) == *old(self),
            r@ == be_bytes(
                spec_crc_of(old(self).engine),
                nbytes(old(self).engine.bits as nat),
            ),
    {
        let crc = self.engine.get_crc_value();
        crc_bytes_be(crc, (self.engine.bits + 7) / 8)
    }

    /// The current CRC value as `0x` followed by one upper-case hex
    /// digit per nibble of the logical width.
    pub fn to_hex_string(&self) -> (r: String)
        requires
            self.wf(),
        ensures
            r@ == hex_seq(spec_crc_of(self.engine), (((self.engine.bits + 3) / 4) as nat)),
    {
        let v = self.engine.get_crc_value();
        hex_string(v, (self.engine.bits + 3) / 4)
    }

    /// The lookup table the engine carries (all zeros for an engine that
    /// updates bit-serially).
    pub fn lookup_table(&self) -> (t: &Vec<u64>)
        ensures
            t == self.engine.lookup_table,
    {
        &self.engine.lookup_table
    }
}

impl CRCu16 {
    /// Preset: polynomial `0x0233`, 10 bits, initial value `0x0000`,
    /// final xor `0x0000`, not reflected.
    pub fn crc10() -> (crc: CRCu16)
        ensures
            crc.wf(),
            crc.engine.configured(false, 0x0233u64, 10, 0x0000u64, 0x0000u64, false, false),
    {
        Self::create_crc(0x0233, 10, 0x0000, 0x0000, false)
    }

    /// Preset: polynomial `0x03D9`, 10 bits, initial value `0x03FF`,
    /// final xor `0x0000`, not reflected.
    pub fn crc10cdma2000() -> (crc: CRCu16)
        ensures
            crc.wf(),
            crc.engine.configured(false, 0x03D9u64, 10, 0x03FFu64, 0x0000u64, false, false),
    {
        Self::create_crc(0x03D9, 10, 0x03FF, 0x0000, false)
    }

    /// Preset: polynomial `0x0175`, 10 bits, initial value `0x0000`,
    /// final xor `0x03FF`, not reflected.
    pub fn crc10gsm() -> (crc: CRCu16)
        ensures
            crc.wf(),
            crc.engine.configured(false, 0x0175u64, 10, 0x0000u64, 0x03FFu64, false, false),
    {
        Self::create_crc(0x0175, 10, 0x0000, 0x03FF, false)
    }

    /// Preset: polynomial `0x0385`, 11 bits, initial value `0x001a`,
    /// final xor `0x0000`, not reflected.
    pub fn crc11() -> (crc: CRCu16)
        ensures
            crc.wf(),
            crc.engine.configured(false, 0x0385u64, 11, 0x001au64, 0x0000u64, false, false),
    {
        Self::create_crc(0x0385, 11, 0x001a, 0x0000, false)
    }

    /// Preset: polynomial `0x080F`, 12 bits, initial value `0x0000`,
    /// final xor `0x0000`, not reflected.
    pub fn crc12() -> (crc: CRCu16)
        ensures
            crc.wf(),
            crc.engine.configured(false, 0x080Fu64, 12, 0x0000u64, 0x0000u64, false, false),
    {
        Self::create_crc(0x080F, 12, 0x0000, 0x0000, false)
    }

    /// Preset: polynomial `0x0F13`, 12 bits, initial value `0x0FFF`,
    /// final xor `0x0000`, not reflected.
    pub fn crc12cdma2000() -> (crc: CRCu16)
        ensures
            crc.wf(),
            crc.engine.configured(false, 0x0F13u64, 12, 0x0FFFu64, 0x0000u64, false, false),
    {
        Self::create_crc(0x0F13, 12, 0x0FFF, 0x0000, false)
    }

    /// Preset: polynomial `0x0D31`, 12 bits, initial value `0x0000`,
    /// final xor `0x0FFF`, not reflected.
    pub fn crc12gsm() -> (crc: CRCu16)
        ensures
            crc.wf(),
            crc.engine.configured(false, 0x0D31u64, 12, 0x0000u64, 0x0FFFu64, false, false),
    {
        Self::create_crc(0x0D31, 12, 0x0000, 0x0FFF, false)
    }

    /// Preset: polynomial `0x1CF5`, 13 bits, initial value `0x0000`,
    /// final xor `0x0000`, not reflected.
    pub fn crc13bbc() -> (crc: CRCu16)
        ensures
            crc.wf(),
            crc.engine.configured(false, 0x1CF5u64, 13, 0x0000u64, 0x0000u64, false, false),
    {
        Self::create_crc(0x1CF5, 13, 0x0000, 0x0000, false)
    }

    /// Preset: polynomial `0x2804`, 14 bits, initial value `0x0000`,
    /// final xor `0x0000`, reflected (the polynomial is given in its reflected form).
    pub fn crc14darc() -> (crc: CRCu16)
        ensures
            crc.wf(),
            crc.engine.configured(false, 0x2804u64, 14, 0x0000u64, 0x0000u64, true, false),
    {
        Self::create_crc(0x2804, 14, 0x0000, 0x0000, true)
    }

    /// Preset: polynomial `0x202D`, 14 bits, initial value `0x0000`,
    /// final xor `0x3FFF`, not reflected.
    pub fn crc14gsm() -> (crc: CRCu16)
        ensures
            crc.wf(),
            crc.engine.configured(false, 0x202Du64, 14, 0x0000u64, 0x3FFFu64, false, false),
    {
        Self::create_crc(0x202D, 14, 0x0000, 0x3FFF, false)
    }

    /// Preset: polynomial `0x4599`, 15 bits, initial value `0x0000`,
    /// final xor `0x0000`, not reflected.
    pub fn crc15can() -> (crc: CRCu16)
        ensures
            crc.wf(),
            crc.engine.configured(false, 0x4599u64, 15, 0x0000u64, 0x0000u64, false, false),
    {
        Self::create_crc(0x4599, 15, 0x0000, 0x0000, false)
    }

    /// Preset: polynomial `0x6815`, 15 bits, initial value `0x0000`,
    /// final xor `0x0001`, not reflected.
    pub fn crc15mpt1327() -> (crc: CRCu16)
        ensures
            crc.wf(),
            crc.engine.configured(false, 0x6815u64, 15, 0x0000u64, 0x0001u64, false, false),
    {
        Self::create_crc(0x6815, 15, 0x0000, 0x0001, false)
    }

    /// Preset: polynomial `0xA001`, 16 bits, initial value `0x0000`,
    /// final xor `0x0000`, reflected (the polynomial is given in its reflected form).
    pub fn crc16() -> (crc: CRCu16)
        ensures
            crc.wf(),
            crc.engine.configured(true, 0xA001u64, 16, 0x0000u64, 0x0000u64, true, false),
    {
        Self::create_crc(0xA001, 16, 0x0000, 0x0000, true)
    }

    /// Preset: polynomial `0x1021`, 16 bits, initial value `0xFFFF`,
    /// final xor `0x0000`, not reflected.
    pub fn crc16ccitt_false() -> (crc: CRCu16)
        ensures
            crc.wf(),
            crc.engine.configured(true, 0x1021u64, 16, 0xFFFFu64, 0x0000u64, false, false),
    {
        Self::create_crc(0x1021, 16, 0xFFFF, 0x0000, false)
    }

    /// Preset: polynomial `0x1021`, 16 bits, initial value `0x1D0F`,
    /// final xor `0x0000`, not reflected.
    pub fn crc16aug_ccitt() -> (crc: CRCu16)
        ensures
            crc.wf(),
            crc.engine.configured(true, 0x1021u64, 16, 0x1D0Fu64, 0x0000u64, false, false),
    {
        Self::create_crc(0x1021, 16, 0x1D0F, 0x0000, false)
    }

    /// Preset: polynomial `0x8005`, 16 bits, initial value `0x0000`,
    /// final xor `0x0000`, not reflected.
    pub fn crc16buypass() -> (crc: CRCu16)
        ensures
            crc.wf(),
            crc.engine.configured(true, 0x8005u64, 16, 0x0000u64, 0x0000u64, false, false),
    {
        Self::create_crc(0x8005, 16, 0x0000, 0x0000, false)
    }

    /// Preset: polynomial `0xC867`, 16 bits, initial value `0xFFFF`,
    /// final xor `0x0000`, not reflected.
    pub fn crc16cdma2000() -> (crc: CRCu16)
        ensures
            crc.wf(),
            crc.engine.configured(true, 0xC867u64, 16, 0xFFFFu64, 0x0000u64, false, false),
    {
        Self::create_crc(0xC867, 16, 0xFFFF, 0x0000, false)
    }

    /// Preset: polynomial `0x8005`, 16 bits, initial value `0x800D`,
    /// final xor `0x0000`, not reflected.
    pub fn crc16dds_110() -> (crc: CRCu16)
        ensures
            crc.wf(),
            crc.engine.configured(true, 0x8005u64, 16, 0x800Du64, 0x0000u64, false, false),
    {
        Self::create_crc(0x8005, 16, 0x800D, 0x0000, false)
    }

    /// Preset: polynomial `0x0589`, 16 bits, initial value `0x0000`,
    /// final xor `0x0001`, not reflected.
    pub fn crc16dect_r() -> (crc: CRCu16)
        ensures
            crc.wf(),
            crc.engine.configured(true, 0x0589u64, 16, 0x0000u64, 0x0001u64, false, false),
    {
        Self::create_crc(0x0589, 16, 0x0000, 0x0001, false)
    }

    /// Preset: polynomial `0x0589`, 16 bits, initial value `0x0000`,
    /// final xor `0x0000`, not reflected.
    pub fn crc16dect_x() -> (crc: CRCu16)
        ensures
            crc.wf(),
            crc.engine.configured(true, 0x0589u64, 16, 0x0000u64, 0x0000u64, false, false),
    {
        Self::create_crc(0x0589, 16, 0x0000, 0x0000, false)
    }

    /// Preset: polynomial `0xA6BC`, 16 bits, initial value `0x0000`,
    /// final xor `0xFFFF`, reflected (the polynomial is given in its reflected form).
    pub fn crc16dnp() -> (crc: CRCu16)
        ensures
            crc.wf(),
            crc.engine.configured(true, 0xA6BCu64, 16, 0x0000u64, 0xFFFFu64, true, false),
    {
        Self::create_crc(0xA6BC, 16, 0x0000, 0xFFFF, true)
    }

    /// Preset: polynomial `0x3D65`, 16 bits, initial value `0x0000`,
    /// final xor `0xFFFF`, not reflected.
    pub fn crc16en_13757() -> (crc: CRCu16)
        ensures
            crc.wf(),
            crc.engine.configured(true, 0x3D65u64, 16, 0x0000u64, 0xFFFFu64, false, false),
    {
        Self::create_crc(0x3D65, 16, 0x0000, 0xFFFF, false)
    }

    /// Preset: polynomial `0x1021`, 16 bits, initial value `0xFFFF`,
    /// final xor `0xFFFF`, not reflected.
    pub fn crc16genibus() -> (crc: CRCu16)
        ensures
            crc.wf(),
            crc.engine.configured(true, 0x1021u64, 16, 0xFFFFu64, 0xFFFFu64, false, false),
    {
        Self::create_crc(0x1021, 16, 0xFFFF, 0xFFFF, false)
    }

    /// Preset: polynomial `0xA001`, 16 bits, initial value `0x0000`,
    /// final xor `0xFFFF`, reflected (the polynomial is given in its reflected form).
    pub fn crc16maxim() -> (crc: CRCu16)
        ensures
            crc.wf(),
            crc.engine.configured(true, 0xA001u64, 16, 0x0000u64, 0xFFFFu64, true, false),
    {
        Self::create_crc(0xA001, 16, 0x0000, 0xFFFF, true)
    }

    /// Preset: polynomial `0x8408`, 16 bits, initial value `0xFFFF`,
    /// final xor `0x0000`, reflected (the polynomial is given in its reflected form).
    pub fn crc16mcrf4cc() -> (crc: CRCu16)
        ensures
            crc.wf(),
            crc.engine.configured(true, 0x8408u64, 16, 0xFFFFu64, 0x0000u64, true, false),
    {
        Self::create_crc(0x8408, 16, 0xFFFF, 0x0000, true)
    }

    /// Preset: polynomial `0x8408`, 16 bits, initial value `0xB2AA`,
    /// final xor `0x0000`, reflected (the polynomial is given in its reflected form).
    pub fn crc16riello() -> (crc: CRCu16)
        ensures
            crc.wf(),
            crc.engine.configured(true, 0x8408u64, 16, 0xB2AAu64, 0x0000u64, true, false),
    {
        Self::create_crc(0x8408, 16, 0xB2AA, 0x0000, true)
    }

    /// Preset: polynomial `0x8BB7`, 16 bits, initial value `0x0000`,
    /// final xor `0x0000`, not reflected.
    pub fn crc16t10_dif() -> (crc: CRCu16)
        ensures
            crc.wf(),
            crc.engine.configured(true, 0x8BB7u64, 16, 0x0000u64, 0x0000u64, false, false),
    {
        Self::create_crc(0x8BB7, 16, 0x0000, 0x0000, false)
    }

    /// Preset: polynomial `0xA097`, 16 bits, initial value `0x0000`,
    /// final xor `0x0000`, not reflected.
    pub fn crc16teledisk() -> (crc: CRCu16)
        ensures
            crc.wf(),
            crc.engine.configured(true, 0xA097u64, 16, 0x0000u64, 0x0000u64, false, false),
    {
        Self::create_crc(0xA097, 16, 0x0000, 0x0000, false)
    }

    /// Preset: polynomial `0x8408`, 16 bits, initial value `0x89EC`,
    /// final xor `0x0000`, reflected (the polynomial is given in its reflected form).
    pub fn crc16tms13157() -> (crc: CRCu16)
        ensures
            crc.wf(),
            crc.engine.configured(true, 0x8408u64, 16, 0x89ECu64, 0x0000u64, true, false),
    {
        Self::create_crc(0x8408, 16, 0x89EC, 0x0000, true)
    }

    /// Preset: polynomial `0xA001`, 16 bits, initial value `0xFFFF`,
    /// final xor `0xFFFF`, reflected (the polynomial is given in its reflected form).
    pub fn crc16usb() -> (crc: CRCu16)
        ensures
            crc.wf(),
            crc.engine.configured(true, 0xA001u64, 16, 0xFFFFu64, 0xFFFFu64, true, false),
    {
        Self::create_crc(0xA001, 16, 0xFFFF, 0xFFFF, true)
    }

    /// Preset: polynomial `0x8408`, 16 bits, initial value `0xC6C6`,
    /// final xor `0x0000`, reflected (the polynomial is given in its reflected form).
    pub fn crc_a() -> (crc: CRCu16)
        ensures
            crc.wf(),
            crc.engine.configured(true, 0x8408u64, 16, 0xC6C6u64, 0x0000u64, true, false),
    {
        Self::create_crc(0x8408, 16, 0xC6C6, 0x0000, true)
    }

    /// Preset: polynomial `0x8408`, 16 bits, initial value `0x0000`,
    /// final xor `0x0000`, reflected (the polynomial is given in its reflected form).
    pub fn crc16kermit() -> (crc: CRCu16)
        ensures
            crc.wf(),
            crc.engine.configured(true, 0x8408u64, 16, 0x0000u64, 0x0000u64, true, false),
    {
        Self::create_crc(0x8408, 16, 0x0000, 0x0000, true)
    }

    /// Preset: polynomial `0xA001`, 16 bits, initial value `0xFFFF`,
    /// final xor `0x0000`, reflected (the polynomial is given in its reflected form).
    pub fn crc16modbus() -> (crc: CRCu16)
        ensures
            crc.wf(),
            crc.engine.configured(true, 0xA001u64, 16, 0xFFFFu64, 0x0000u64, true, false),
    {
        Self::create_crc(0xA001, 16, 0xFFFF, 0x0000, true)
    }

    /// Preset: polynomial `0x8408`, 16 bits, initial value `0xFFFF`,
    /// final xor `0xFFFF`, reflected (the polynomial is given in its reflected form).
    pub fn crc16_x25() -> (crc: CRCu16)
        ensures
            crc.wf(),
            crc.engine.configured(true, 0x8408u64, 16, 0xFFFFu64, 0xFFFFu64, true, false),
    {
        Self::create_crc(0x8408, 16, 0xFFFF, 0xFFFF, true)
    }

    /// Preset: polynomial `0x1021`, 16 bits, initial value `0x0000`,
    /// final xor `0x0000`, not reflected.
    pub fn crc16xmodem() -> (crc: CRCu16)
        ensures
            crc.wf(),
            crc.engine.configured(true, 0x1021u64, 16, 0x0000u64, 0x0000u64, false, false),
    {
        Self::create_crc(0x1021, 16, 0x0000, 0x0000, false)
    }
}

} // verus!
