//! CRC values of logical width 1 to 8 bits.

use vstd::prelude::*;

use crate::engine::{fold_bytes, spec_crc_of, working_init, Engine};
use crate::hexfmt::{hex_seq, hex_string};

verus! {

/// Computes a CRC-8 (or CRC-x where x is at most 8) value.
pub struct CRCu8 {
    /// The underlying computation engine.
    pub engine: Engine,
}

impl CRCu8 {
    /// The engine is consistent and its width fits this type.
    pub open spec fn wf(self) -> bool {
        &&& self.engine.wf()
        &&& self.engine.bits <= 8
        &&& !self.engine.reorder
    }

    /// Create a `CRCu8` instance by providing the length of bits, the
    /// polynomial, an initial value, a final xor value and the
    /// reflection mode.
    pub fn create_crc(poly: u8, bits: u8, initial: u8, final_xor: u8, reflect: bool) -> (crc:
        CRCu8)
        requires
            1 <= bits <= 8,
        ensures
            crc.wf(),
            crc.engine.configured(
                bits % 8 == 0,
                poly as u64,
                bits,
                initial as u64,
                final_xor as u64,
                reflect,
                false,
            ),
    {
        CRCu8 {
            engine: Engine::new(
                bits % 8 == 0,
                poly as u64,
                bits,
                initial as u64,
                final_xor as u64,
                reflect,
            ),
        }
    }

    /// Digest some data.
    pub fn digest(&mut self, data: &[u8])
        requires
            old(self).wf(),
        ensures
            final(self).wf(),
            final(self).engine.eq_config(old(self).engine),
            final(self).engine.sum == fold_bytes(
                old(self).engine,
                old(self).engine.sum,
                data@,
            ),
    {
        self.engine.digest(data);
    }

    /// Reset the running register to the working form of the initial
    /// value.
    pub fn reset(&mut self)
        requires
            old(self).wf(),
        ensures
            final(self).wf(),
            final(self).engine.eq_config(old(self).engine),
            final(self).engine.sum == working_init(
                old(self).engine.bits as nat,
                old(self).engine.initial,
                old(self).engine.reflect,
            ),
    {
        self.engine.reset();
    }

    /// Get the current CRC value.  The state is untouched: `digest` may
    /// be called again afterwards.
    pub fn get_crc(&self) -> (r: u8)
        requires
            self.wf(),
        ensures
            r as u64 == spec_crc_of(self.engine),
    {
        proof {
            crate::engine::lemma_crc_value_bound(self.engine);
        }
        self.engine.get_crc_value() as u8
    }

    /// The current CRC value as `0x` followed by one upper-case hex
    /// digit per nibble of the logical width.
    pub fn to_hex_string(&self) -> (r: String)
        requires
            self.wf(),
        ensures
            r@ == hex_seq(spec_crc_of(self.engine), (((self.engine.bits + 3) / 4) as nat)),
    {
        let v = self.engine.get_crc_value();
        hex_string(v, (self.engine.bits + 3) / 4)
    }

    /// The lookup table the engine carries (all zeros for an engine that
    /// updates bit-serially).
    pub fn lookup_table(&self) -> (t: &Vec<u64>)
        ensures
            t == self.engine.lookup_table,
    {
        &self.engine.lookup_table
    }
}

impl CRCu8 {
    /// Preset: polynomial `0x03`, 3 bits, initial value `0x00`,
    /// final xor `0x07`, not reflected.
    pub fn crc3gsm() -> (crc: CRCu8)
        ensures
            crc.wf(),
            crc.engine.configured(false, 0x03u64, 3, 0x00u64, 0x07u64, false, false),
    {
        Self::create_crc(0x03, 3, 0x00, 0x07, false)
    }

    /// Preset: polynomial `0x0C`, 4 bits, initial value `0x00`,
    /// final xor `0x00`, reflected (the polynomial is given in its reflected form).
    pub fn crc4itu() -> (crc: CRCu8)
        ensures
            crc.wf(),
            crc.engine.configured(false, 0x0Cu64, 4, 0x00u64, 0x00u64, true, false),
    {
        Self::create_crc(0x0C, 4, 0x00, 0x00, true)
    }

    /// Preset: polynomial `0x03`, 4 bits, initial value `0x0F`,
    /// final xor `0x0F`, not reflected.
    pub fn crc4interlaken() -> (crc: CRCu8)
        ensures
            crc.wf(),
            crc.engine.configured(false, 0x03u64, 4, 0x0Fu64, 0x0Fu64, false, false),
    {
        Self::create_crc(0x03, 4, 0x0F, 0x0F, false)
    }

    /// Preset: polynomial `0x09`, 5 bits, initial value `0x09`,
    /// final xor `0x00`, not reflected.
    pub fn crc5epc() -> (crc: CRCu8)
        ensures
            crc.wf(),
            crc.engine.configured(false, 0x09u64, 5, 0x09u64, 0x00u64, false, false),
    {
        Self::create_crc(0x09, 5, 0x09, 0x00, false)
    }

    /// Preset: polynomial `0x15`, 5 bits, initial value `0x00`,
    /// final xor `0x00`, reflected (the polynomial is given in its reflected form).
    pub fn crc5itu() -> (crc: CRCu8)
        ensures
            crc.wf(),
            crc.engine.configured(false, 0x15u64, 5, 0x00u64, 0x00u64, true, false),
    {
        Self::create_crc(0x15, 5, 0x00, 0x00, true)
    }

    /// Preset: polynomial `0x14`, 5 bits, initial value `0x1F`,
    /// final xor `0x1F`, reflected (the polynomial is given in its reflected form).
    pub fn crc5usb() -> (crc: CRCu8)
        ensures
            crc.wf(),
            crc.engine.configured(false, 0x14u64, 5, 0x1Fu64, 0x1Fu64, true, false),
    {
        Self::create_crc(0x14, 5, 0x1F, 0x1F, true)
    }

    /// Preset: polynomial `0x27`, 6 bits, initial value `0x3f`,
    /// final xor `0x00`, not reflected.
    pub fn crc6cdma2000_a() -> (crc: CRCu8)
        ensures
            crc.wf(),
            crc.engine.configured(false, 0x27u64, 6, 0x3fu64, 0x00u64, false, false),
    {
        Self::create_crc(0x27, 6, 0x3f, 0x00, false)
    }

    /// Preset: polynomial `0x07`, 6 bits, initial value `0x3f`,
    /// final xor `0x00`, not reflected.
    pub fn crc6cdma2000_b() -> (crc: CRCu8)
        ensures
            crc.wf(),
            crc.engine.configured(false, 0x07u64, 6, 0x3fu64, 0x00u64, false, false),
    {
        Self::create_crc(0x07, 6, 0x3f, 0x00, false)
    }

    /// Preset: polynomial `0x26`, 6 bits, initial value `0x00`,
    /// final xor `0x00`, reflected (the polynomial is given in its reflected form).
    pub fn crc6darc() -> (crc: CRCu8)
        ensures
            crc.wf(),
            crc.engine.configured(false, 0x26u64, 6, 0x00u64, 0x00u64, true, false),
    {
        Self::create_crc(0x26, 6, 0x00, 0x00, true)
    }

    /// Preset: polynomial `0x2F`, 6 bits, initial value `0x00`,
    /// final xor `0x3F`, not reflected.
    pub fn crc6gsm() -> (crc: CRCu8)
        ensures
            crc.wf(),
            crc.engine.configured(false, 0x2Fu64, 6, 0x00u64, 0x3Fu64, false, false),
    {
        Self::create_crc(0x2F, 6, 0x00, 0x3F, false)
    }

    /// Preset: polynomial `0x30`, 6 bits, initial value `0x00`,
    /// final xor `0x00`, reflected (the polynomial is given in its reflected form).
    pub fn crc6itu() -> (crc: CRCu8)
        ensures
            crc.wf(),
            crc.engine.configured(false, 0x30u64, 6, 0x00u64, 0x00u64, true, false),
    {
        Self::create_crc(0x30, 6, 0x00, 0x00, true)
    }

    /// Preset: polynomial `0x09`, 7 bits, initial value `0x00`,
    /// final xor `0x00`, not reflected.
    pub fn crc7() -> (crc: CRCu8)
        ensures
            crc.wf(),
            crc.engine.configured(false, 0x09u64, 7, 0x00u64, 0x00u64, false, false),
    {
        Self::create_crc(0x09, 7, 0x00, 0x00, false)
    }

    /// Preset: polynomial `0x45`, 7 bits, initial value `0x00`,
    /// final xor `0x00`, not reflected.
    pub fn crc7umts() -> (crc: CRCu8)
        ensures
            crc.wf(),
            crc.engine.configured(false, 0x45u64, 7, 0x00u64, 0x00u64, false, false),
    {
        Self::create_crc(0x45, 7, 0x00, 0x00, false)
    }

    /// Preset: polynomial `0x07`, 8 bits, initial value `0x00`,
    /// final xor `0x00`, not reflected.
    pub fn crc8() -> (crc: CRCu8)
        ensures
            crc.wf(),
            crc.engine.configured(true, 0x07u64, 8, 0x00u64, 0x00u64, false, false),
    {
        Self::create_crc(0x07, 8, 0x00, 0x00, false)
    }

    /// Preset: polynomial `0x9B`, 8 bits, initial value `0xFF`,
    /// final xor `0x00`, not reflected.
    pub fn crc8cdma2000() -> (crc: CRCu8)
        ensures
            crc.wf(),
            crc.engine.configured(true, 0x9Bu64, 8, 0xFFu64, 0x00u64, false, false),
    {
        Self::create_crc(0x9B, 8, 0xFF, 0x00, false)
    }

    /// Preset: polynomial `0x9C`, 8 bits, initial value `0x00`,
    /// final xor `0x00`, reflected (the polynomial is given in its reflected form).
    pub fn crc8darc() -> (crc: CRCu8)
        ensures
            crc.wf(),
            crc.engine.configured(true, 0x9Cu64, 8, 0x00u64, 0x00u64, true, false),
    {
        Self::create_crc(0x9C, 8, 0x00, 0x00, true)
    }

    /// Preset: polynomial `0xD5`, 8 bits, initial value `0x00`,
    /// final xor `0x00`, not reflected.
    pub fn crc8dvb_s2() -> (crc: CRCu8)
        ensures
            crc.wf(),
            crc.engine.configured(true, 0xD5u64, 8, 0x00u64, 0x00u64, false, false),
    {
        Self::create_crc(0xD5, 8, 0x00, 0x00, false)
    }

    /// Preset: polynomial `0xB8`, 8 bits, initial value `0xFF`,
    /// final xor `0x00`, reflected (the polynomial is given in its reflected form).
    pub fn crc8ebu() -> (crc: CRCu8)
        ensures
            crc.wf(),
            crc.engine.configured(true, 0xB8u64, 8, 0xFFu64, 0x00u64, true, false),
    {
        Self::create_crc(0xB8, 8, 0xFF, 0x00, true)
    }

    /// Preset: polynomial `0x1D`, 8 bits, initial value `0xFD`,
    /// final xor `0x00`, not reflected.
    pub fn crc8icode() -> (crc: CRCu8)
        ensures
            crc.wf(),
            crc.engine.configured(true, 0x1Du64, 8, 0xFDu64, 0x00u64, false, false),
    {
        Self::create_crc(0x1D, 8, 0xFD, 0x00, false)
    }

    /// Preset: polynomial `0x07`, 8 bits, initial value `0x00`,
    /// final xor `0x55`, not reflected.
    pub fn crc8itu() -> (crc: CRCu8)
        ensures
            crc.wf(),
            crc.engine.configured(true, 0x07u64, 8, 0x00u64, 0x55u64, false, false),
    {
        Self::create_crc(0x07, 8, 0x00, 0x55, false)
    }

    /// Preset: polynomial `0x8C`, 8 bits, initial value `0x00`,
    /// final xor `0x00`, reflected (the polynomial is given in its reflected form).
    pub fn crc8maxim() -> (crc: CRCu8)
        ensures
            crc.wf(),
            crc.engine.configured(true, 0x8Cu64, 8, 0x00u64, 0x00u64, true, false),
    {
        Self::create_crc(0x8C, 8, 0x00, 0x00, true)
    }

    /// Preset: polynomial `0xE0`, 8 bits, initial value `0xFF`,
    /// final xor `0x00`, reflected (the polynomial is given in its reflected form).
    pub fn crc8rohc() -> (crc: CRCu8)
        ensures
            crc.wf(),
            crc.engine.configured(true, 0xE0u64, 8, 0xFFu64, 0x00u64, true, false),
    {
        Self::create_crc(0xE0, 8, 0xFF, 0x00, true)
    }

    /// Preset: polynomial `0xD9`, 8 bits, initial value `0x00`,
    /// final xor `0x00`, reflected (the polynomial is given in its reflected form).
    pub fn crc8wcdma() -> (crc: CRCu8)
        ensures
            crc.wf(),
            crc.engine.configured(true, 0xD9u64, 8, 0x00u64, 0x00u64, true, false),
    {
        Self::create_crc(0xD9, 8, 0x00, 0x00, true)
    }
}

} // verus!
