//! The width dispatcher: a closed tagged union over the four concrete
//! register widths, picking the narrowest engine whose register covers
//! the requested number of bits, and forwarding every operation to it.

use vstd::prelude::*;

use crate::crc16::CRCu16;
use crate::crc32::CRCu32;
use crate::crc64::CRCu64;
use crate::crc8::CRCu8;
use crate::engine::{fold_bytes, nbytes, spec_crc_of, working_init, Engine};
use crate::hexfmt::{hex_seq, hex_string};
use crate::model::{be_bytes, be_partial, le_bytes};

verus! {

/// A CRC computation of any logical width from 1 to 64 bits, carried by
/// the narrowest of the four register widths that covers it.
pub enum CRC {
    CRCu8(CRCu8),
    CRCu16(CRCu16),
    CRCu32(CRCu32),
    CRCu64(CRCu64),
}

impl CRC {
    /// The engine of the selected variant.
    pub open spec fn engine_of(self) -> Engine {
        match self {
            CRC::CRCu8(c) => c.engine,
            CRC::CRCu16(c) => c.engine,
            CRC::CRCu32(c) => c.engine,
            CRC::CRCu64(c) => c.engine,
        }
    }

    /// The selected variant is internally consistent.
    pub open spec fn wf(self) -> bool {
        match self {
            CRC::CRCu8(c) => c.wf(),
            CRC::CRCu16(c) => c.wf(),
            CRC::CRCu32(c) => c.wf(),
            CRC::CRCu64(c) => c.wf(),
        }
    }

    /// The two values carry the same variant.
    pub open spec fn same_variant(self, other: CRC) -> bool {
        &&& (self is CRCu8 <==> other is CRCu8)
        &&& (self is CRCu16 <==> other is CRCu16)
        &&& (self is CRCu32 <==> other is CRCu32)
        &&& (self is CRCu64 <==> other is CRCu64)
    }

    /// Create a CRC instance by providing the length of bits, the
    /// polynomial, an initial value, a final xor value and the
    /// reflection mode.  The narrowest register width covering `bits` is
    /// selected: widths up to 8 go to the 8-bit engine, 9 to 16 to the
    /// 16-bit engine, 17 to 32 to the 32-bit engine and 33 to 64 to the
    /// 64-bit engine; the parameters are truncated to that width.
    pub fn create_crc(poly: u64, bits: u8, initial: u64, final_xor: u64, reflect: bool) -> (crc:
        CRC)
        requires
            1 <= bits <= 64,
        ensures
            crc.wf(),
            bits <= 8 ==> (crc matches CRC::CRCu8(c) && c.engine.configured(
                bits % 8 == 0,
                (poly as u8) as u64,
                bits,
                (initial as u8) as u64,
                (final_xor as u8) as u64,
                reflect,
                false,
            )),
            8 < bits <= 16 ==> (crc matches CRC::CRCu16(c) && c.engine.configured(
                bits % 8 == 0,
                (poly as u16) as u64,
                bits,
                (initial as u16) as u64,
                (final_xor as u16) as u64,
                reflect,
                false,
            )),
            16 < bits <= 32 ==> (crc matches CRC::CRCu32(c) && c.engine.configured(
                bits % 8 == 0,
                (poly as u32) as u64,
                bits,
                (initial as u32) as u64,
                (final_xor as u32) as u64,
                reflect,
                false,
            )),
            32 < bits <= 64 ==> (crc matches CRC::CRCu64(c) && c.engine.configured(
                bits % 8 == 0,
                poly,
                bits,
                initial,
                final_xor,
                reflect,
                false,
            )),
    {
        if bits <= 8 {
            Self::create_crc_u8(poly as u8, bits, initial as u8, final_xor as u8, reflect)
        } else if bits <= 16 {
            Self::create_crc_u16(poly as u16, bits, initial as u16, final_xor as u16, reflect)
        } else if bits <= 32 {
            Self::create_crc_u32(poly as u32, bits, initial as u32, final_xor as u32, reflect)
        } else {
            Self::create_crc_u64(poly, bits, initial, final_xor, reflect)
        }
    }

    /// Create a CRC instance over the 8-bit register.
    pub fn create_crc_u8(poly: u8, bits: u8, initial: u8, final_xor: u8, reflect: bool) -> (crc:
        CRC)
        requires
            1 <= bits <= 8,
        ensures
            crc.wf(),
            (crc matches CRC::CRCu8(c) && c.engine.configured(
                bits % 8 == 0,
                poly as u64,
                bits,
                initial as u64,
                final_xor as u64,
                reflect,
                false,
            )),
    {
        CRC::CRCu8(CRCu8::create_crc(poly, bits, initial, final_xor, reflect))
    }

    /// Create a CRC instance over the 16-bit register.
    pub fn create_crc_u16(poly: u16, bits: u8, initial: u16, final_xor: u16, reflect: bool) -> (crc:
        CRC)
        requires
            1 <= bits <= 16,
        ensures
            crc.wf(),
            (crc matches CRC::CRCu16(c) && c.engine.configured(
                bits % 8 == 0,
                poly as u64,
                bits,
                initial as u64,
                final_xor as u64,
                reflect,
                false,
            )),
    {
        CRC::CRCu16(CRCu16::create_crc(poly, bits, initial, final_xor, reflect))
    }

    /// Create a CRC instance over the 32-bit register.
    pub fn create_crc_u32(poly: u32, bits: u8, initial: u32, final_xor: u32, reflect: bool) -> (crc:
        CRC)
        requires
            1 <= bits <= 32,
        ensures
            crc.wf(),
            (crc matches CRC::CRCu32(c) && c.engine.configured(
                bits % 8 == 0,
                poly as u64,
                bits,
                initial as u64,
                final_xor as u64,
                reflect,
                false,
            )),
    {
        CRC::CRCu32(CRCu32::create_crc(poly, bits, initial, final_xor, reflect))
    }

    /// Create a CRC instance over the 64-bit register.
    pub fn create_crc_u64(poly: u64, bits: u8, initial: u64, final_xor: u64, reflect: bool) -> (crc:
        CRC)
        requires
            1 <= bits <= 64,
        ensures
            crc.wf(),
            (crc matches CRC::CRCu64(c) && c.engine.configured(
                bits % 8 == 0,
                poly,
                bits,
                initial,
                final_xor,
                reflect,
                false,
            )),
    {
        CRC::CRCu64(CRCu64::create_crc(poly, bits, initial, final_xor, reflect))
    }

    /// Digest some data.
    pub fn digest(&mut self, data: &[u8])
        requires
            old(self).wf(),
        ensures
            final(self).wf(),
            final(self).same_variant(*old(self)),
            final(self).engine_of().eq_config(old(self).engine_of()),
            final(self).engine_of().sum == fold_bytes(
                old(self).engine_of(),
                old(self).engine_of().sum,
                data@,
            ),
    {
        match self {
            CRC::CRCu8(crc) => crc.digest(data),
            CRC::CRCu16(crc) => crc.digest(data),
            CRC::CRCu32(crc) => crc.digest(data),
            CRC::CRCu64(crc) => crc.digest(data),
        }
    }

    /// Reset the running register to the working form of the initial
    /// value.
    pub fn reset(&mut self)
        requires
            old(self).wf(),
        ensures
            final(self).wf(),
            final(self).same_variant(*old(self)),
            final(self).engine_of().eq_config(old(self).engine_of()),
            final(self).engine_of().sum == working_init(
                old(self).engine_of().bits as nat,
                old(self).engine_of().initial,
                old(self).engine_of().reflect,
            ),
    {
        match self {
            CRC::CRCu8(crc) => crc.reset(),
            CRC::CRCu16(crc) => crc.reset(),
            CRC::CRCu32(crc) => crc.reset(),
            CRC::CRCu64(crc) => crc.reset(),
        }
    }

    /// Get the current CRC value, widened to `u64`.  The state is
    /// untouched: repeated reads return identical values, and `digest`
    /// may be called again afterwards.
    pub fn get_crc(&mut self) -> (r: u64)
        requires
            old(self).wf(),
        ensures
            *final(self) == *old(self),
            r == spec_crc_of(old(self).engine_of()),
    {
        match self {
            CRC::CRCu8(crc) => crc.get_crc() as u64,
            CRC::CRCu16(crc) => crc.get_crc() as u64,
            CRC::CRCu32(crc) => crc.get_crc() as u64,
            CRC::CRCu64(crc) => crc.get_crc(),
        }
    }

    /// The current CRC value, as its minimal little-endian byte
    /// encoding: `(bits + 7) / 8` bytes, least significant first.
    pub fn get_crc_vec_le(&mut self) -> (r: Vec<u8>)
        requires
            old(self).wf(),
        ensures
            *final(self) == *old(self),
            r@ == le_bytes(
                spec_crc_of(old(self).engine_of()),
                nbytes(old(self).engine_of().bits as nat),
            ),
    {
        match self {
            CRC::CRCu8(crc) => {
                let v = crc.get_crc();
                proof {
                    crate::model::lemma_single_byte(spec_crc_of(crc.engine));
                }
                let mut r: Vec<u8> = Vec::new();
                r.push(v);
                proof {
                    assert(le_bytes(spec_crc_of(crc.engine), 0) =~= Seq::<u8>::empty());
                    assert(r@ =~= le_bytes(spec_crc_of(crc.engine), 1));
                }
                r
            },
            CRC::CRCu16(crc) => crc.get_crc_vec_le(),
            CRC::CRCu32(crc) => crc.get_crc_vec_le(),
            CRC::CRCu64(crc) => crc.get_crc_vec_le(),
        }
    }

    /// The current CRC value, as its minimal big-endian byte encoding:
    /// `(bits + 7) / 8` bytes, most significant first.
    pub fn get_crc_vec_be(&mut self) -> (r: Vec<u8>)
        requires
            old(self).wf(),
        ensures
            *final(self) == *old(self),
            r@ == be_bytes(
                spec_crc_of(old(self).engine_of()),
                nbytes(old(self).engine_of().bits as nat),
            ),
    {
        match self {
            CRC::CRCu8(crc) => {
                let v = crc.get_crc();
                proof {
                    crate::model::lemma_single_byte(spec_crc_of(crc.engine));
                }
                let mut r: Vec<u8> = Vec::new();
                r.push(v);
                proof {
                    assert(be_partial(spec_crc_of(crc.engine), 1, 0) =~= Seq::<u8>::empty());
                    assert(r@ =~= be_bytes(spec_crc_of(crc.engine), 1));
                }
                r
            },
            CRC::CRCu16(crc) => crc.get_crc_vec_be(),
            CRC::CRCu32(crc) => crc.get_crc_vec_be(),
            CRC::CRCu64(crc) => crc.get_crc_vec_be(),
        }
    }

    /// The current CRC value as `0x` followed by one upper-case hex
    /// digit per nibble of the logical width.
    pub fn to_hex_string(&self) -> (r: String)
        requires
            self.wf(),
        ensures
            r@ == hex_seq(
                spec_crc_of(self.engine_of()),
                (((self.engine_of().bits + 3) / 4) as nat),
            ),
    {
        match self {
            CRC::CRCu8(crc) => crc.to_hex_string(),
            CRC::CRCu16(crc) => crc.to_hex_string(),
            CRC::CRCu32(crc) => crc.to_hex_string(),
            CRC::CRCu64(crc) => crc.to_hex_string(),
        }
    }
}

impl CRC {
    /// Preset: polynomial `0x03`, 3 bits, initial value `0x00`,
    /// final xor `0x07`, not reflected.
    pub fn crc3gsm() -> (crc: CRC)
        ensures
            crc.wf(),
            (crc matches CRC::CRCu8(c) && c.engine.configured(false, 0x03u64, 3, 0x00u64, 0x07u64, false, false)),
    {
        CRC::CRCu8(CRCu8::crc3gsm())
    }

    /// Preset: polynomial `0x0C`, 4 bits, initial value `0x00`,
    /// final xor `0x00`, reflected (the polynomial is given in its reflected form).
    pub fn crc4itu() -> (crc: CRC)
        ensures
            crc.wf(),
            (crc matches CRC::CRCu8(c) && c.engine.configured(false, 0x0Cu64, 4, 0x00u64, 0x00u64, true, false)),
    {
        CRC::CRCu8(CRCu8::crc4itu())
    }

    /// Preset: polynomial `0x03`, 4 bits, initial value `0x0F`,
    /// final xor `0x0F`, not reflected.
    pub fn crc4interlaken() -> (crc: CRC)
        ensures
            crc.wf(),
            (crc matches CRC::CRCu8(c) && c.engine.configured(false, 0x03u64, 4, 0x0Fu64, 0x0Fu64, false, false)),
    {
        CRC::CRCu8(CRCu8::crc4interlaken())
    }

    /// Preset: polynomial `0x09`, 5 bits, initial value `0x09`,
    /// final xor `0x00`, not reflected.
    pub fn crc5epc() -> (crc: CRC)
        ensures
            crc.wf(),
            (crc matches CRC::CRCu8(c) && c.engine.configured(false, 0x09u64, 5, 0x09u64, 0x00u64, false, false)),
    {
        CRC::CRCu8(CRCu8::crc5epc())
    }

    /// Preset: polynomial `0x15`, 5 bits, initial value `0x00`,
    /// final xor `0x00`, reflected (the polynomial is given in its reflected form).
    pub fn crc5itu() -> (crc: CRC)
        ensures
            crc.wf(),
            (crc matches CRC::CRCu8(c) && c.engine.configured(false, 0x15u64, 5, 0x00u64, 0x00u64, true, false)),
    {
        CRC::CRCu8(CRCu8::crc5itu())
    }

    /// Preset: polynomial `0x14`, 5 bits, initial value `0x1F`,
    /// final xor `0x1F`, reflected (the polynomial is given in its reflected form).
    pub fn crc5usb() -> (crc: CRC)
        ensures
            crc.wf(),
            (crc matches CRC::CRCu8(c) && c.engine.configured(false, 0x14u64, 5, 0x1Fu64, 0x1Fu64, true, false)),
    {
        CRC::CRCu8(CRCu8::crc5usb())
    }

    /// Preset: polynomial `0x27`, 6 bits, initial value `0x3f`,
    /// final xor `0x00`, not reflected.
    pub fn crc6cdma2000_a() -> (crc: CRC)
        ensures
            crc.wf(),
            (crc matches CRC::CRCu8(c) && c.engine.configured(false, 0x27u64, 6, 0x3fu64, 0x00u64, false, false)),
    {
        CRC::CRCu8(CRCu8::crc6cdma2000_a())
    }

    /// Preset: polynomial `0x07`, 6 bits, initial value `0x3f`,
    /// final xor `0x00`, not reflected.
    pub fn crc6cdma2000_b() -> (crc: CRC)
        ensures
            crc.wf(),
            (crc matches CRC::CRCu8(c) && c.engine.configured(false, 0x07u64, 6, 0x3fu64, 0x00u64, false, false)),
    {
        CRC::CRCu8(CRCu8::crc6cdma2000_b())
    }

    /// Preset: polynomial `0x26`, 6 bits, initial value `0x00`,
    /// final xor `0x00`, reflected (the polynomial is given in its reflected form).
    pub fn crc6darc() -> (crc: CRC)
        ensures
            crc.wf(),
            (crc matches CRC::CRCu8(c) && c.engine.configured(false, 0x26u64, 6, 0x00u64, 0x00u64, true, false)),
    {
        CRC::CRCu8(CRCu8::crc6darc())
    }

    /// Preset: polynomial `0x2F`, 6 bits, initial value `0x00`,
    /// final xor `0x3F`, not reflected.
    pub fn crc6gsm() -> (crc: CRC)
        ensures
            crc.wf(),
            (crc matches CRC::CRCu8(c) && c.engine.configured(false, 0x2Fu64, 6, 0x00u64, 0x3Fu64, false, false)),
    {
        CRC::CRCu8(CRCu8::crc6gsm())
    }

    /// Preset: polynomial `0x30`, 6 bits, initial value `0x00`,
    /// final xor `0x00`, reflected (the polynomial is given in its reflected form).
    pub fn crc6itu() -> (crc: CRC)
        ensures
            crc.wf(),
            (crc matches CRC::CRCu8(c) && c.engine.configured(false, 0x30u64, 6, 0x00u64, 0x00u64, true, false)),
    {
        CRC::CRCu8(CRCu8::crc6itu())
    }

    /// Preset: polynomial `0x09`, 7 bits, initial value `0x00`,
    /// final xor `0x00`, not reflected.
    pub fn crc7() -> (crc: CRC)
        ensures
            crc.wf(),
            (crc matches CRC::CRCu8(c) && c.engine.configured(false, 0x09u64, 7, 0x00u64, 0x00u64, false, false)),
    {
        CRC::CRCu8(CRCu8::crc7())
    }

    /// Preset: polynomial `0x45`, 7 bits, initial value `0x00`,
    /// final xor `0x00`, not reflected.
    pub fn crc7umts() -> (crc: CRC)
        ensures
            crc.wf(),
            (crc matches CRC::CRCu8(c) && c.engine.configured(false, 0x45u64, 7, 0x00u64, 0x00u64, false, false)),
    {
        CRC::CRCu8(CRCu8::crc7umts())
    }

    /// Preset: polynomial `0x07`, 8 bits, initial value `0x00`,
    /// final xor `0x00`, not reflected.
    pub fn crc8() -> (crc: CRC)
        ensures
            crc.wf(),
            (crc matches CRC::CRCu8(c) && c.engine.configured(true, 0x07u64, 8, 0x00u64, 0x00u64, false, false)),
    {
        CRC::CRCu8(CRCu8::crc8())
    }

    /// Preset: polynomial `0x9B`, 8 bits, initial value `0xFF`,
    /// final xor `0x00`, not reflected.
    pub fn crc8cdma2000() -> (crc: CRC)
        ensures
            crc.wf(),
            (crc matches CRC::CRCu8(c) && c.engine.configured(true, 0x9Bu64, 8, 0xFFu64, 0x00u64, false, false)),
    {
        CRC::CRCu8(CRCu8::crc8cdma2000())
    }

    /// Preset: polynomial `0x9C`, 8 bits, initial value `0x00`,
    /// final xor `0x00`, reflected (the polynomial is given in its reflected form).
    pub fn crc8darc() -> (crc: CRC)
        ensures
            crc.wf(),
            (crc matches CRC::CRCu8(c) && c.engine.configured(true, 0x9Cu64, 8, 0x00u64, 0x00u64, true, false)),
    {
        CRC::CRCu8(CRCu8::crc8darc())
    }

    /// Preset: polynomial `0xD5`, 8 bits, initial value `0x00`,
    /// final xor `0x00`, not reflected.
    pub fn crc8dvb_s2() -> (crc: CRC)
        ensures
            crc.wf(),
            (crc matches CRC::CRCu8(c) && c.engine.configured(true, 0xD5u64, 8, 0x00u64, 0x00u64, false, false)),
    {
        CRC::CRCu8(CRCu8::crc8dvb_s2())
    }

    /// Preset: polynomial `0xB8`, 8 bits, initial value `0xFF`,
    /// final xor `0x00`, reflected (the polynomial is given in its reflected form).
    pub fn crc8ebu() -> (crc: CRC)
        ensures
            crc.wf(),
            (crc matches CRC::CRCu8(c) && c.engine.configured(true, 0xB8u64, 8, 0xFFu64, 0x00u64, true, false)),
    {
        CRC::CRCu8(CRCu8::crc8ebu())
    }

    /// Preset: polynomial `0x1D`, 8 bits, initial value `0xFD`,
    /// final xor `0x00`, not reflected.
    pub fn crc8icode() -> (crc: CRC)
        ensures
            crc.wf(),
            (crc matches CRC::CRCu8(c) && c.engine.configured(true, 0x1Du64, 8, 0xFDu64, 0x00u64, false, false)),
    {
        CRC::CRCu8(CRCu8::crc8icode())
    }

    /// Preset: polynomial `0x07`, 8 bits, initial value `0x00`,
    /// final xor `0x55`, not reflected.
    pub fn crc8itu() -> (crc: CRC)
        ensures
            crc.wf(),
            (crc matches CRC::CRCu8(c) && c.engine.configured(true, 0x07u64, 8, 0x00u64, 0x55u64, false, false)),
    {
        CRC::CRCu8(CRCu8::crc8itu())
    }

    /// Preset: polynomial `0x8C`, 8 bits, initial value `0x00`,
    /// final xor `0x00`, reflected (the polynomial is given in its reflected form).
    pub fn crc8maxim() -> (crc: CRC)
        ensures
            crc.wf(),
            (crc matches CRC::CRCu8(c) && c.engine.configured(true, 0x8Cu64, 8, 0x00u64, 0x00u64, true, false)),
    {
        CRC::CRCu8(CRCu8::crc8maxim())
    }

    /// Preset: polynomial `0xE0`, 8 bits, initial value `0xFF`,
    /// final xor `0x00`, reflected (the polynomial is given in its reflected form).
    pub fn crc8rohc() -> (crc: CRC)
        ensures
            crc.wf(),
            (crc matches CRC::CRCu8(c) && c.engine.configured(true, 0xE0u64, 8, 0xFFu64, 0x00u64, true, false)),
    {
        CRC::CRCu8(CRCu8::crc8rohc())
    }

    /// Preset: polynomial `0xD9`, 8 bits, initial value `0x00`,
    /// final xor `0x00`, reflected (the polynomial is given in its reflected form).
    pub fn crc8wcdma() -> (crc: CRC)
        ensures
            crc.wf(),
            (crc matches CRC::CRCu8(c) && c.engine.configured(true, 0xD9u64, 8, 0x00u64, 0x00u64, true, false)),
    {
        CRC::CRCu8(CRCu8::crc8wcdma())
    }

    /// Preset: polynomial `0x0233`, 10 bits, initial value `0x0000`,
    /// final xor `0x0000`, not reflected.
    pub fn crc10() -> (crc: CRC)
        ensures
            crc.wf(),
            (crc matches CRC::CRCu16(c) && c.engine.configured(false, 0x0233u64, 10, 0x0000u64, 0x0000u64, false, false)),
    {
        CRC::CRCu16(CRCu16::crc10())
    }

    /// Preset: polynomial `0x03D9`, 10 bits, initial value `0x03FF`,
    /// final xor `0x0000`, not reflected.
    pub fn crc10cdma2000() -> (crc: CRC)
        ensures
            crc.wf(),
            (crc matches CRC::CRCu16(c) && c.engine.configured(false, 0x03D9u64, 10, 0x03FFu64, 0x0000u64, false, false)),
    {
        CRC::CRCu16(CRCu16::crc10cdma2000())
    }

    /// Preset: polynomial `0x0175`, 10 bits, initial value `0x0000`,
    /// final xor `0x03FF`, not reflected.
    pub fn crc10gsm() -> (crc: CRC)
        ensures
            crc.wf(),
            (crc matches CRC::CRCu16(c) && c.engine.configured(false, 0x0175u64, 10, 0x0000u64, 0x03FFu64, false, false)),
    {
        CRC::CRCu16(CRCu16::crc10gsm())
    }

    /// Preset: polynomial `0x0385`, 11 bits, initial value `0x001a`,
    /// final xor `0x0000`, not reflected.
    pub fn crc11() -> (crc: CRC)
        ensures
            crc.wf(),
            (crc matches CRC::CRCu16(c) && c.engine.configured(false, 0x0385u64, 11, 0x001au64, 0x0000u64, false, false)),
    {
        CRC::CRCu16(CRCu16::crc11())
    }

    /// Preset: polynomial `0x080F`, 12 bits, initial value `0x0000`,
    /// final xor `0x0000`, not reflected.
    pub fn crc12() -> (crc: CRC)
        ensures
            crc.wf(),
            (crc matches CRC::CRCu16(c) && c.engine.configured(false, 0x080Fu64, 12, 0x0000u64, 0x0000u64, false, false)),
    {
        CRC::CRCu16(CRCu16::crc12())
    }

    /// Preset: polynomial `0x0F13`, 12 bits, initial value `0x0FFF`,
    /// final xor `0x0000`, not reflected.
    pub fn crc12cdma2000() -> (crc: CRC)
        ensures
            crc.wf(),
            (crc matches CRC::CRCu16(c) && c.engine.configured(false, 0x0F13u64, 12, 0x0FFFu64, 0x0000u64, false, false)),
    {
        CRC::CRCu16(CRCu16::crc12cdma2000())
    }

    /// Preset: polynomial `0x0D31`, 12 bits, initial value `0x0000`,
    /// final xor `0x0FFF`, not reflected.
    pub fn crc12gsm() -> (crc: CRC)
        ensures
            crc.wf(),
            (crc matches CRC::CRCu16(c) && c.engine.configured(false, 0x0D31u64, 12, 0x0000u64, 0x0FFFu64, false, false)),
    {
        CRC::CRCu16(CRCu16::crc12gsm())
    }

    /// Preset: polynomial `0x1CF5`, 13 bits, initial value `0x0000`,
    /// final xor `0x0000`, not reflected.
    pub fn crc13bbc() -> (crc: CRC)
        ensures
            crc.wf(),
            (crc matches CRC::CRCu16(c) && c.engine.configured(false, 0x1CF5u64, 13, 0x0000u64, 0x0000u64, false, false)),
    {
        CRC::CRCu16(CRCu16::crc13bbc())
    }

    /// Preset: polynomial `0x2804`, 14 bits, initial value `0x0000`,
    /// final xor `0x0000`, reflected (the polynomial is given in its reflected form).
    pub fn crc14darc() -> (crc: CRC)
        ensures
            crc.wf(),
            (crc matches CRC::CRCu16(c) && c.engine.configured(false, 0x2804u64, 14, 0x0000u64, 0x0000u64, true, false)),
    {
        CRC::CRCu16(CRCu16::crc14darc())
    }

    /// Preset: polynomial `0x202D`, 14 bits, initial value `0x0000`,
    /// final xor `0x3FFF`, not reflected.
    pub fn crc14gsm() -> (crc: CRC)
        ensures
            crc.wf(),
            (crc matches CRC::CRCu16(c) && c.engine.configured(false, 0x202Du64, 14, 0x0000u64, 0x3FFFu64, false, false)),
    {
        CRC::CRCu16(CRCu16::crc14gsm())
    }

    /// Preset: polynomial `0x4599`, 15 bits, initial value `0x0000`,
    /// final xor `0x0000`, not reflected.
    pub fn crc15can() -> (crc: CRC)
        ensures
            crc.wf(),
            (crc matches CRC::CRCu16(c) && c.engine.configured(false, 0x4599u64, 15, 0x0000u64, 0x0000u64, false, false)),
    {
        CRC::CRCu16(CRCu16::crc15can())
    }

    /// Preset: polynomial `0x6815`, 15 bits, initial value `0x0000`,
    /// final xor `0x0001`, not reflected.
    pub fn crc15mpt1327() -> (crc: CRC)
        ensures
            crc.wf(),
            (crc matches CRC::CRCu16(c) && c.engine.configured(false, 0x6815u64, 15, 0x0000u64, 0x0001u64, false, false)),
    {
        CRC::CRCu16(CRCu16::crc15mpt1327())
    }

    /// Preset: polynomial `0xA001`, 16 bits, initial value `0x0000`,
    /// final xor `0x0000`, reflected (the polynomial is given in its reflected form).
    pub fn crc16() -> (crc: CRC)
        ensures
            crc.wf(),
            (crc matches CRC::CRCu16(c) && c.engine.configured(true, 0xA001u64, 16, 0x0000u64, 0x0000u64, true, false)),
    {
        CRC::CRCu16(CRCu16::crc16())
    }

    /// Preset: polynomial `0x1021`, 16 bits, initial value `0xFFFF`,
    /// final xor `0x0000`, not reflected.
    pub fn crc16ccitt_false() -> (crc: CRC)
        ensures
            crc.wf(),
            (crc matches CRC::CRCu16(c) && c.engine.configured(true, 0x1021u64, 16, 0xFFFFu64, 0x0000u64, false, false)),
    {
        CRC::CRCu16(CRCu16::crc16ccitt_false())
    }

    /// Preset: polynomial `0x1021`, 16 bits, initial value `0x1D0F`,
    /// final xor `0x0000`, not reflected.
    pub fn crc16aug_ccitt() -> (crc: CRC)
        ensures
            crc.wf(),
            (crc matches CRC::CRCu16(c) && c.engine.configured(true, 0x1021u64, 16, 0x1D0Fu64, 0x0000u64, false, false)),
    {
        CRC::CRCu16(CRCu16::crc16aug_ccitt())
    }

    /// Preset: polynomial `0x8005`, 16 bits, initial value `0x0000`,
    /// final xor `0x0000`, not reflected.
    pub fn crc16buypass() -> (crc: CRC)
        ensures
            crc.wf(),
            (crc matches CRC::CRCu16(c) && c.engine.configured(true, 0x8005u64, 16, 0x0000u64, 0x0000u64, false, false)),
    {
        CRC::CRCu16(CRCu16::crc16buypass())
    }

    /// Preset: polynomial `0xC867`, 16 bits, initial value `0xFFFF`,
    /// final xor `0x0000`, not reflected.
    pub fn crc16cdma2000() -> (crc: CRC)
        ensures
            crc.wf(),
            (crc matches CRC::CRCu16(c) && c.engine.configured(true, 0xC867u64, 16, 0xFFFFu64, 0x0000u64, false, false)),
    {
        CRC::CRCu16(CRCu16::crc16cdma2000())
    }

    /// Preset: polynomial `0x8005`, 16 bits, initial value `0x800D`,
    /// final xor `0x0000`, not reflected.
    pub fn crc16dds_110() -> (crc: CRC)
        ensures
            crc.wf(),
            (crc matches CRC::CRCu16(c) && c.engine.configured(true, 0x8005u64, 16, 0x800Du64, 0x0000u64, false, false)),
    {
        CRC::CRCu16(CRCu16::crc16dds_110())
    }

    /// Preset: polynomial `0x0589`, 16 bits, initial value `0x0000`,
    /// final xor `0x0001`, not reflected.
    pub fn crc16dect_r() -> (crc: CRC)
        ensures
            crc.wf(),
            (crc matches CRC::CRCu16(c) && c.engine.configured(true, 0x0589u64, 16, 0x0000u64, 0x0001u64, false, false)),
    {
        CRC::CRCu16(CRCu16::crc16dect_r())
    }

    /// Preset: polynomial `0x0589`, 16 bits, initial value `0x0000`,
    /// final xor `0x0000`, not reflected.
    pub fn crc16dect_x() -> (crc: CRC)
        ensures
            crc.wf(),
            (crc matches CRC::CRCu16(c) && c.engine.configured(true, 0x0589u64, 16, 0x0000u64, 0x0000u64, false, false)),
    {
        CRC::CRCu16(CRCu16::crc16dect_x())
    }

    /// Preset: polynomial `0xA6BC`, 16 bits, initial value `0x0000`,
    /// final xor `0xFFFF`, reflected (the polynomial is given in its reflected form).
    pub fn crc16dnp() -> (crc: CRC)
        ensures
            crc.wf(),
            (crc matches CRC::CRCu16(c) && c.engine.configured(true, 0xA6BCu64, 16, 0x0000u64, 0xFFFFu64, true, false)),
    {
        CRC::CRCu16(CRCu16::crc16dnp())
    }

    /// Preset: polynomial `0x3D65`, 16 bits, initial value `0x0000`,
    /// final xor `0xFFFF`, not reflected.
    pub fn crc16en_13757() -> (crc: CRC)
        ensures
            crc.wf(),
            (crc matches CRC::CRCu16(c) && c.engine.configured(true, 0x3D65u64, 16, 0x0000u64, 0xFFFFu64, false, false)),
    {
        CRC::CRCu16(CRCu16::crc16en_13757())
    }

    /// Preset: polynomial `0x1021`, 16 bits, initial value `0xFFFF`,
    /// final xor `0xFFFF`, not reflected.
    pub fn crc16genibus() -> (crc: CRC)
        ensures
            crc.wf(),
            (crc matches CRC::CRCu16(c) && c.engine.configured(true, 0x1021u64, 16, 0xFFFFu64, 0xFFFFu64, false, false)),
    {
        CRC::CRCu16(CRCu16::crc16genibus())
    }

    /// Preset: polynomial `0xA001`, 16 bits, initial value `0x0000`,
    /// final xor `0xFFFF`, reflected (the polynomial is given in its reflected form).
    pub fn crc16maxim() -> (crc: CRC)
        ensures
            crc.wf(),
            (crc matches CRC::CRCu16(c) && c.engine.configured(true, 0xA001u64, 16, 0x0000u64, 0xFFFFu64, true, false)),
    {
        CRC::CRCu16(CRCu16::crc16maxim())
    }

    /// Preset: polynomial `0x8408`, 16 bits, initial value `0xFFFF`,
    /// final xor `0x0000`, reflected (the polynomial is given in its reflected form).
    pub fn crc16mcrf4cc() -> (crc: CRC)
        ensures
            crc.wf(),
            (crc matches CRC::CRCu16(c) && c.engine.configured(true, 0x8408u64, 16, 0xFFFFu64, 0x0000u64, true, false)),
    {
        CRC::CRCu16(CRCu16::crc16mcrf4cc())
    }

    /// Preset: polynomial `0x8408`, 16 bits, initial value `0xB2AA`,
    /// final xor `0x0000`, reflected (the polynomial is given in its reflected form).
    pub fn crc16riello() -> (crc: CRC)
        ensures
            crc.wf(),
            (crc matches CRC::CRCu16(c) && c.engine.configured(true, 0x8408u64, 16, 0xB2AAu64, 0x0000u64, true, false)),
    {
        CRC::CRCu16(CRCu16::crc16riello())
    }

    /// Preset: polynomial `0x8BB7`, 16 bits, initial value `0x0000`,
    /// final xor `0x0000`, not reflected.
    pub fn crc16t10_dif() -> (crc: CRC)
        ensures
            crc.wf(),
            (crc matches CRC::CRCu16(c) && c.engine.configured(true, 0x8BB7u64, 16, 0x0000u64, 0x0000u64, false, false)),
    {
        CRC::CRCu16(CRCu16::crc16t10_dif())
    }

    /// Preset: polynomial `0xA097`, 16 bits, initial value `0x0000`,
    /// final xor `0x0000`, not reflected.
    pub fn crc16teledisk() -> (crc: CRC)
        ensures
            crc.wf(),
            (crc matches CRC::CRCu16(c) && c.engine.configured(true, 0xA097u64, 16, 0x0000u64, 0x0000u64, false, false)),
    {
        CRC::CRCu16(CRCu16::crc16teledisk())
    }

    /// Preset: polynomial `0x8408`, 16 bits, initial value `0x89EC`,
    /// final xor `0x0000`, reflected (the polynomial is given in its reflected form).
    pub fn crc16tms13157() -> (crc: CRC)
        ensures
            crc.wf(),
            (crc matches CRC::CRCu16(c) && c.engine.configured(true, 0x8408u64, 16, 0x89ECu64, 0x0000u64, true, false)),
    {
        CRC::CRCu16(CRCu16::crc16tms13157())
    }

    /// Preset: polynomial `0xA001`, 16 bits, initial value `0xFFFF`,
    /// final xor `0xFFFF`, reflected (the polynomial is given in its reflected form).
    pub fn crc16usb() -> (crc: CRC)
        ensures
            crc.wf(),
            (crc matches CRC::CRCu16(c) && c.engine.configured(true, 0xA001u64, 16, 0xFFFFu64, 0xFFFFu64, true, false)),
    {
        CRC::CRCu16(CRCu16::crc16usb())
    }

    /// Preset: polynomial `0x8408`, 16 bits, initial value `0xC6C6`,
    /// final xor `0x0000`, reflected (the polynomial is given in its reflected form).
    pub fn crc_a() -> (crc: CRC)
        ensures
            crc.wf(),
            (crc matches CRC::CRCu16(c) && c.engine.configured(true, 0x8408u64, 16, 0xC6C6u64, 0x0000u64, true, false)),
    {
        CRC::CRCu16(CRCu16::crc_a())
    }

    /// Preset: polynomial `0x8408`, 16 bits, initial value `0x0000`,
    /// final xor `0x0000`, reflected (the polynomial is given in its reflected form).
    pub fn crc16kermit() -> (crc: CRC)
        ensures
            crc.wf(),
            (crc matches CRC::CRCu16(c) && c.engine.configured(true, 0x8408u64, 16, 0x0000u64, 0x0000u64, true, false)),
    {
        CRC::CRCu16(CRCu16::crc16kermit())
    }

    /// Preset: polynomial `0xA001`, 16 bits, initial value `0xFFFF`,
    /// final xor `0x0000`, reflected (the polynomial is given in its reflected form).
    pub fn crc16modbus() -> (crc: CRC)
        ensures
            crc.wf(),
            (crc matches CRC::CRCu16(c) && c.engine.configured(true, 0xA001u64, 16, 0xFFFFu64, 0x0000u64, true, false)),
    {
        CRC::CRCu16(CRCu16::crc16modbus())
    }

    /// Preset: polynomial `0x8408`, 16 bits, initial value `0xFFFF`,
    /// final xor `0xFFFF`, reflected (the polynomial is given in its reflected form).
    pub fn crc16_x25() -> (crc: CRC)
        ensures
            crc.wf(),
            (crc matches CRC::CRCu16(c) && c.engine.configured(true, 0x8408u64, 16, 0xFFFFu64, 0xFFFFu64, true, false)),
    {
        CRC::CRCu16(CRCu16::crc16_x25())
    }

    /// Preset: polynomial `0x1021`, 16 bits, initial value `0x0000`,
    /// final xor `0x0000`, not reflected.
    pub fn crc16xmodem() -> (crc: CRC)
        ensures
            crc.wf(),
            (crc matches CRC::CRCu16(c) && c.engine.configured(true, 0x1021u64, 16, 0x0000u64, 0x0000u64, false, false)),
    {
        CRC::CRCu16(CRCu16::crc16xmodem())
    }

    /// Preset: polynomial `0x0001685B`, 17 bits, initial value `0x00000000`,
    /// final xor `0x00000000`, not reflected.
    pub fn crc17can() -> (crc: CRC)
        ensures
            crc.wf(),
            (crc matches CRC::CRCu32(c) && c.engine.configured(false, 0x0001685Bu64, 17, 0x00000000u64, 0x00000000u64, false, false)),
    {
        CRC::CRCu32(CRCu32::crc17can())
    }

    /// Preset: polynomial `0x00102899`, 21 bits, initial value `0x00000000`,
    /// final xor `0x00000000`, not reflected.
    pub fn crc21can() -> (crc: CRC)
        ensures
            crc.wf(),
            (crc matches CRC::CRCu32(c) && c.engine.configured(false, 0x00102899u64, 21, 0x00000000u64, 0x00000000u64, false, false)),
    {
        CRC::CRCu32(CRCu32::crc21can())
    }

    /// Preset: polynomial `0x00864CFB`, 24 bits, initial value `0x00B704CE`,
    /// final xor `0x00000000`, not reflected.
    pub fn crc24() -> (crc: CRC)
        ensures
            crc.wf(),
            (crc matches CRC::CRCu32(c) && c.engine.configured(true, 0x00864CFBu64, 24, 0x00B704CEu64, 0x00000000u64, false, false)),
    {
        CRC::CRCu32(CRCu32::crc24())
    }

    /// Preset: polynomial `0x00DA6000`, 24 bits, initial value `0x00555555`,
    /// final xor `0x00000000`, reflected (the polynomial is given in its reflected form).
    pub fn crc24ble() -> (crc: CRC)
        ensures
            crc.wf(),
            (crc matches CRC::CRCu32(c) && c.engine.configured(true, 0x00DA6000u64, 24, 0x00555555u64, 0x00000000u64, true, false)),
    {
        CRC::CRCu32(CRCu32::crc24ble())
    }

    /// Preset: polynomial `0x005D6DCB`, 24 bits, initial value `0x00FEDCBA`,
    /// final xor `0x00000000`, not reflected.
    pub fn crc24flexray_a() -> (crc: CRC)
        ensures
            crc.wf(),
            (crc matches CRC::CRCu32(c) && c.engine.configured(true, 0x005D6DCBu64, 24, 0x00FEDCBAu64, 0x00000000u64, false, false)),
    {
        CRC::CRCu32(CRCu32::crc24flexray_a())
    }

    /// Preset: polynomial `0x005D6DCB`, 24 bits, initial value `0x00ABCDEF`,
    /// final xor `0x00000000`, not reflected.
    pub fn crc24flexray_b() -> (crc: CRC)
        ensures
            crc.wf(),
            (crc matches CRC::CRCu32(c) && c.engine.configured(true, 0x005D6DCBu64, 24, 0x00ABCDEFu64, 0x00000000u64, false, false)),
    {
        CRC::CRCu32(CRCu32::crc24flexray_b())
    }

    /// Preset: polynomial `0x00864CFB`, 24 bits, initial value `0x00000000`,
    /// final xor `0x00000000`, not reflected.
    pub fn crc24lte_a() -> (crc: CRC)
        ensures
            crc.wf(),
            (crc matches CRC::CRCu32(c) && c.engine.configured(true, 0x00864CFBu64, 24, 0x00000000u64, 0x00000000u64, false, false)),
    {
        CRC::CRCu32(CRCu32::crc24lte_a())
    }

    /// Preset: polynomial `0x00800063`, 24 bits, initial value `0x00000000`,
    /// final xor `0x00000000`, not reflected.
    pub fn crc24lte_b() -> (crc: CRC)
        ensures
            crc.wf(),
            (crc matches CRC::CRCu32(c) && c.engine.configured(true, 0x00800063u64, 24, 0x00000000u64, 0x00000000u64, false, false)),
    {
        CRC::CRCu32(CRCu32::crc24lte_b())
    }

    /// Preset: polynomial `0x00800063`, 24 bits, initial value `0x00FFFFFF`,
    /// final xor `0x00FFFFFF`, not reflected.
    pub fn crc24os9() -> (crc: CRC)
        ensures
            crc.wf(),
            (crc matches CRC::CRCu32(c) && c.engine.configured(true, 0x00800063u64, 24, 0x00FFFFFFu64, 0x00FFFFFFu64, false, false)),
    {
        CRC::CRCu32(CRCu32::crc24os9())
    }

    /// Preset: polynomial `0x2030B9C7`, 30 bits, initial value `0x3FFFFFFF`,
    /// final xor `0x3FFFFFFF`, not reflected.
    pub fn crc30cdma() -> (crc: CRC)
        ensures
            crc.wf(),
            (crc matches CRC::CRCu32(c) && c.engine.configured(false, 0x2030B9C7u64, 30, 0x3FFFFFFFu64, 0x3FFFFFFFu64, false, false)),
    {
        CRC::CRCu32(CRCu32::crc30cdma())
    }

    /// Preset: polynomial `0xEDB88320`, 32 bits, initial value `0xFFFFFFFF`,
    /// final xor `0xFFFFFFFF`, reflected (the polynomial is given in its reflected form).
    pub fn crc32() -> (crc: CRC)
        ensures
            crc.wf(),
            (crc matches CRC::CRCu32(c) && c.engine.configured(true, 0xEDB88320u64, 32, 0xFFFFFFFFu64, 0xFFFFFFFFu64, true, false)),
    {
        CRC::CRCu32(CRCu32::crc32())
    }

    /// Preset: polynomial `0x04C11DB7`, 32 bits, initial value `0xFFFFFFFF`,
    /// final xor `0xFFFFFFFF`, not reflected.
    /// The bytes of the output value are reversed at read time.
    pub fn crc32mhash() -> (crc: CRC)
        ensures
            crc.wf(),
            (crc matches CRC::CRCu32(c) && c.engine.configured(true, 0x04C11DB7u64, 32, 0xFFFFFFFFu64, 0xFFFFFFFFu64, false, true)),
    {
        CRC::CRCu32(CRCu32::crc32mhash())
    }

    /// Preset: polynomial `0x04C11DB7`, 32 bits, initial value `0xFFFFFFFF`,
    /// final xor `0xFFFFFFFF`, not reflected.
    pub fn crc32bzip2() -> (crc: CRC)
        ensures
            crc.wf(),
            (crc matches CRC::CRCu32(c) && c.engine.configured(true, 0x04C11DB7u64, 32, 0xFFFFFFFFu64, 0xFFFFFFFFu64, false, false)),
    {
        CRC::CRCu32(CRCu32::crc32bzip2())
    }

    /// Preset: polynomial `0x82F63B78`, 32 bits, initial value `0xFFFFFFFF`,
    /// final xor `0xFFFFFFFF`, reflected (the polynomial is given in its reflected form).
    pub fn crc32c() -> (crc: CRC)
        ensures
            crc.wf(),
            (crc matches CRC::CRCu32(c) && c.engine.configured(true, 0x82F63B78u64, 32, 0xFFFFFFFFu64, 0xFFFFFFFFu64, true, false)),
    {
        CRC::CRCu32(CRCu32::crc32c())
    }

    /// Preset: polynomial `0xD419CC15`, 32 bits, initial value `0xFFFFFFFF`,
    /// final xor `0xFFFFFFFF`, reflected (the polynomial is given in its reflected form).
    pub fn crc32d() -> (crc: CRC)
        ensures
            crc.wf(),
            (crc matches CRC::CRCu32(c) && c.engine.configured(true, 0xD419CC15u64, 32, 0xFFFFFFFFu64, 0xFFFFFFFFu64, true, false)),
    {
        CRC::CRCu32(CRCu32::crc32d())
    }

    /// Preset: polynomial `0x04C11DB7`, 32 bits, initial value `0xFFFFFFFF`,
    /// final xor `0x00000000`, not reflected.
    pub fn crc32mpeg2() -> (crc: CRC)
        ensures
            crc.wf(),
            (crc matches CRC::CRCu32(c) && c.engine.configured(true, 0x04C11DB7u64, 32, 0xFFFFFFFFu64, 0x00000000u64, false, false)),
    {
        CRC::CRCu32(CRCu32::crc32mpeg2())
    }

    /// Preset: polynomial `0x04C11DB7`, 32 bits, initial value `0x00000000`,
    /// final xor `0xFFFFFFFF`, not reflected.
    pub fn crc32posix() -> (crc: CRC)
        ensures
            crc.wf(),
            (crc matches CRC::CRCu32(c) && c.engine.configured(true, 0x04C11DB7u64, 32, 0x00000000u64, 0xFFFFFFFFu64, false, false)),
    {
        CRC::CRCu32(CRCu32::crc32posix())
    }

    /// Preset: polynomial `0x814141AB`, 32 bits, initial value `0x00000000`,
    /// final xor `0x00000000`, not reflected.
    pub fn crc32q() -> (crc: CRC)
        ensures
            crc.wf(),
            (crc matches CRC::CRCu32(c) && c.engine.configured(true, 0x814141ABu64, 32, 0x00000000u64, 0x00000000u64, false, false)),
    {
        CRC::CRCu32(CRCu32::crc32q())
    }

    /// Preset: polynomial `0xEDB88320`, 32 bits, initial value `0xFFFFFFFF`,
    /// final xor `0x00000000`, reflected (the polynomial is given in its reflected form).
    pub fn crc32jamcrc() -> (crc: CRC)
        ensures
            crc.wf(),
            (crc matches CRC::CRCu32(c) && c.engine.configured(true, 0xEDB88320u64, 32, 0xFFFFFFFFu64, 0x00000000u64, true, false)),
    {
        CRC::CRCu32(CRCu32::crc32jamcrc())
    }

    /// Preset: polynomial `0x000000AF`, 32 bits, initial value `0x00000000`,
    /// final xor `0x00000000`, not reflected.
    pub fn crc32xfer() -> (crc: CRC)
        ensures
            crc.wf(),
            (crc matches CRC::CRCu32(c) && c.engine.configured(true, 0x000000AFu64, 32, 0x00000000u64, 0x00000000u64, false, false)),
    {
        CRC::CRCu32(CRCu32::crc32xfer())
    }

    /// Preset: polynomial `0x0000000004820009`, 40 bits, initial value `0x0000000000000000`,
    /// final xor `0x000000FFFFFFFFFF`, not reflected.
    pub fn crc40gsm() -> (crc: CRC)
        ensures
            crc.wf(),
            (crc matches CRC::CRCu64(c) && c.engine.configured(true, 0x0000000004820009u64, 40, 0x0000000000000000u64, 0x000000FFFFFFFFFFu64, false, false)),
    {
        CRC::CRCu64(CRCu64::crc40gsm())
    }

    /// Preset: polynomial `0x42F0E1EBA9EA3693`, 64 bits, initial value `0x0000000000000000`,
    /// final xor `0x0000000000000000`, not reflected.
    pub fn crc64() -> (crc: CRC)
        ensures
            crc.wf(),
            (crc matches CRC::CRCu64(c) && c.engine.configured(true, 0x42F0E1EBA9EA3693u64, 64, 0x0000000000000000u64, 0x0000000000000000u64, false, false)),
    {
        CRC::CRCu64(CRCu64::crc64())
    }

    /// Preset: polynomial `0xD800000000000000`, 64 bits, initial value `0xFFFFFFFFFFFFFFFF`,
    /// final xor `0xFFFFFFFFFFFFFFFF`, reflected (the polynomial is given in its reflected form).
    pub fn crc64iso() -> (crc: CRC)
        ensures
            crc.wf(),
            (crc matches CRC::CRCu64(c) && c.engine.configured(true, 0xD800000000000000u64, 64, 0xFFFFFFFFFFFFFFFFu64, 0xFFFFFFFFFFFFFFFFu64, true, false)),
    {
        CRC::CRCu64(CRCu64::crc64iso())
    }

    /// Preset: polynomial `0x42F0E1EBA9EA3693`, 64 bits, initial value `0xFFFFFFFFFFFFFFFF`,
    /// final xor `0xFFFFFFFFFFFFFFFF`, not reflected.
    pub fn crc64we() -> (crc: CRC)
        ensures
            crc.wf(),
            (crc matches CRC::CRCu64(c) && c.engine.configured(true, 0x42F0E1EBA9EA3693u64, 64, 0xFFFFFFFFFFFFFFFFu64, 0xFFFFFFFFFFFFFFFFu64, false, false)),
    {
        CRC::CRCu64(CRCu64::crc64we())
    }

    /// Preset: polynomial `0x95AC9329AC4BC9B5`, 64 bits, initial value `0x0000000000000000`,
    /// final xor `0x0000000000000000`, reflected (the polynomial is given in its reflected form).
    pub fn crc64jones() -> (crc: CRC)
        ensures
            crc.wf(),
            (crc matches CRC::CRCu64(c) && c.engine.configured(true, 0x95AC9329AC4BC9B5u64, 64, 0x0000000000000000u64, 0x0000000000000000u64, true, false)),
    {
        CRC::CRCu64(CRCu64::crc64jones())
    }
}

} // verus!
