//! Allocation-free output adapters: the byte encodings of a finished CRC
//! value placed into fixed-capacity `heapless` vectors.

use vstd::prelude::*;

use crate::crc16::CRCu16;
use crate::crc32::CRCu32;
use crate::crc64::CRCu64;
use crate::dispatch::CRC;
use crate::engine::{nbytes, spec_crc_of};
use crate::model::{be_bytes, le_bytes};
use crate::output::{lemma_be_index, lemma_le_index};

verus! {

#[verifier::external_type_specification]
#[verifier::external_body]
#[verifier::reject_recursive_types(T)]
pub struct ExHeaplessVec<T, const N: usize>(heapless::Vec<T, N>);

/// The bytes a fixed-capacity vector of capacity 2 holds, in order.
pub uninterp spec fn heapless_contents2(v: heapless::Vec<u8, 2>) -> Seq<u8>;

/// The bytes a fixed-capacity vector of capacity 4 holds, in order.
pub uninterp spec fn heapless_contents4(v: heapless::Vec<u8, 4>) -> Seq<u8>;

/// The bytes a fixed-capacity vector of capacity 8 holds, in order.
pub uninterp spec fn heapless_contents8(v: heapless::Vec<u8, 8>) -> Seq<u8>;

/// Relies on heapless::Vec::new and heapless::Vec::extend_from_slice:
/// extending an empty vector with a slice no longer than the capacity
/// copies exactly that slice into it, in order.
#[verifier::external_body]
fn hvec2_from_slice(s: &[u8]) -> (r: heapless::Vec<u8, 2>)
    requires
        s@.len() <= 2,
    ensures
        heapless_contents2(r) == s@,
{
    let mut v = heapless::Vec::new();
    v.extend_from_slice(s).unwrap();
    v
}

/// Relies on heapless::Vec::new and heapless::Vec::extend_from_slice:
/// extending an empty vector with a slice no longer than the capacity
/// copies exactly that slice into it, in order.
#[verifier::external_body]
fn hvec4_from_slice(s: &[u8]) -> (r: heapless::Vec<u8, 4>)
    requires
        s@.len() <= 4,
    ensures
        heapless_contents4(r) == s@,
{
    let mut v = heapless::Vec::new();
    v.extend_from_slice(s).unwrap();
    v
}

/// Relies on heapless::Vec::new and heapless::Vec::extend_from_slice:
/// extending an empty vector with a slice no longer than the capacity
/// copies exactly that slice into it, in order.
#[verifier::external_body]
fn hvec8_from_slice(s: &[u8]) -> (r: heapless::Vec<u8, 8>)
    requires
        s@.len() <= 8,
    ensures
        heapless_contents8(r) == s@,
{
    let mut v = heapless::Vec::new();
    v.extend_from_slice(s).unwrap();
    v
}

impl CRCu16 {
    /// The current CRC value in a fixed-capacity vector: `(bits + 7) / 8`
    /// bytes, least significant first.
    pub fn get_crc_heapless_vec_le(&mut self) -> (r: heapless::Vec<u8, 2>)
        requires
            old(self).wf(),
        ensures
            *final(self) == *old(self),
            heapless_contents2(r) == le_bytes(
                spec_crc_of(old(self).engine),
                nbytes(old(self).engine.bits as nat),
            ),
    {
        let v = self.get_crc_vec_le();
        proof {
            lemma_le_index(spec_crc_of(self.engine), nbytes(self.engine.bits as nat));
        }
        hvec2_from_slice(v.as_slice())
    }

    /// The current CRC value in a fixed-capacity vector: `(bits + 7) / 8`
    /// bytes, most significant first.
    pub fn get_crc_heapless_vec_be(&mut self) -> (r: heapless::Vec<u8, 2>)
        requires
            old(self).wf(),
        ensures
            *final(self) == *old(self),
            heapless_contents2(r) == be_bytes(
                spec_crc_of(old(self).engine),
                nbytes(old(self).engine.bits as nat),
            ),
    {
        let v = self.get_crc_vec_be();
        proof {
            lemma_be_index(
                spec_crc_of(self.engine),
                nbytes(self.engine.bits as nat),
                nbytes(self.engine.bits as nat),
            );
        }
        hvec2_from_slice(v.as_slice())
    }
}

impl CRCu32 {
    /// The current CRC value in a fixed-capacity vector: `(bits + 7) / 8`
    /// bytes, least significant first.
    pub fn get_crc_heapless_vec_le(&mut self) -> (r: heapless::Vec<u8, 4>)
        requires
            old(self).wf(),
        ensures
            *final(self) == *old(self),
            heapless_contents4(r) == le_bytes(
                spec_crc_of(old(self).engine),
                nbytes(old(self).engine.bits as nat),
            ),
    {
        let v = self.get_crc_vec_le();
        proof {
            lemma_le_index(spec_crc_of(self.engine), nbytes(self.engine.bits as nat));
        }
        hvec4_from_slice(v.as_slice())
    }

    /// The current CRC value in a fixed-capacity vector: `(bits + 7) / 8`
    /// bytes, most significant first.
    pub fn get_crc_heapless_vec_be(&mut self) -> (r: heapless::Vec<u8, 4>)
        requires
            old(self).wf(),
        ensures
            *final(self) == *old(self),
            heapless_contents4(r) == be_bytes(
                spec_crc_of(old(self).engine),
                nbytes(old(self).engine.bits as nat),
            ),
    {
        let v = self.get_crc_vec_be();
        proof {
            lemma_be_index(
                spec_crc_of(self.engine),
                nbytes(self.engine.bits as nat),
                nbytes(self.engine.bits as nat),
            );
        }
        hvec4_from_slice(v.as_slice())
    }
}

impl CRCu64 {
    /// The current CRC value in a fixed-capacity vector: `(bits + 7) / 8`
    /// bytes, least significant first.
    pub fn get_crc_heapless_vec_le(&mut self) -> (r: heapless::Vec<u8, 8>)
        requires
            old(self).wf(),
        ensures
            *final(self) == *old(self),
            heapless_contents8(r) == le_bytes(
                spec_crc_of(old(self).engine),
                nbytes(old(self).engine.bits as nat),
            ),
    {
        let v = self.get_crc_vec_le();
        proof {
            lemma_le_index(spec_crc_of(self.engine), nbytes(self.engine.bits as nat));
        }
        hvec8_from_slice(v.as_slice())
    }

    /// The current CRC value in a fixed-capacity vector: `(bits + 7) / 8`
    /// bytes, most significant first.
    pub fn get_crc_heapless_vec_be(&mut self) -> (r: heapless::Vec<u8, 8>)
        requires
            old(self).wf(),
        ensures
            *final(self) == *old(self),
            heapless_contents8(r) == be_bytes(
                spec_crc_of(old(self).engine),
                nbytes(old(self).engine.bits as nat),
            ),
    {
        let v = self.get_crc_vec_be();
        proof {
            lemma_be_index(
                spec_crc_of(self.engine),
                nbytes(self.engine.bits as nat),
                nbytes(self.engine.bits as nat),
            );
        }
        hvec8_from_slice(v.as_slice())
    }
}

impl CRC {
    /// The current CRC value in a fixed-capacity vector: `(bits + 7) / 8`
    /// bytes, least significant first.
    pub fn get_crc_heapless_vec_le(&mut self) -> (r: heapless::Vec<u8, 8>)
        requires
            old(self).wf(),
        ensures
            *final(self) == *old(self),
            heapless_contents8(r) == le_bytes(
                spec_crc_of(old(self).engine_of()),
                nbytes(old(self).engine_of().bits as nat),
            ),
    {
        let v = self.get_crc_vec_le();
        proof {
            lemma_le_index(spec_crc_of(self.engine_of()), nbytes(self.engine_of().bits as nat));
        }
        hvec8_from_slice(v.as_slice())
    }

    /// The current CRC value in a fixed-capacity vector: `(bits + 7) / 8`
    /// bytes, most significant first.
    pub fn get_crc_heapless_vec_be(&mut self) -> (r: heapless::Vec<u8, 8>)
        requires
            old(self).wf(),
        ensures
            *final(self) == *old(self),
            heapless_contents8(r) == be_bytes(
                spec_crc_of(old(self).engine_of()),
                nbytes(old(self).engine_of().bits as nat),
            ),
    {
        let v = self.get_crc_vec_be();
        proof {
            lemma_be_index(
                spec_crc_of(self.engine_of()),
                nbytes(self.engine_of().bits as nat),
                nbytes(self.engine_of().bits as nat),
            );
        }
        hvec8_from_slice(v.as_slice())
    }
}

} // verus!
