//! A fully parameterized Cyclic Redundancy Check library: any polynomial,
//! any register width from 1 to 64 bits, any initial value, final xor
//! value and bit-reflection mode, with table-driven updates at the
//! byte-aligned widths and bit-serial updates everywhere else.

use vstd::prelude::*;

pub mod model;
pub mod reflect;
pub mod table;
pub mod engine;
pub mod output;
pub mod hexfmt;
pub mod crc8;
pub mod crc16;
pub mod crc32;
pub mod crc64;
pub mod dispatch;
pub mod heapless_out;
pub mod agreement;

pub use crc16::CRCu16;
pub use crc32::CRCu32;
pub use crc64::CRCu64;
pub use crc8::CRCu8;
pub use dispatch::CRC;

verus! {

} // verus!
