//! Behavioural properties of the engines on concrete values: catalogue
//! conformance, streaming, repeated reads, reset, the byte encodings,
//! table against bit-serial agreement, and the width dispatch.

use crc_any::engine::Engine;
use crc_any::{CRCu16, CRCu8, CRC};

#[test]
fn catalogue_check_values() {
    let mut crc = CRC::create_crc(0x07, 8, 0x00, 0x00, false);
    crc.digest(b"123456789");
    assert_eq!(0xF4, crc.get_crc());

    let mut crc = CRC::create_crc(0x1021, 16, 0xFFFF, 0x0000, false);
    crc.digest(b"123456789");
    assert_eq!(0x29B1, crc.get_crc());

    let mut crc = CRC::create_crc(0xEDB88320, 32, 0xFFFFFFFF, 0xFFFFFFFF, true);
    crc.digest(b"123456789");
    assert_eq!(0xCBF43926, crc.get_crc());

    let mut crc = CRC::create_crc(0x42F0E1EBA9EA3693, 64, 0, 0, false);
    crc.digest(b"123456789");
    assert_eq!(0x6C40DF5F0B497347, crc.get_crc());
}

#[test]
fn streaming_chunks_match_whole() {
    for split in 0..=9usize {
        let data: &[u8] = b"123456789";

        let mut whole = CRC::crc32();
        whole.digest(data);

        let mut parts = CRC::crc32();
        parts.digest(&data[..split]);
        parts.digest(&data[split..]);

        assert_eq!(whole.get_crc(), parts.get_crc());
    }

    let mut whole = CRC::crc16();
    whole.digest(b"https://magiclen.org");

    let mut parts = CRC::crc16();
    parts.digest(b"https://");
    parts.digest(b"magiclen");
    parts.digest(b".org");

    assert_eq!(whole.get_crc(), parts.get_crc());
}

#[test]
fn repeated_reads_are_identical() {
    let mut crc = CRC::crc16ccitt_false();
    crc.digest(b"123456789");

    let first = crc.get_crc();
    let second = crc.get_crc();
    let third = crc.get_crc();

    assert_eq!(first, second);
    assert_eq!(second, third);
    assert_eq!(vec![0x29, 0xB1], crc.get_crc_vec_be());
    assert_eq!(vec![0x29, 0xB1], crc.get_crc_vec_be());
}

#[test]
fn reset_reproduces_fresh_engine() {
    // A reflected preset whose initial value is not a palindrome of
    // bits, so resetting to the wrong orientation would show.
    let mut reused = CRCu16::crc16riello();
    reused.digest(b"some earlier traffic");
    reused.reset();
    reused.digest(b"123456789");

    let mut fresh = CRCu16::crc16riello();
    fresh.digest(b"123456789");

    assert_eq!(fresh.get_crc(), reused.get_crc());

    let mut reused = CRC::crc64();
    reused.digest(b"junk");
    reused.reset();
    reused.digest(b"https://magiclen.org");

    let mut fresh = CRC::crc64();
    fresh.digest(b"https://magiclen.org");

    assert_eq!(fresh.get_crc(), reused.get_crc());
}

#[test]
fn endian_encodings_reverse_and_decode() {
    let mut crc = CRC::crc24();
    crc.digest(b"123456789");

    let le = crc.get_crc_vec_le();
    let be = crc.get_crc_vec_be();

    let mut rev = le.clone();
    rev.reverse();
    assert_eq!(be, rev);

    let mut decoded: u64 = 0;
    for (i, b) in le.iter().enumerate() {
        decoded |= (*b as u64) << (8 * i);
    }
    assert_eq!(decoded, crc.get_crc());

    let mut decoded_be: u64 = 0;
    for b in be.iter() {
        decoded_be = (decoded_be << 8) | (*b as u64);
    }
    assert_eq!(decoded_be, crc.get_crc());
}

#[test]
fn table_and_bitwise_engines_agree() {
    // Forward mode at a byte-aligned width.
    let mut table = Engine::new(true, 0x1021, 16, 0xFFFF, 0x0000, false);
    let mut serial = Engine::new(false, 0x1021, 16, 0xFFFF, 0x0000, false);
    table.digest(b"123456789");
    serial.digest(b"123456789");
    assert_eq!(table.get_crc_value(), serial.get_crc_value());
    assert_eq!(0x29B1, table.get_crc_value());

    // Reflected mode at a byte-aligned width.
    let mut table = Engine::new(true, 0xEDB88320, 32, 0xFFFFFFFF, 0xFFFFFFFF, true);
    let mut serial = Engine::new(false, 0xEDB88320, 32, 0xFFFFFFFF, 0xFFFFFFFF, true);
    table.digest(b"123456789");
    serial.digest(b"123456789");
    assert_eq!(table.get_crc_value(), serial.get_crc_value());
    assert_eq!(0xCBF43926, table.get_crc_value());

    // Full-width forward, 64 bits.
    let mut table = Engine::new(true, 0x42F0E1EBA9EA3693, 64, 0, 0, false);
    let mut serial = Engine::new(false, 0x42F0E1EBA9EA3693, 64, 0, 0, false);
    table.digest(b"123456789");
    serial.digest(b"123456789");
    assert_eq!(table.get_crc_value(), serial.get_crc_value());
    assert_eq!(0x6C40DF5F0B497347, table.get_crc_value());
}

#[test]
fn width_dispatch_boundaries() {
    let crc = CRC::create_crc(0x07, 8, 0, 0, false);
    assert!(matches!(crc, CRC::CRCu8(_)));

    let crc = CRC::create_crc(0x07, 9, 0, 0, false);
    assert!(matches!(crc, CRC::CRCu16(_)));

    let crc = CRC::create_crc(0x07, 16, 0, 0, false);
    assert!(matches!(crc, CRC::CRCu16(_)));

    let crc = CRC::create_crc(0x07, 17, 0, 0, false);
    assert!(matches!(crc, CRC::CRCu32(_)));

    let crc = CRC::create_crc(0x07, 32, 0, 0, false);
    assert!(matches!(crc, CRC::CRCu32(_)));

    let crc = CRC::create_crc(0x07, 33, 0, 0, false);
    assert!(matches!(crc, CRC::CRCu64(_)));

    let crc = CRC::create_crc(0x42F0E1EBA9EA3693, 64, 0, 0, false);
    assert!(matches!(crc, CRC::CRCu64(_)));
}

#[test]
fn narrowest_width_one_bit_parity() {
    // A one-bit CRC with polynomial 1 is a parity bit.
    let mut crc = CRC::create_crc(1, 1, 0, 0, false);
    crc.digest(b"123456789");
    assert_eq!(1, crc.get_crc());

    let mut crc = CRC::create_crc(1, 1, 0, 0, false);
    crc.digest(b"");
    assert_eq!(0, crc.get_crc());
}

#[test]
fn empty_digest_changes_nothing() {
    let mut touched = CRC::crc32();
    touched.digest(b"");

    let mut fresh = CRC::crc32();

    assert_eq!(fresh.get_crc(), touched.get_crc());
}

#[test]
fn wider_register_computes_same_byte_aligned_value() {
    let mut narrow = CRCu8::create_crc(0x07, 8, 0x00, 0x00, false);
    let mut wide = CRCu16::create_crc(0x07, 8, 0x00, 0x00, false);

    narrow.digest(b"123456789");
    wide.digest(b"123456789");

    assert_eq!(narrow.get_crc() as u16, wide.get_crc());
    assert_eq!(0xF4, narrow.get_crc());
}

#[test]
fn hex_string_is_zero_padded() {
    let mut crc = CRC::crc5epc();
    crc.digest(b"123456789");
    assert_eq!("0x00", crc.to_hex_string().as_str());

    let mut crc = CRC::crc16ccitt_false();
    crc.digest(b"123456789");
    assert_eq!("0x29B1", crc.to_hex_string().as_str());

    let crc = CRC::crc16ccitt_false();
    assert_eq!("0xFFFF", crc.to_hex_string().as_str());
}

#[test]
fn reordered_output_reverses_bytes() {
    let mut plain = CRC::crc32bzip2();
    let mut reordered = CRC::crc32mhash();

    plain.digest(b"123456789");
    reordered.digest(b"123456789");

    assert_eq!(0xFC891918, plain.get_crc());
    assert_eq!(0x181989FC, reordered.get_crc());

    // The reorder flag already reverses the output bytes, so the
    // reordered value's little-endian encoding equals the plain value's
    // big-endian encoding.
    assert_eq!(plain.get_crc_vec_be(), reordered.get_crc_vec_le());
}
