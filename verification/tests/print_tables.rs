//! Printing an engine's lookup table in the form of a Rust array
//! literal, for inspection.

use crc_any::{CRCu16, CRCu32, CRCu64, CRCu8};

#[test]
fn crc_u8_print_lookup_table() {
    let crc = CRCu8::crc4interlaken();

    let mut s = String::new();

    for n in crc.lookup_table().iter().take(255) {
        s.push_str(&format!("{}u8, ", n));
    }

    s.push_str(&format!("{}u8", crc.lookup_table()[255]));

    println!("let lookup_table = [{}];", s);
}

#[test]
fn crc_u16_print_lookup_table() {
    let crc = CRCu16::crc16kermit();

    let mut s = String::new();

    for n in crc.lookup_table().iter().take(255) {
        s.push_str(&format!("{}u16, ", n));
    }

    s.push_str(&format!("{}u16", crc.lookup_table()[255]));

    println!("let lookup_table = [{}];", s);
}

#[test]
fn crc_u32_print_lookup_table() {
    let crc = CRCu32::crc24ble();

    let mut s = String::new();

    for n in crc.lookup_table().iter().take(255) {
        s.push_str(&format!("{}u32, ", n));
    }

    s.push_str(&format!("{}u32", crc.lookup_table()[255]));

    println!("let lookup_table = [{}];", s);
}

#[test]
fn crc_u64_print_lookup_table() {
    let crc = CRCu64::crc64jones();

    let mut s = String::new();

    for n in crc.lookup_table().iter().take(255) {
        s.push_str(&format!("{}u64, ", n));
    }

    s.push_str(&format!("{}u64", crc.lookup_table()[255]));

    println!("let lookup_table = [{}];", s);
}
