//! Tests for the primitive wire codec.

use snapshot_migrator::codec::{
    dec_bool, dec_bytes, dec_opt_u32, dec_region, dec_u16, dec_u32, dec_u64, enc_bool, enc_bytes,
    enc_opt_u32, enc_region, enc_u16, enc_u32, enc_u64,
};
use snapshot_migrator::schema_b::GuestMemoryRegionState;

#[test]
fn u16_wire_form() {
    let mut out = Vec::new();
    enc_u16(&mut out, 0x0102);
    assert_eq!(out, vec![0x02, 0x01]);
    assert_eq!(dec_u16(&out, 0), Some((0x0102, 2)));
}

#[test]
fn u32_wire_form() {
    let mut out = Vec::new();
    enc_u32(&mut out, 0xDEAD_BEEF);
    assert_eq!(out, vec![0xEF, 0xBE, 0xAD, 0xDE]);
    assert_eq!(dec_u32(&out, 0), Some((0xDEAD_BEEF, 4)));
}

#[test]
fn u64_wire_form() {
    let mut out = Vec::new();
    enc_u64(&mut out, 0x0102_0304_0506_0708);
    assert_eq!(out, vec![0x08, 0x07, 0x06, 0x05, 0x04, 0x03, 0x02, 0x01]);
    assert_eq!(dec_u64(&out, 0), Some((0x0102_0304_0506_0708, 8)));
    // Truncated input is rejected.
    assert_eq!(dec_u64(&out, 1), None);
}

#[test]
fn bool_wire_form() {
    let mut out = Vec::new();
    enc_bool(&mut out, true);
    enc_bool(&mut out, false);
    assert_eq!(out, vec![1, 0]);
    assert_eq!(dec_bool(&out, 0), Some((true, 1)));
    assert_eq!(dec_bool(&out, 1), Some((false, 2)));
    // Any byte other than zero and one is rejected: one canonical form.
    assert_eq!(dec_bool(&vec![2u8], 0), None);
}

#[test]
fn byte_string_wire_form() {
    let mut out = Vec::new();
    enc_bytes(&mut out, &vec![0xAA, 0xBB, 0xCC]);
    assert_eq!(out, vec![3, 0, 0, 0, 0, 0, 0, 0, 0xAA, 0xBB, 0xCC]);
    let (decoded, end) = dec_bytes(&out, 0).unwrap();
    assert_eq!(decoded, vec![0xAA, 0xBB, 0xCC]);
    assert_eq!(end, 11);
    // A length that overruns the input is rejected.
    let mut short = out.clone();
    short.truncate(10);
    assert_eq!(dec_bytes(&short, 0), None);
}

#[test]
fn fields_concatenate_in_order() {
    // Records concatenate their fields positionally with no framing.
    let mut out = Vec::new();
    enc_u16(&mut out, 7);
    enc_bool(&mut out, true);
    enc_u32(&mut out, 9);
    let (a, p) = dec_u16(&out, 0).unwrap();
    let (b, p) = dec_bool(&out, p).unwrap();
    let (c, p) = dec_u32(&out, p).unwrap();
    assert_eq!((a, b, c, p), (7, true, 9, 7));
}

#[test]
fn optional_wire_form() {
    let mut out = Vec::new();
    enc_opt_u32(&mut out, Some(5));
    enc_opt_u32(&mut out, None);
    assert_eq!(out, vec![1, 5, 0, 0, 0, 0]);
    let (a, p) = dec_opt_u32(&out, 0).unwrap();
    let (b, p) = dec_opt_u32(&out, p).unwrap();
    assert_eq!((a, b, p), (Some(5), None, 6));
}

#[test]
fn region_wire_form() {
    let region = GuestMemoryRegionState { base_address: 0x4000_0000, size: 0x1000 };
    let mut out = Vec::new();
    enc_region(&mut out, &region);
    assert_eq!(out.len(), 16);
    assert_eq!(out[..4], [0, 0, 0, 0x40]);
    let (decoded, end) = dec_region(&out, 0).unwrap();
    assert_eq!(decoded, region);
    assert_eq!(end, 16);
}
