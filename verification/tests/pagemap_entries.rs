//! Tests for the pagemap record decoding.

use snapshot_migrator::pagemap::{pagemap_entry_offset, PagemapEntry};

#[test]
fn test_present_bit() {
    // Bit 63 set: highest bit of the last little-endian byte.
    let entry = PagemapEntry::from_bytes([0, 0, 0, 0, 0, 0, 0, 0x80]);
    assert!(entry.is_present());
    assert!(!entry.is_write_protected());
    assert!(entry.is_dirty());
}

#[test]
fn test_write_protected_bit() {
    // Bit 57 set: bit 1 of the last little-endian byte.
    let entry = PagemapEntry::from_bytes([0, 0, 0, 0, 0, 0, 0, 0x02]);
    assert!(!entry.is_present());
    assert!(entry.is_write_protected());
    assert!(!entry.is_dirty());
}

#[test]
fn test_present_and_protected_is_clean() {
    let entry = PagemapEntry::from_bytes([0, 0, 0, 0, 0, 0, 0, 0x82]);
    assert!(entry.is_present());
    assert!(entry.is_write_protected());
    assert!(!entry.is_dirty());
}

#[test]
fn test_absent_page_is_clean() {
    let entry = PagemapEntry::from_bytes([0xFF, 0xFF, 0xFF, 0xFF, 0xFF, 0xFF, 0xFF, 0x01]);
    assert!(!entry.is_present());
    assert!(!entry.is_dirty());
}

#[test]
fn test_entry_offset() {
    // One eight-byte record per page: page 3 sits at byte 24.
    assert_eq!(pagemap_entry_offset(0x3000, 0x1000), 24);
    assert_eq!(pagemap_entry_offset(0x3FFF, 0x1000), 24);
    assert_eq!(pagemap_entry_offset(0, 0x1000), 0);
    // The record size is fixed even for huge guest pages.
    assert_eq!(pagemap_entry_offset(0x20_0000, 0x1000), 0x200 * 8);
}
