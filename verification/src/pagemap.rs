//! Decoding of per-page records from the host kernel's pagemap interface.
//!
//! The kernel exposes one fixed eight-byte record per virtual page.  Two
//! bit positions matter to the monitor: bit 63 says the page is present in
//! RAM, and bit 57 says it is write-protected through the user-fault
//! mechanism.  A page is reported dirty exactly when it is present and not
//! write-protected.  The record size is fixed by the kernel interface
//! regardless of the guest page size.

use vstd::prelude::*;

verus! {

/// Size in bytes of one pagemap record.
pub const PAGEMAP_ENTRY_SIZE: usize = 8;

/// Errors of the pagemap reader.  The surrounding process attaches the
/// operating-system error it observed.
#[derive(Debug, Clone, Copy, PartialEq, Eq, Structural)]
pub enum PagemapError {
    /// The pagemap file could not be opened.
    OpenPagemap,
    /// A pagemap record could not be read.
    ReadEntry,
    /// The soft-dirty control file could not be opened.
    OpenClearRefs,
    /// The soft-dirty bits could not be cleared.
    ClearSoftDirty,
}

/// The integer held by eight little-endian bytes.
pub open spec fn spec_u64_from_le_bytes(s: Seq<u8>) -> u64
    recommends
        s.len() == 8,
{
    (s[0] + s[1] * 0x100 + s[2] * 0x1_0000 + s[3] * 0x100_0000 + s[4] * 0x1_0000_0000 + s[5]
        * 0x100_0000_0000 + s[6] * 0x1_0000_0000_0000 + s[7] * 0x100_0000_0000_0000) as u64
}

/// Whether the record's present bit (bit 63) is set.
pub open spec fn spec_present(raw: u64) -> bool {
    raw & (1u64 << 63) != 0
}

/// Whether the record's write-protected bit (bit 57) is set.
pub open spec fn spec_write_protected(raw: u64) -> bool {
    raw & (1u64 << 57) != 0
}

/// A single eight-byte record of the pagemap interface.
#[derive(Debug, Clone, Copy, PartialEq, Eq, Structural)]
pub struct PagemapEntry {
    raw: u64,
}

impl PagemapEntry {
    /// The raw integer of the record.
    pub closed spec fn spec_raw(self) -> u64 {
        self.raw
    }

    /// Decode a record from its eight little-endian bytes.
    pub fn from_bytes(bytes: [u8; 8]) -> (r: PagemapEntry)
        ensures
            r.spec_raw() == spec_u64_from_le_bytes(bytes@),
    {
        let b0 = bytes[0] as u64;
        let b1 = bytes[1] as u64;
        let b2 = bytes[2] as u64;
        let b3 = bytes[3] as u64;
        let b4 = bytes[4] as u64;
        let b5 = bytes[5] as u64;
        let b6 = bytes[6] as u64;
        let b7 = bytes[7] as u64;
        let raw = b0 + b1 * 0x100 + b2 * 0x1_0000 + b3 * 0x100_0000 + b4 * 0x1_0000_0000 + b5
            * 0x100_0000_0000 + b6 * 0x1_0000_0000_0000 + b7 * 0x100_0000_0000_0000;
        PagemapEntry { raw }
    }

    /// Whether the page is write-protected through the user-fault
    /// mechanism (bit 57).
    pub fn is_write_protected(&self) -> (r: bool)
        ensures
            r == spec_write_protected(self.spec_raw()),
    {
        (self.raw & (1u64 << 57)) != 0
    }

    /// Whether the page is present in RAM (bit 63).
    pub fn is_present(&self) -> (r: bool)
        ensures
            r == spec_present(self.spec_raw()),
    {
        (self.raw & (1u64 << 63)) != 0
    }

    /// Whether the page is dirty: present in RAM and not write-protected.
    pub fn is_dirty(&self) -> (r: bool)
        ensures
            r == (spec_present(self.spec_raw()) && !spec_write_protected(self.spec_raw())),
    {
        self.is_present() && !self.is_write_protected()
    }
}

/// Byte position of a virtual address's record inside the pagemap file:
/// the virtual page number times the fixed record size.
pub fn pagemap_entry_offset(virt_addr: usize, host_page_size: usize) -> (r: usize)
    requires
        host_page_size > 0,
        virt_addr / host_page_size * 8 <= usize::MAX,
    ensures
        r == virt_addr / host_page_size * 8,
{
    let host_vpn = virt_addr / host_page_size;
    host_vpn * PAGEMAP_ENTRY_SIZE
}

} // verus!
