//! Response records of the guest-memory information routes.
//!
//! The HTTP layer answers the three read-only memory routes with these
//! records; each bitmap packs one bit per guest page, least-significant
//! bit first within each word, in ascending page order.

use vstd::prelude::*;

verus! {

/// A guest memory region's mapping for the user-fault handler: where the
/// region sits in host virtual memory, its size, its offset in the memory
/// snapshot file, and the page size backing it.
#[derive(Debug, Clone, Copy, PartialEq, Eq, Structural)]
pub struct GuestRegionUffdMapping {
    pub base_host_virt_addr: u64,
    pub size: usize,
    pub offset: u64,
    pub page_size: usize,
}

/// Response of the memory-mappings route.
#[derive(Debug, Clone, PartialEq, Eq)]
pub struct MemoryMapingsResponse {
    pub mappings: Vec<GuestRegionUffdMapping>,
}

/// Response of the memory-overview route: one bit per page in each bitmap.
#[derive(Debug, Clone, PartialEq, Eq)]
pub struct MemoryResponse {
    pub resident: Vec<u64>,
    pub empty: Vec<u64>,
}

/// Response of the dirty-memory route: one bit per page.
#[derive(Debug, Clone, PartialEq, Eq)]
pub struct MemoryDirty {
    pub bitmap: Vec<u64>,
}

} // verus!
