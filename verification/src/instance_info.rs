//! Response records of the instance-information surface.
//!
//! These are the variants of the memory responses that report guest
//! regions rather than user-fault mappings.

use vstd::prelude::*;

verus! {

/// A guest memory region's placement in host virtual memory.
#[derive(Debug, Clone, Copy, PartialEq, Eq, Structural)]
pub struct GuestMemoryRegionMapping {
    pub base_address: u64,
    pub size: usize,
    pub base_host_virt_addr: u64,
}

/// Response of the memory-mappings route, in terms of guest regions.
#[derive(Debug, Clone, PartialEq, Eq)]
pub struct MemoryMappingsResponse {
    pub mappings: Vec<GuestMemoryRegionMapping>,
}

} // verus!
