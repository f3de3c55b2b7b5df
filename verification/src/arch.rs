//! Per-architecture numbering and layout constants.
//!
//! The monitor runs on two CPU architectures.  The interrupt-number spaces,
//! the memory-mapped I/O windows and the ACPI system-memory window differ
//! between the two, so every conversion that depends on them takes the
//! architecture as an explicit value.

use vstd::prelude::*;

verus! {

/// CPU architecture whose interrupt numbering and address layout govern a
/// snapshot.
#[derive(Clone, Copy, Debug, PartialEq, Eq, Structural)]
pub enum Arch {
    /// The x86-64 architecture: legacy IRQ numbers coincide with GSI numbers.
    X86_64,
    /// The aarch64 architecture: device interrupt numbers start at the shared
    /// peripheral interrupt origin (32) while GSI numbers start at zero.
    Aarch64,
}

/// Offset between persisted device interrupt numbers and zero-based GSI
/// numbers: zero on x86-64, the shared-peripheral-interrupt origin on aarch64.
pub open spec fn spec_spi_start(arch: Arch) -> u32 {
    match arch {
        Arch::X86_64 => 0,
        Arch::Aarch64 => 32,
    }
}

#[verifier::when_used_as_spec(spec_spi_start)]
pub fn spi_start(arch: Arch) -> (r: u32)
    ensures
        r == spec_spi_start(arch),
{
    match arch {
        Arch::X86_64 => 0,
        Arch::Aarch64 => 32,
    }
}

/// First GSI of the legacy-interrupt allocator.
pub open spec fn spec_gsi_legacy_start(arch: Arch) -> u32 {
    match arch {
        Arch::X86_64 => 5,
        Arch::Aarch64 => 0,
    }
}

#[verifier::when_used_as_spec(spec_gsi_legacy_start)]
pub fn gsi_legacy_start(arch: Arch) -> (r: u32)
    ensures
        r == spec_gsi_legacy_start(arch),
{
    match arch {
        Arch::X86_64 => 5,
        Arch::Aarch64 => 0,
    }
}

/// Last GSI of the legacy-interrupt allocator.
pub open spec fn spec_gsi_legacy_end(arch: Arch) -> u32 {
    match arch {
        Arch::X86_64 => 23,
        Arch::Aarch64 => 63,
    }
}

#[verifier::when_used_as_spec(spec_gsi_legacy_end)]
pub fn gsi_legacy_end(arch: Arch) -> (r: u32)
    ensures
        r == spec_gsi_legacy_end(arch),
{
    match arch {
        Arch::X86_64 => 23,
        Arch::Aarch64 => 63,
    }
}

/// First GSI of the message-signalled-interrupt allocator.
pub open spec fn spec_gsi_msi_start(arch: Arch) -> u32 {
    match arch {
        Arch::X86_64 => 24,
        Arch::Aarch64 => 64,
    }
}

#[verifier::when_used_as_spec(spec_gsi_msi_start)]
pub fn gsi_msi_start(arch: Arch) -> (r: u32)
    ensures
        r == spec_gsi_msi_start(arch),
{
    match arch {
        Arch::X86_64 => 24,
        Arch::Aarch64 => 64,
    }
}

/// Last GSI of the message-signalled-interrupt allocator.
pub open spec fn spec_gsi_msi_end(arch: Arch) -> u32 {
    match arch {
        Arch::X86_64 => 1023,
        Arch::Aarch64 => 1023,
    }
}

#[verifier::when_used_as_spec(spec_gsi_msi_end)]
pub fn gsi_msi_end(arch: Arch) -> (r: u32)
    ensures
        r == spec_gsi_msi_end(arch),
{
    match arch {
        Arch::X86_64 => 1023,
        Arch::Aarch64 => 1023,
    }
}

/// First address of the 32-bit memory-mapped I/O device window.
pub open spec fn spec_mem_32bit_devices_start(arch: Arch) -> u64 {
    match arch {
        Arch::X86_64 => 0xD000_0000,
        Arch::Aarch64 => 0x4000_0000,
    }
}

#[verifier::when_used_as_spec(spec_mem_32bit_devices_start)]
pub fn mem_32bit_devices_start(arch: Arch) -> (r: u64)
    ensures
        r == spec_mem_32bit_devices_start(arch),
{
    match arch {
        Arch::X86_64 => 0xD000_0000,
        Arch::Aarch64 => 0x4000_0000,
    }
}

/// Size of the 32-bit memory-mapped I/O device window.
pub open spec fn spec_mem_32bit_devices_size(arch: Arch) -> u64 {
    match arch {
        Arch::X86_64 => 0x3000_0000,
        Arch::Aarch64 => 0xC000_0000,
    }
}

#[verifier::when_used_as_spec(spec_mem_32bit_devices_size)]
pub fn mem_32bit_devices_size(arch: Arch) -> (r: u64)
    ensures
        r == spec_mem_32bit_devices_size(arch),
{
    match arch {
        Arch::X86_64 => 0x3000_0000,
        Arch::Aarch64 => 0xC000_0000,
    }
}

/// First address of the 64-bit memory-mapped I/O device window.
pub open spec fn spec_mem_64bit_devices_start(arch: Arch) -> u64 {
    0x40_0000_0000
}

#[verifier::when_used_as_spec(spec_mem_64bit_devices_start)]
pub fn mem_64bit_devices_start(arch: Arch) -> (r: u64)
    ensures
        r == spec_mem_64bit_devices_start(arch),
{
    0x40_0000_0000
}

/// Size of the 64-bit memory-mapped I/O device window.
pub open spec fn spec_mem_64bit_devices_size(arch: Arch) -> u64 {
    0x40_0000_0000
}

#[verifier::when_used_as_spec(spec_mem_64bit_devices_size)]
pub fn mem_64bit_devices_size(arch: Arch) -> (r: u64)
    ensures
        r == spec_mem_64bit_devices_size(arch),
{
    0x40_0000_0000
}

/// First address past the 64-bit memory-mapped I/O device window.
pub open spec fn spec_first_addr_past_64bits_mmio(arch: Arch) -> u64 {
    0x80_0000_0000
}

#[verifier::when_used_as_spec(spec_first_addr_past_64bits_mmio)]
pub fn first_addr_past_64bits_mmio(arch: Arch) -> (r: u64)
    ensures
        r == spec_first_addr_past_64bits_mmio(arch),
{
    0x80_0000_0000
}

/// Size of the window past the 64-bit memory-mapped I/O device window.
pub open spec fn spec_past_64bits_mmio_size(arch: Arch) -> u64 {
    0x4000_0000
}

#[verifier::when_used_as_spec(spec_past_64bits_mmio_size)]
pub fn past_64bits_mmio_size(arch: Arch) -> (r: u64)
    ensures
        r == spec_past_64bits_mmio_size(arch),
{
    0x4000_0000
}

/// First address of the ACPI system-memory window.
pub open spec fn spec_system_mem_start(arch: Arch) -> u64 {
    0x000C_0000
}

#[verifier::when_used_as_spec(spec_system_mem_start)]
pub fn system_mem_start(arch: Arch) -> (r: u64)
    ensures
        r == spec_system_mem_start(arch),
{
    0x000C_0000
}

/// Size of the ACPI system-memory window.
pub open spec fn spec_system_mem_size(arch: Arch) -> u64 {
    0x0004_0000
}

#[verifier::when_used_as_spec(spec_system_mem_size)]
pub fn system_mem_size(arch: Arch) -> (r: u64)
    ensures
        r == spec_system_mem_size(arch),
{
    0x0004_0000
}

/// Size in bytes of the VM-generation-id record in guest memory.
pub const VMGENID_MEM_SIZE: u64 = 16;

/// Alignment of the VM-generation-id record in guest memory.
pub const VMGENID_MEM_ALIGN: u64 = 8;

/// Convert a persisted device interrupt number into a zero-based global
/// system interrupt number.
///
/// On x86-64 the persisted interrupt base equals the first legacy GSI, so the
/// map is the identity.  On aarch64 persisted numbers start at the shared
/// peripheral interrupt origin (32) while GSI numbers start at zero, so the
/// map subtracts that origin, saturating at zero.
pub open spec fn spec_irq_to_gsi(arch: Arch, irq: u32) -> u32 {
    if irq >= spec_spi_start(arch) {
        (irq - spec_spi_start(arch)) as u32
    } else {
        0
    }
}

#[verifier::when_used_as_spec(spec_irq_to_gsi)]
pub fn irq_to_gsi(arch: Arch, irq: u32) -> (r: u32)
    ensures
        r == spec_irq_to_gsi(arch, irq),
{
    irq.saturating_sub(spi_start(arch))
}

} // verus!
