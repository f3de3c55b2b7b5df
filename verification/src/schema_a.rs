//! State schema of the oldest snapshot format (wire version 4.0.0).
//!
//! Records identical to the current schema are re-exported from it; records
//! shared with the middle schema are re-exported from there (the
//! canonical-source rule).  Only records that are truly specific to the
//! oldest format are defined here.
//!
//! Specific to this format: the device info carries a list of interrupt
//! numbers, the memory region carries the file offset of its image in the
//! companion memory file, the memory layout sits at the envelope level, the
//! capability modifiers sit inside the VM state, and the x86-64
//! extended-CPU-state blob is the fixed-size opaque form.

use vstd::prelude::*;

pub use crate::schema_b::{
    ACPIDeviceManagerState, BalloonState, BalloonStatsState, BlockState, EntropyState, GicState,
    MmdsVersionState, MmioTransportState, NetState, VcpuAarch64State, VhostUserBlockState,
    VirtioBlockState, VirtioDeviceState, VsockFrontendState, VsockState,
};
pub use crate::schema_c::{
    Aarch64RegisterVec, DeviceType, GicRegState, GicVcpuState, KvmCapability, QueueState,
    StaticCpuTemplate, VMGenIDState, VcpuInitState, VgicSysRegsState, VmInfo,
};

verus! {

/// Host-side MMIO slot of a device, with a list of interrupt numbers; later
/// schemas keep at most one.
#[derive(Debug, Clone, PartialEq, Eq)]
pub struct MMIODeviceInfo {
    pub addr: u64,
    pub len: u64,
    pub irqs: Vec<u32>,
}

/// A connected block device of the oldest schema.
#[derive(Debug, Clone, PartialEq, Eq)]
pub struct ConnectedBlockState {
    pub device_id: String,
    pub device_state: BlockState,
    pub transport_state: MmioTransportState,
    pub device_info: MMIODeviceInfo,
}

/// A connected network device of the oldest schema.
#[derive(Debug, Clone, PartialEq, Eq)]
pub struct ConnectedNetState {
    pub device_id: String,
    pub device_state: NetState,
    pub transport_state: MmioTransportState,
    pub device_info: MMIODeviceInfo,
}

/// A connected vsock device of the oldest schema.
#[derive(Debug, Clone, PartialEq, Eq)]
pub struct ConnectedVsockState {
    pub device_id: String,
    pub device_state: VsockState,
    pub transport_state: MmioTransportState,
    pub device_info: MMIODeviceInfo,
}

/// A connected balloon device of the oldest schema.
#[derive(Debug, Clone, PartialEq, Eq)]
pub struct ConnectedBalloonState {
    pub device_id: String,
    pub device_state: BalloonState,
    pub transport_state: MmioTransportState,
    pub device_info: MMIODeviceInfo,
}

/// A connected entropy device of the oldest schema.
#[derive(Debug, Clone, PartialEq, Eq)]
pub struct ConnectedEntropyState {
    pub device_id: String,
    pub device_state: EntropyState,
    pub transport_state: MmioTransportState,
    pub device_info: MMIODeviceInfo,
}

/// A legacy device and its MMIO slot in the oldest schema (aarch64 only).
#[derive(Debug, Clone, PartialEq, Eq)]
pub struct ConnectedLegacyState {
    pub type_: DeviceType,
    pub device_info: MMIODeviceInfo,
}

/// The bundle of device states in the oldest schema's layout.
#[derive(Debug, Clone, PartialEq, Eq)]
pub struct DeviceStates {
    pub legacy_devices: Vec<ConnectedLegacyState>,
    pub block_devices: Vec<ConnectedBlockState>,
    pub net_devices: Vec<ConnectedNetState>,
    pub vsock_device: Option<ConnectedVsockState>,
    pub balloon_device: Option<ConnectedBalloonState>,
    pub mmds_version: Option<MmdsVersionState>,
    pub entropy_device: Option<ConnectedEntropyState>,
}

/// A guest physical memory region of the oldest schema, with the file
/// position of the region inside the companion memory snapshot file.
#[derive(Debug, Clone, Copy, PartialEq, Eq, Structural)]
pub struct GuestMemoryRegionState {
    pub base_address: u64,
    pub size: usize,
    pub offset: u64,
}

/// The guest memory layout of the oldest schema.
#[derive(Debug, Clone, PartialEq, Eq)]
pub struct GuestMemoryState {
    pub regions: Vec<GuestMemoryRegionState>,
}

/// State of one x86-64 vCPU in the oldest schema: the extended-CPU-state
/// blob is the fixed-size opaque form without the matrix-capable wrapper.
#[derive(Debug, Clone, PartialEq, Eq)]
pub struct VcpuX86State {
    pub opaque: Vec<u8>,
    pub xsave: Vec<u8>,
    pub tsc_khz: Option<u32>,
}

/// State of one vCPU in the oldest schema.
#[derive(Debug, Clone, PartialEq, Eq)]
pub enum VcpuState {
    X86_64(VcpuX86State),
    Aarch64(VcpuAarch64State),
}

/// Architecture-specific part of the oldest schema's VM state.
#[derive(Debug, Clone, PartialEq, Eq)]
pub enum VmArchState {
    X86_64(Vec<u8>),
    Aarch64(GicState),
}

/// Hypervisor-visible VM-wide state of the oldest schema: it still holds
/// the capability modifiers, and the memory layout sits at envelope level.
#[derive(Debug, Clone, PartialEq, Eq)]
pub struct VmState {
    pub arch_state: VmArchState,
    pub kvm_cap_modifiers: Vec<KvmCapability>,
}

/// Top-level envelope of the oldest schema: the memory layout is at this
/// level, and there is no hypervisor-wide record.
#[derive(Debug, Clone, PartialEq, Eq)]
pub struct MicrovmState {
    pub vm_info: VmInfo,
    pub memory_state: GuestMemoryState,
    pub vm_state: VmState,
    pub vcpu_states: Vec<VcpuState>,
    pub device_states: DeviceStates,
    pub acpi_dev_state: ACPIDeviceManagerState,
}

} // verus!
