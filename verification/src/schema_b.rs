//! State schema of the middle snapshot format (wire version 6.0.0).
//!
//! Records that are identical to the current schema are re-exported from it
//! (the canonical-source rule).  Records that are shared by the oldest and
//! middle formats but changed in the current one are defined here as the
//! canonical source; the oldest catalog re-exports them.
//!
//! Changes from the oldest schema: the device info's interrupt list
//! collapsed to at most one interrupt, the memory region lost its file
//! offset, the memory layout moved from the envelope into the VM state, the
//! capability modifiers moved out of the VM state into the hypervisor-wide
//! record, and the x86-64 extended-CPU-state blob gained its matrix-capable
//! wrapper.

use vstd::prelude::*;

pub use crate::schema_c::{
    Aarch64RegisterVec, BalloonConfigSpaceState, CacheType, DeviceType, FileEngineTypeState,
    GicRegState, GicVcpuState, KvmCapability, KvmState, MmdsNetworkStackState, NetConfigSpaceState,
    QueueState, RateLimiterState, RxBufferState, StaticCpuTemplate, TokenBucketState,
    VMGenIDState, VcpuInitState, VcpuX86State, VgicSysRegsState, VmInfo, VsockBackendState,
};

verus! {

/// Common virtio device state: in this schema the interrupt status still
/// lives on the device.
#[derive(Debug, Clone, PartialEq, Eq)]
pub struct VirtioDeviceState {
    pub device_type: u32,
    pub avail_features: u64,
    pub acked_features: u64,
    pub queues: Vec<QueueState>,
    pub interrupt_status: u32,
    pub activated: bool,
}

/// State of the MMIO transport: without the interrupt status, which moves
/// here in the current schema.
#[derive(Debug, Clone, PartialEq, Eq)]
pub struct MmioTransportState {
    pub features_select: u32,
    pub acked_features_select: u32,
    pub queue_select: u32,
    pub device_status: u32,
    pub config_generation: u32,
}

/// Host-side MMIO slot of a device, with at most one interrupt number.
/// The interrupt is stored architecture-based, not zero-based.
///
/// On the wire the monitor stored the interrupt as a non-zero-restricted
/// integer, whose byte sequence matches a plain integer; it is held as a
/// plain integer here.
#[derive(Debug, Clone, Copy, PartialEq, Eq)]
pub struct MMIODeviceInfo {
    pub addr: u64,
    pub len: u64,
    pub irq: Option<u32>,
}

/// Virtio block device state, canonical for the oldest and middle schemas.
#[derive(Debug, Clone, PartialEq, Eq)]
pub struct VirtioBlockState {
    pub id: String,
    pub partuuid: Option<String>,
    pub cache_type: CacheType,
    pub root_device: bool,
    pub disk_path: String,
    pub virtio_state: VirtioDeviceState,
    pub rate_limiter_state: RateLimiterState,
    pub file_engine_type: FileEngineTypeState,
}

/// Vhost-user block device state, canonical for the oldest and middle
/// schemas.
#[derive(Debug, Clone, PartialEq, Eq)]
pub struct VhostUserBlockState {
    pub id: String,
    pub partuuid: Option<String>,
    pub cache_type: CacheType,
    pub root_device: bool,
    pub socket_path: String,
    pub vu_acked_protocol_features: u64,
    pub config_space: Vec<u8>,
    pub virtio_state: VirtioDeviceState,
}

/// Two-arm block device sum, canonical for the oldest and middle schemas.
#[derive(Debug, Clone, PartialEq, Eq)]
pub enum BlockState {
    Virtio(VirtioBlockState),
    VhostUser(VhostUserBlockState),
}

/// Network device state, canonical for the oldest and middle schemas.
#[derive(Debug, Clone, PartialEq, Eq)]
pub struct NetState {
    pub id: String,
    pub tap_if_name: String,
    pub rx_rate_limiter_state: RateLimiterState,
    pub tx_rate_limiter_state: RateLimiterState,
    pub mmds_ns: Option<MmdsNetworkStackState>,
    pub config_space: NetConfigSpaceState,
    pub virtio_state: VirtioDeviceState,
    pub rx_buffers_state: RxBufferState,
}

/// Vsock frontend state, canonical for the oldest and middle schemas.
#[derive(Debug, Clone, PartialEq, Eq)]
pub struct VsockFrontendState {
    pub cid: u64,
    pub virtio_state: VirtioDeviceState,
}

/// Vsock device state, canonical for the oldest and middle schemas.
#[derive(Debug, Clone, PartialEq, Eq)]
pub struct VsockState {
    pub backend: VsockBackendState,
    pub frontend: VsockFrontendState,
}

/// Balloon statistics of the oldest and middle schemas: ten counters.
#[derive(Debug, Clone, Copy, PartialEq, Eq)]
pub struct BalloonStatsState {
    pub swap_in: Option<u64>,
    pub swap_out: Option<u64>,
    pub major_faults: Option<u64>,
    pub minor_faults: Option<u64>,
    pub free_memory: Option<u64>,
    pub total_memory: Option<u64>,
    pub available_memory: Option<u64>,
    pub disk_caches: Option<u64>,
    pub hugetlb_allocations: Option<u64>,
    pub hugetlb_failures: Option<u64>,
}

/// Balloon device state, canonical for the oldest and middle schemas.
#[derive(Debug, Clone, PartialEq, Eq)]
pub struct BalloonState {
    pub stats_polling_interval_s: u16,
    pub stats_desc_index: Option<u16>,
    pub latest_stats: BalloonStatsState,
    pub config_space: BalloonConfigSpaceState,
    pub virtio_state: VirtioDeviceState,
}

/// Entropy device state, canonical for the oldest and middle schemas.
#[derive(Debug, Clone, PartialEq, Eq)]
pub struct EntropyState {
    pub virtio_state: VirtioDeviceState,
    pub rate_limiter_state: RateLimiterState,
}

/// Version of the metadata service protocol; the current schema renames
/// this to `MmdsVersion` inside the richer `MmdsState`.
#[derive(Debug, Clone, Copy, PartialEq, Eq, Structural)]
pub enum MmdsVersionState {
    V1,
    V2,
}

/// ACPI device bundle of the oldest and middle schemas: the
/// VM-generation-id record is optional here.
#[derive(Debug, Clone, Copy, PartialEq, Eq)]
pub struct ACPIDeviceManagerState {
    pub vmgenid: Option<VMGenIDState>,
}

/// A guest physical memory region without the file offset the oldest
/// schema carried; regions are laid out contiguously in base-address order.
#[derive(Debug, Clone, Copy, PartialEq, Eq, Structural)]
pub struct GuestMemoryRegionState {
    pub base_address: u64,
    pub size: usize,
}

/// The guest memory layout of the middle schema.
#[derive(Debug, Clone, PartialEq, Eq)]
pub struct GuestMemoryState {
    pub regions: Vec<GuestMemoryRegionState>,
}

/// A connected block device of the middle schema.
#[derive(Debug, Clone, PartialEq, Eq)]
pub struct ConnectedBlockState {
    pub device_id: String,
    pub device_state: BlockState,
    pub transport_state: MmioTransportState,
    pub device_info: MMIODeviceInfo,
}

/// A connected network device of the middle schema.
#[derive(Debug, Clone, PartialEq, Eq)]
pub struct ConnectedNetState {
    pub device_id: String,
    pub device_state: NetState,
    pub transport_state: MmioTransportState,
    pub device_info: MMIODeviceInfo,
}

/// A connected vsock device of the middle schema.
#[derive(Debug, Clone, PartialEq, Eq)]
pub struct ConnectedVsockState {
    pub device_id: String,
    pub device_state: VsockState,
    pub transport_state: MmioTransportState,
    pub device_info: MMIODeviceInfo,
}

/// A connected balloon device of the middle schema.
#[derive(Debug, Clone, PartialEq, Eq)]
pub struct ConnectedBalloonState {
    pub device_id: String,
    pub device_state: BalloonState,
    pub transport_state: MmioTransportState,
    pub device_info: MMIODeviceInfo,
}

/// A connected entropy device of the middle schema.
#[derive(Debug, Clone, PartialEq, Eq)]
pub struct ConnectedEntropyState {
    pub device_id: String,
    pub device_state: EntropyState,
    pub transport_state: MmioTransportState,
    pub device_info: MMIODeviceInfo,
}

/// A legacy device and its MMIO slot in the middle schema (aarch64 only).
#[derive(Debug, Clone, Copy, PartialEq, Eq)]
pub struct ConnectedLegacyState {
    pub type_: DeviceType,
    pub device_info: MMIODeviceInfo,
}

/// The bundle of device states in the middle schema's layout.
#[derive(Debug, Clone, PartialEq, Eq)]
pub struct DeviceStates {
    pub legacy_devices: Vec<ConnectedLegacyState>,
    pub block_devices: Vec<ConnectedBlockState>,
    pub net_devices: Vec<ConnectedNetState>,
    pub vsock_device: Option<ConnectedVsockState>,
    pub balloon_device: Option<ConnectedBalloonState>,
    pub mmds_version: Option<MmdsVersionState>,
    pub entropy_device: Option<ConnectedEntropyState>,
}

/// Interrupt-controller state of the oldest and middle schemas (aarch64):
/// without the interrupt-translation-service block.
#[derive(Debug, Clone, PartialEq, Eq)]
pub struct GicState {
    pub dist: Vec<GicRegState<u32>>,
    pub gic_vcpu_states: Vec<GicVcpuState>,
}

/// State of one aarch64 vCPU in the oldest and middle schemas: without the
/// paravirt-time address.
#[derive(Debug, Clone, PartialEq, Eq)]
pub struct VcpuAarch64State {
    pub mp_state: u32,
    pub regs: Aarch64RegisterVec,
    pub mpidr: u64,
    pub kvi: VcpuInitState,
}

/// State of one vCPU in the middle schema.  The x86-64 record already has
/// the current shape; the aarch64 record lacks the paravirt-time address.
#[derive(Debug, Clone, PartialEq, Eq)]
pub enum VcpuState {
    X86_64(VcpuX86State),
    Aarch64(VcpuAarch64State),
}

/// Architecture-specific part of the middle schema's VM state.
#[derive(Debug, Clone, PartialEq, Eq)]
pub enum VmArchState {
    X86_64(Vec<u8>),
    Aarch64(GicState),
}

/// Hypervisor-visible VM-wide state of the middle schema: the memory layout
/// moved in from the envelope; no resource allocator is persisted yet.
#[derive(Debug, Clone, PartialEq, Eq)]
pub struct VmState {
    pub memory: GuestMemoryState,
    pub arch_state: VmArchState,
}

/// Top-level envelope of the middle schema.
#[derive(Debug, Clone, PartialEq, Eq)]
pub struct MicrovmState {
    pub vm_info: VmInfo,
    pub kvm_state: KvmState,
    pub vm_state: VmState,
    pub vcpu_states: Vec<VcpuState>,
    pub device_states: DeviceStates,
    pub acpi_dev_state: ACPIDeviceManagerState,
}

} // verus!
