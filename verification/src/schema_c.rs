//! State schema of the current snapshot format (wire version 8.0.0).
//!
//! This module is the canonical source for every record that is identical
//! across all snapshot versions; the older catalogs re-export such records
//! instead of defining their own copies, so that the wire layout cannot
//! silently drift apart.
//!
//! Records that changed in this version relative to the middle one:
//! the device state loses `interrupt_status` (re-homed onto the transport),
//! the transport gains it, the device info's interrupt number becomes a
//! zero-based GSI, the balloon gains hinting state and six new counters, the
//! memory regions gain a region type and plug state, the ACPI bundle makes
//! the VM-generation-id mandatory and synthesizes a VM clock, and the VM
//! state carries the reconstructed resource allocator.

use crate::resources::ResourceAllocator;
use vstd::prelude::*;

verus! {

/// State of one virtio queue.  Identical in every snapshot version.
#[derive(Debug, Clone, PartialEq, Eq)]
pub struct QueueState {
    pub max_size: u16,
    pub size: u16,
    pub ready: bool,
    pub next_avail: u16,
    pub next_used: u16,
}

/// Common virtio device state.  The middle schema kept the interrupt status
/// here; in this schema it lives on the transport instead.
#[derive(Debug, Clone, PartialEq, Eq)]
pub struct VirtioDeviceState {
    pub device_type: u32,
    pub avail_features: u64,
    pub acked_features: u64,
    pub queues: Vec<QueueState>,
    pub activated: bool,
}

/// State of the MMIO transport in front of a virtio device.  Gains
/// `interrupt_status`, re-homed from the device state.
#[derive(Debug, Clone, PartialEq, Eq)]
pub struct MmioTransportState {
    pub features_select: u32,
    pub acked_features_select: u32,
    pub queue_select: u32,
    pub device_status: u32,
    pub config_generation: u32,
    pub interrupt_status: u32,
}

/// Host-side MMIO slot of a device.  The interrupt number is a zero-based
/// global system interrupt here; older schemas stored architecture-based
/// interrupt numbers.
#[derive(Debug, Clone, Copy, PartialEq, Eq)]
pub struct MMIODeviceInfo {
    pub addr: u64,
    pub len: u64,
    pub gsi: Option<u32>,
}

/// Host cache policy of a block device.  Identical in every version.
#[derive(Debug, Clone, Copy, PartialEq, Eq, Structural)]
pub enum CacheType {
    /// Writes may sit in the host page cache without flushing.
    Unflushed,
    /// Writes are flushed to the backing file.
    Writeback,
}

/// File engine used by a virtio block device.  Identical in every version.
#[derive(Debug, Clone, Copy, PartialEq, Eq, Structural)]
pub enum FileEngineTypeState {
    Async,
    Sync,
}

/// Persisted token bucket of a rate limiter.  Identical in every version.
#[derive(Debug, Clone, Copy, PartialEq, Eq, Structural)]
pub struct TokenBucketState {
    pub size: u64,
    pub one_time_burst: u64,
    pub refill_time_ms: u64,
}

/// Persisted rate limiter.  Identical in every version.
#[derive(Debug, Clone, Copy, PartialEq, Eq)]
pub struct RateLimiterState {
    pub bandwidth: Option<TokenBucketState>,
    pub ops: Option<TokenBucketState>,
}

/// Virtio block device state.  Redefined here because the inner virtio
/// state changed.
#[derive(Debug, Clone, PartialEq, Eq)]
pub struct VirtioBlockState {
    pub id: String,
    pub partuuid: Option<String>,
    pub cache_type: CacheType,
    pub root_device: bool,
    pub disk_path: String,
    pub virtio_state: VirtioDeviceState,
    pub rate_limiter_state: RateLimiterState,
    pub file_engine_type: FileEngineTypeState,
}

/// Vhost-user block device state.  Redefined here because the inner virtio
/// state changed.
#[derive(Debug, Clone, PartialEq, Eq)]
pub struct VhostUserBlockState {
    pub id: String,
    pub partuuid: Option<String>,
    pub cache_type: CacheType,
    pub root_device: bool,
    pub socket_path: String,
    pub vu_acked_protocol_features: u64,
    pub config_space: Vec<u8>,
    pub virtio_state: VirtioDeviceState,
}

/// Two-arm block device sum: an in-process virtio device or a vhost-user
/// device served by an external backend.
#[derive(Debug, Clone, PartialEq, Eq)]
pub enum BlockState {
    Virtio(VirtioBlockState),
    VhostUser(VhostUserBlockState),
}

/// Persisted metadata-service network stack.  Identical in every version.
#[derive(Debug, Clone, Copy, PartialEq, Eq, Structural)]
pub struct MmdsNetworkStackState {
    pub ipv4_addr: u32,
    pub tcp_port: u16,
}

/// Persisted network device config space.  Identical in every version.
#[derive(Debug, Clone, PartialEq, Eq)]
pub struct NetConfigSpaceState {
    pub guest_mac: Option<Vec<u8>>,
}

/// Persisted receive-buffer state of a network device.  Identical in every
/// version.
#[derive(Debug, Clone, Copy, PartialEq, Eq, Structural)]
pub struct RxBufferState {
    pub min_buffer_size: u32,
}

/// Network device state.  Redefined here because the inner virtio state
/// changed; the receive-buffer state is retained.
#[derive(Debug, Clone, PartialEq, Eq)]
pub struct NetState {
    pub id: String,
    pub tap_if_name: String,
    pub rx_rate_limiter_state: RateLimiterState,
    pub tx_rate_limiter_state: RateLimiterState,
    pub mmds_ns: Option<MmdsNetworkStackState>,
    pub config_space: NetConfigSpaceState,
    pub virtio_state: VirtioDeviceState,
    pub rx_buffers_state: RxBufferState,
}

/// Persisted vsock backend.  Identical in every version.
#[derive(Debug, Clone, PartialEq, Eq)]
pub enum VsockBackendState {
    Uds(String),
}

/// Vsock frontend state.  Redefined here because the inner virtio state
/// changed.
#[derive(Debug, Clone, PartialEq, Eq)]
pub struct VsockFrontendState {
    pub cid: u64,
    pub virtio_state: VirtioDeviceState,
}

/// Vsock device state.
#[derive(Debug, Clone, PartialEq, Eq)]
pub struct VsockState {
    pub backend: VsockBackendState,
    pub frontend: VsockFrontendState,
}

/// Persisted balloon config space.  Identical in every version.
#[derive(Debug, Clone, Copy, PartialEq, Eq, Structural)]
pub struct BalloonConfigSpaceState {
    pub num_pages: u32,
    pub actual_pages: u32,
}

/// Balloon statistics.  This schema adds six counters that older monitors
/// did not report; conversion fills them with `None`.
#[derive(Debug, Clone, Copy, PartialEq, Eq)]
pub struct BalloonStatsState {
    pub swap_in: Option<u64>,
    pub swap_out: Option<u64>,
    pub major_faults: Option<u64>,
    pub minor_faults: Option<u64>,
    pub free_memory: Option<u64>,
    pub total_memory: Option<u64>,
    pub available_memory: Option<u64>,
    pub disk_caches: Option<u64>,
    pub hugetlb_allocations: Option<u64>,
    pub hugetlb_failures: Option<u64>,
    pub oom_kill: Option<u64>,
    pub alloc_stall: Option<u64>,
    pub async_scan: Option<u64>,
    pub direct_scan: Option<u64>,
    pub async_reclaim: Option<u64>,
    pub direct_reclaim: Option<u64>,
}

/// Free-page-hinting state of the balloon, new in this schema; conversion
/// synthesizes a fresh one.
#[derive(Debug, Clone, Copy, PartialEq, Eq, Structural)]
pub struct HintingState {
    pub host_cmd: u64,
    pub last_cmd_id: u64,
    pub guest_cmd: Option<u64>,
    pub acknowledge_on_finish: bool,
}

/// Balloon device state.  Gains `hinting_state`; the inner virtio state
/// changed.
#[derive(Debug, Clone, PartialEq, Eq)]
pub struct BalloonState {
    pub stats_polling_interval_s: u16,
    pub stats_desc_index: Option<u16>,
    pub latest_stats: BalloonStatsState,
    pub config_space: BalloonConfigSpaceState,
    pub hinting_state: HintingState,
    pub virtio_state: VirtioDeviceState,
}

/// Entropy device state.  Redefined here because the inner virtio state
/// changed.
#[derive(Debug, Clone, PartialEq, Eq)]
pub struct EntropyState {
    pub virtio_state: VirtioDeviceState,
    pub rate_limiter_state: RateLimiterState,
}

/// Version of the metadata service protocol.  The middle schema called this
/// `MmdsVersionState`; this schema wraps it in the richer `MmdsState`.
#[derive(Debug, Clone, Copy, PartialEq, Eq, Structural)]
pub enum MmdsVersion {
    V1,
    V2,
}

/// Metadata-service record, new in this schema: the protocol version plus
/// an instance-metadata compatibility flag that defaults to off.
#[derive(Debug, Clone, Copy, PartialEq, Eq, Structural)]
pub struct MmdsState {
    pub version: MmdsVersion,
    pub imds_compat: bool,
}

/// A device connected over the MMIO transport: its identifier, its inner
/// state, the transport in front of it, and its host-side MMIO slot.
#[derive(Debug, Clone, PartialEq, Eq)]
pub struct ConnectedDeviceState<T> {
    pub device_id: String,
    pub device_state: T,
    pub transport_state: MmioTransportState,
    pub device_info: MMIODeviceInfo,
}

/// Kind of a legacy (non-virtio) device.  Identical in every version.
#[derive(Debug, Clone, Copy, PartialEq, Eq, Structural)]
pub enum DeviceType {
    Virtio(u32),
    Serial,
    Rtc,
}

/// A legacy device and its MMIO slot (aarch64 only; empty on x86-64).
#[derive(Debug, Clone, Copy, PartialEq, Eq)]
pub struct ConnectedLegacyState {
    pub type_: DeviceType,
    pub device_info: MMIODeviceInfo,
}

/// Persistent-memory device state, new in this schema; conversion leaves no
/// such devices.
#[derive(Debug, Clone, PartialEq, Eq)]
pub struct PmemState {
    pub id: String,
    pub root_device: bool,
}

/// Memory-hotplug device state, new in this schema; conversion leaves none.
#[derive(Debug, Clone, PartialEq, Eq)]
pub struct VirtioMemState {
    pub id: String,
    pub block_size: u64,
}

/// The bundle of MMIO device states in this schema's layout.
#[derive(Debug, Clone, PartialEq, Eq)]
pub struct DeviceStates {
    pub legacy_devices: Vec<ConnectedLegacyState>,
    pub block_devices: Vec<ConnectedDeviceState<BlockState>>,
    pub net_devices: Vec<ConnectedDeviceState<NetState>>,
    pub vsock_device: Option<ConnectedDeviceState<VsockState>>,
    pub balloon_device: Option<ConnectedDeviceState<BalloonState>>,
    pub mmds: Option<MmdsState>,
    pub entropy_device: Option<ConnectedDeviceState<EntropyState>>,
    pub pmem_devices: Vec<PmemState>,
    pub memory_device: Option<VirtioMemState>,
}

/// PCI device states, new in this schema; empty after migration.
#[derive(Debug, Clone, PartialEq, Eq, Structural)]
pub struct PciDevicesState {}

/// Kind of a guest memory region, new in this schema.
#[derive(Debug, Clone, Copy, PartialEq, Eq, Structural)]
pub enum GuestRegionType {
    /// Regular DRAM.
    Dram,
    /// Hot-pluggable memory managed by the memory-hotplug device.
    Hotpluggable,
}

/// A guest physical memory region.  Gains `region_type` and the per-slot
/// plug state relative to the middle schema.
#[derive(Debug, Clone, PartialEq, Eq)]
pub struct GuestMemoryRegionState {
    pub base_address: u64,
    pub size: usize,
    pub region_type: GuestRegionType,
    pub plugged: Vec<bool>,
}

/// The guest memory layout.
#[derive(Debug, Clone, PartialEq, Eq)]
pub struct GuestMemoryState {
    pub regions: Vec<GuestMemoryRegionState>,
}

/// Persisted VM-generation-id device.  Identical in every version; optional
/// in older schemas, mandatory here.
#[derive(Debug, Clone, Copy, PartialEq, Eq, Structural)]
pub struct VMGenIDState {
    pub gsi: u32,
    pub addr: u64,
}

/// Magic number of the synthesized VM-clock record.
pub const VMCLOCK_MAGIC: u32 = 0x4B4C4356;

/// Size in bytes of the VM-clock record in guest memory.
pub const VMCLOCK_SIZE: u32 = 4096;

/// Clock-status value meaning the clock state is unknown.
pub const VMCLOCK_STATUS_UNKNOWN: u8 = 0;

/// Counter-id value meaning no valid counter.
pub const VMCLOCK_COUNTER_INVALID: u8 = 0xFF;

/// Persisted VM-clock device, new in this schema; the converter synthesizes
/// it with fixed literals on x86-64.
#[derive(Debug, Clone, Copy, PartialEq, Eq, Structural)]
pub struct VmClockState {
    pub guest_address: u64,
    pub magic: u32,
    pub size: u32,
    pub version: u16,
    pub clock_status: u8,
    pub counter_id: u8,
}

/// ACPI device bundle: the VM-generation-id is mandatory here, and on
/// x86-64 a VM clock is synthesized during conversion.
#[derive(Debug, Clone, Copy, PartialEq, Eq)]
pub struct ACPIDeviceManagerState {
    pub vmgenid: VMGenIDState,
    pub vmclock: Option<VmClockState>,
}

/// All device state of the machine in this schema's layout.
#[derive(Debug, Clone, PartialEq, Eq)]
pub struct DevicesState {
    pub mmio_state: DeviceStates,
    pub acpi_state: ACPIDeviceManagerState,
    pub pci_state: PciDevicesState,
}

/// A hypervisor capability modifier.  Identical in every version.
#[derive(Debug, Clone, Copy, PartialEq, Eq, Structural)]
pub enum KvmCapability {
    Add(u32),
    Remove(u32),
}

/// Hypervisor-wide state: the capability modifiers, re-homed out of the VM
/// state by the middle schema.
#[derive(Debug, Clone, PartialEq, Eq)]
pub struct KvmState {
    pub kvm_cap_modifiers: Vec<KvmCapability>,
}

/// Static CPU template selection.  Identical in every version.
#[derive(Debug, Clone, Copy, PartialEq, Eq, Structural)]
pub enum StaticCpuTemplate {
    V1N1,
    Disabled,
}

/// Monitor metadata.  Identical in every version.
#[derive(Debug, Clone, PartialEq, Eq)]
pub struct VmInfo {
    pub mem_size_mib: u64,
    pub smt: bool,
    pub cpu_template: StaticCpuTemplate,
    pub track_dirty_pages: bool,
}

/// A register chunk block of the interrupt controller.  Identical in every
/// version.
#[derive(Debug, Clone, PartialEq, Eq)]
pub struct GicRegState<T> {
    pub chunks: Vec<T>,
}

/// System registers of the interrupt controller.  Identical in every
/// version.
#[derive(Debug, Clone, PartialEq, Eq)]
pub struct VgicSysRegsState {
    pub main_icc_regs: Vec<GicRegState<u64>>,
    pub ap_icc_regs: Vec<Option<GicRegState<u64>>>,
}

/// Per-vCPU state of the interrupt controller.  Identical in every version.
#[derive(Debug, Clone, PartialEq, Eq)]
pub struct GicVcpuState {
    pub rdist: Vec<GicRegState<u32>>,
    pub icc: VgicSysRegsState,
}

/// Registers of the interrupt-translation service, new in this schema.
#[derive(Debug, Clone, PartialEq, Eq)]
pub struct ItsRegisterState {
    pub iidr: u64,
    pub cbaser: u64,
    pub creadr: u64,
    pub cwriter: u64,
    pub baser: Vec<u64>,
    pub ctlr: u64,
}

/// Interrupt-controller state (aarch64).  Gains the optional
/// interrupt-translation-service block; conversion leaves it absent.
#[derive(Debug, Clone, PartialEq, Eq)]
pub struct GicState {
    pub dist: Vec<GicRegState<u32>>,
    pub gic_vcpu_states: Vec<GicVcpuState>,
    pub its_state: Option<ItsRegisterState>,
}

/// Register list of an aarch64 vCPU.  Identical in every version.
#[derive(Debug, Clone, PartialEq, Eq)]
pub struct Aarch64RegisterVec {
    pub ids: Vec<u64>,
    pub data: Vec<u8>,
}

/// Initialization parameters of an aarch64 vCPU.  Identical in every
/// version.
#[derive(Debug, Clone, PartialEq, Eq)]
pub struct VcpuInitState {
    pub target: u32,
    pub features: Vec<u32>,
}

/// Extended-CPU-state blob of an x86-64 vCPU: the fixed-size base area plus
/// a variable tail for the matrix-extension state.  The oldest schema
/// persisted only the fixed base; wrapping it yields an empty tail.
#[derive(Debug, Clone, PartialEq, Eq)]
pub struct Xsave {
    pub region: Vec<u8>,
    pub fam: Vec<u64>,
}

/// State of one x86-64 vCPU.  Identical in the middle and current schemas;
/// the oldest schema stored the extended-CPU-state blob in its fixed-size
/// form.  State the migrator carries through unchanged is kept as one
/// opaque byte blob.
#[derive(Debug, Clone, PartialEq, Eq)]
pub struct VcpuX86State {
    pub opaque: Vec<u8>,
    pub xsave: Xsave,
    pub tsc_khz: Option<u32>,
}

/// State of one aarch64 vCPU.  Gains the optional paravirt-time address;
/// conversion leaves it absent.
#[derive(Debug, Clone, PartialEq, Eq)]
pub struct VcpuAarch64State {
    pub mp_state: u32,
    pub regs: Aarch64RegisterVec,
    pub mpidr: u64,
    pub kvi: VcpuInitState,
    pub pvtime_ipa: Option<u64>,
}

/// State of one vCPU, by architecture.
#[derive(Debug, Clone, PartialEq, Eq)]
pub enum VcpuState {
    X86_64(VcpuX86State),
    Aarch64(VcpuAarch64State),
}

/// Architecture-specific part of the VM state.  The x86-64 interrupt
/// controller and timer state passes through the migrator unchanged and is
/// kept as one opaque byte blob.
#[derive(Debug, Clone, PartialEq, Eq)]
pub enum VmArchState {
    X86_64(Vec<u8>),
    Aarch64(GicState),
}

/// Hypervisor-visible VM-wide state: the guest memory layout, the
/// architecture-specific block, and the reconstructed resource allocator
/// that this schema persists.
#[derive(Debug)]
pub struct VmState {
    pub memory: GuestMemoryState,
    pub arch_state: VmArchState,
    pub resource_allocator: ResourceAllocator,
}

/// Top-level envelope of the current schema.
#[derive(Debug)]
pub struct MicrovmState {
    pub vm_info: VmInfo,
    pub kvm_state: KvmState,
    pub vm_state: VmState,
    pub vcpu_states: Vec<VcpuState>,
    pub device_states: DevicesState,
}

} // verus!
