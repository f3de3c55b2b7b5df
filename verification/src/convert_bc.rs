//! Conversion from the middle schema to the current schema.
//!
//! Field policies applied here: the interrupt status is re-homed from the
//! virtio device state onto the MMIO transport (the two halves travel
//! together through a single conversion call per device); the device info's
//! interrupt number is renumbered to a zero-based GSI; the balloon gains a
//! fresh hinting state and six new counters; the metadata-service version is
//! re-typed into the richer record with the compatibility flag off; the
//! memory regions gain their type and plug state; the ACPI bundle promotes
//! the VM-generation-id to mandatory and synthesizes a VM clock on x86-64;
//! and the envelope gains the reconstructed resource allocator.

use crate::alloc_ffi::{addr_allocate_last, addr_base, addr_end, addr_points, addr_taken, aligned_fit};
use crate::arch::{irq_to_gsi, spec_irq_to_gsi, spec_system_mem_start, Arch};
use crate::resources::{spec_system_mem_end, ConvertError, ResourceAllocator};
use crate::schema_b;
use crate::schema_c;
use crate::schema_c::{
    HintingState, MmdsState, MmdsVersion, PciDevicesState, VMGenIDState, VmClockState,
    VMCLOCK_COUNTER_INVALID, VMCLOCK_MAGIC, VMCLOCK_SIZE, VMCLOCK_STATUS_UNKNOWN,
};
use vstd::prelude::*;

verus! {

/// The current-schema virtio device state obtained from a middle-schema
/// one: everything but the interrupt status, which moves to the transport.
pub open spec fn spec_virtio_c(old: schema_b::VirtioDeviceState) -> schema_c::VirtioDeviceState {
    schema_c::VirtioDeviceState {
        device_type: old.device_type,
        avail_features: old.avail_features,
        acked_features: old.acked_features,
        queues: old.queues,
        activated: old.activated,
    }
}

impl schema_c::VirtioDeviceState {
    /// Convert a middle-schema virtio device state.
    ///
    /// The interrupt status moves from the device onto the transport, so
    /// this returns the new state together with that status; the two halves
    /// are bound together at each caller.
    pub fn from(old_state: schema_b::VirtioDeviceState) -> (r: (schema_c::VirtioDeviceState, u32))
        ensures
            r.0 == spec_virtio_c(old_state),
            r.1 == old_state.interrupt_status,
    {
        let interrupt_status = old_state.interrupt_status;
        let new_state = schema_c::VirtioDeviceState {
            device_type: old_state.device_type,
            avail_features: old_state.avail_features,
            acked_features: old_state.acked_features,
            queues: old_state.queues,
            activated: old_state.activated,
        };
        (new_state, interrupt_status)
    }
}

/// The current-schema transport state obtained from a middle-schema one
/// plus the interrupt status re-homed from the device.
pub open spec fn spec_transport_c(
    old: schema_b::MmioTransportState,
    interrupt_status: u32,
) -> schema_c::MmioTransportState {
    schema_c::MmioTransportState {
        features_select: old.features_select,
        acked_features_select: old.acked_features_select,
        queue_select: old.queue_select,
        device_status: old.device_status,
        config_generation: old.config_generation,
        interrupt_status,
    }
}

impl schema_c::MmioTransportState {
    /// Convert a middle-schema transport state, injecting the interrupt
    /// status extracted from its device.
    pub fn from(old_state: schema_b::MmioTransportState, interrupt_status: u32) -> (r:
        schema_c::MmioTransportState)
        ensures
            r == spec_transport_c(old_state, interrupt_status),
    {
        schema_c::MmioTransportState {
            features_select: old_state.features_select,
            acked_features_select: old_state.acked_features_select,
            queue_select: old_state.queue_select,
            device_status: old_state.device_status,
            config_generation: old_state.config_generation,
            interrupt_status,
        }
    }
}

/// The current-schema device info obtained from a middle-schema one: the
/// interrupt number is renumbered to a zero-based GSI.
pub open spec fn spec_device_info_c(
    arch: Arch,
    old: schema_b::MMIODeviceInfo,
) -> schema_c::MMIODeviceInfo {
    schema_c::MMIODeviceInfo {
        addr: old.addr,
        len: old.len,
        gsi: match old.irq {
            Some(irq) => Some(spec_irq_to_gsi(arch, irq)),
            None => None,
        },
    }
}

impl schema_c::MMIODeviceInfo {
    /// Convert a middle-schema device info, renumbering its interrupt.
    pub fn from(arch: Arch, old_state: schema_b::MMIODeviceInfo) -> (r: schema_c::MMIODeviceInfo)
        ensures
            r == spec_device_info_c(arch, old_state),
    {
        let gsi: Option<u32> = match old_state.irq {
            Some(irq) => Some(irq_to_gsi(arch, irq)),
            None => None,
        };
        schema_c::MMIODeviceInfo { addr: old_state.addr, len: old_state.len, gsi }
    }
}

/// The current-schema virtio block state obtained from a middle-schema one.
pub open spec fn spec_virtio_block_c(
    old: schema_b::VirtioBlockState,
) -> schema_c::VirtioBlockState {
    schema_c::VirtioBlockState {
        id: old.id,
        partuuid: old.partuuid,
        cache_type: old.cache_type,
        root_device: old.root_device,
        disk_path: old.disk_path,
        virtio_state: spec_virtio_c(old.virtio_state),
        rate_limiter_state: old.rate_limiter_state,
        file_engine_type: old.file_engine_type,
    }
}

impl schema_c::VirtioBlockState {
    /// Convert a middle-schema virtio block state, extracting the interrupt
    /// status of its inner device.
    pub fn from(old_state: schema_b::VirtioBlockState) -> (r: (schema_c::VirtioBlockState, u32))
        ensures
            r.0 == spec_virtio_block_c(old_state),
            r.1 == old_state.virtio_state.interrupt_status,
    {
        let (virtio_state, interrupt_status) = schema_c::VirtioDeviceState::from(
            old_state.virtio_state,
        );
        let new = schema_c::VirtioBlockState {
            id: old_state.id,
            partuuid: old_state.partuuid,
            cache_type: old_state.cache_type,
            root_device: old_state.root_device,
            disk_path: old_state.disk_path,
            virtio_state,
            rate_limiter_state: old_state.rate_limiter_state,
            file_engine_type: old_state.file_engine_type,
        };
        (new, interrupt_status)
    }
}

/// The current-schema vhost-user block state obtained from a middle-schema
/// one.
pub open spec fn spec_vhost_user_block_c(
    old: schema_b::VhostUserBlockState,
) -> schema_c::VhostUserBlockState {
    schema_c::VhostUserBlockState {
        id: old.id,
        partuuid: old.partuuid,
        cache_type: old.cache_type,
        root_device: old.root_device,
        socket_path: old.socket_path,
        vu_acked_protocol_features: old.vu_acked_protocol_features,
        config_space: old.config_space,
        virtio_state: spec_virtio_c(old.virtio_state),
    }
}

impl schema_c::VhostUserBlockState {
    /// Convert a middle-schema vhost-user block state, extracting the
    /// interrupt status of its inner device.
    pub fn from(old_state: schema_b::VhostUserBlockState) -> (r: (
        schema_c::VhostUserBlockState,
        u32,
    ))
        ensures
            r.0 == spec_vhost_user_block_c(old_state),
            r.1 == old_state.virtio_state.interrupt_status,
    {
        let (virtio_state, interrupt_status) = schema_c::VirtioDeviceState::from(
            old_state.virtio_state,
        );
        let new = schema_c::VhostUserBlockState {
            id: old_state.id,
            partuuid: old_state.partuuid,
            cache_type: old_state.cache_type,
            root_device: old_state.root_device,
            socket_path: old_state.socket_path,
            vu_acked_protocol_features: old_state.vu_acked_protocol_features,
            config_space: old_state.config_space,
            virtio_state,
        };
        (new, interrupt_status)
    }
}

/// The current-schema block sum obtained from a middle-schema one: the
/// conversion dispatches on the arm and keeps it.
pub open spec fn spec_block_c(old: schema_b::BlockState) -> schema_c::BlockState {
    match old {
        schema_b::BlockState::Virtio(b) => schema_c::BlockState::Virtio(spec_virtio_block_c(b)),
        schema_b::BlockState::VhostUser(b) => schema_c::BlockState::VhostUser(
            spec_vhost_user_block_c(b),
        ),
    }
}

/// The interrupt status carried by a middle-schema block sum, whichever arm
/// holds.
pub open spec fn spec_block_int_status(old: schema_b::BlockState) -> u32 {
    match old {
        schema_b::BlockState::Virtio(b) => b.virtio_state.interrupt_status,
        schema_b::BlockState::VhostUser(b) => b.virtio_state.interrupt_status,
    }
}

impl schema_c::BlockState {
    /// Convert a middle-schema block sum, dispatching on its arm.
    pub fn from(old_state: schema_b::BlockState) -> (r: (schema_c::BlockState, u32))
        ensures
            r.0 == spec_block_c(old_state),
            r.1 == spec_block_int_status(old_state),
    {
        match old_state {
            schema_b::BlockState::Virtio(b) => {
                let (new, irq) = schema_c::VirtioBlockState::from(b);
                (schema_c::BlockState::Virtio(new), irq)
            },
            schema_b::BlockState::VhostUser(b) => {
                let (new, irq) = schema_c::VhostUserBlockState::from(b);
                (schema_c::BlockState::VhostUser(new), irq)
            },
        }
    }
}

/// The current-schema metadata-service version obtained from the middle
/// schema's.
pub open spec fn spec_mmds_version_c(old: schema_b::MmdsVersionState) -> MmdsVersion {
    match old {
        schema_b::MmdsVersionState::V1 => MmdsVersion::V1,
        schema_b::MmdsVersionState::V2 => MmdsVersion::V2,
    }
}

impl MmdsVersion {
    /// Convert the middle schema's metadata-service version.
    pub fn from(old_state: schema_b::MmdsVersionState) -> (r: MmdsVersion)
        ensures
            r == spec_mmds_version_c(old_state),
    {
        match old_state {
            schema_b::MmdsVersionState::V1 => MmdsVersion::V1,
            schema_b::MmdsVersionState::V2 => MmdsVersion::V2,
        }
    }
}

/// The current-schema network device state obtained from a middle-schema
/// one; the receive-buffer state is retained.
pub open spec fn spec_net_c(old: schema_b::NetState) -> schema_c::NetState {
    schema_c::NetState {
        id: old.id,
        tap_if_name: old.tap_if_name,
        rx_rate_limiter_state: old.rx_rate_limiter_state,
        tx_rate_limiter_state: old.tx_rate_limiter_state,
        mmds_ns: old.mmds_ns,
        config_space: old.config_space,
        virtio_state: spec_virtio_c(old.virtio_state),
        rx_buffers_state: old.rx_buffers_state,
    }
}

impl schema_c::NetState {
    /// Convert a middle-schema network device state, extracting the
    /// interrupt status of its inner device.
    pub fn from(old_state: schema_b::NetState) -> (r: (schema_c::NetState, u32))
        ensures
            r.0 == spec_net_c(old_state),
            r.1 == old_state.virtio_state.interrupt_status,
    {
        let (virtio_state, interrupt_status) = schema_c::VirtioDeviceState::from(
            old_state.virtio_state,
        );
        let new = schema_c::NetState {
            id: old_state.id,
            tap_if_name: old_state.tap_if_name,
            rx_rate_limiter_state: old_state.rx_rate_limiter_state,
            tx_rate_limiter_state: old_state.tx_rate_limiter_state,
            mmds_ns: old_state.mmds_ns,
            config_space: old_state.config_space,
            virtio_state,
            rx_buffers_state: old_state.rx_buffers_state,
        };
        (new, interrupt_status)
    }
}

/// The current-schema vsock device state obtained from a middle-schema one.
pub open spec fn spec_vsock_c(old: schema_b::VsockState) -> schema_c::VsockState {
    schema_c::VsockState {
        backend: old.backend,
        frontend: schema_c::VsockFrontendState {
            cid: old.frontend.cid,
            virtio_state: spec_virtio_c(old.frontend.virtio_state),
        },
    }
}

impl schema_c::VsockState {
    /// Convert a middle-schema vsock device state, extracting the interrupt
    /// status of its inner device.
    pub fn from(old_state: schema_b::VsockState) -> (r: (schema_c::VsockState, u32))
        ensures
            r.0 == spec_vsock_c(old_state),
            r.1 == old_state.frontend.virtio_state.interrupt_status,
    {
        let (virtio_state, interrupt_status) = schema_c::VirtioDeviceState::from(
            old_state.frontend.virtio_state,
        );
        let new = schema_c::VsockState {
            backend: old_state.backend,
            frontend: schema_c::VsockFrontendState { cid: old_state.frontend.cid, virtio_state },
        };
        (new, interrupt_status)
    }
}

/// The current-schema balloon statistics obtained from the middle schema's
/// ten counters: the six counters the older monitor did not report are
/// absent.
pub open spec fn spec_balloon_stats_c(
    old: schema_b::BalloonStatsState,
) -> schema_c::BalloonStatsState {
    schema_c::BalloonStatsState {
        swap_in: old.swap_in,
        swap_out: old.swap_out,
        major_faults: old.major_faults,
        minor_faults: old.minor_faults,
        free_memory: old.free_memory,
        total_memory: old.total_memory,
        available_memory: old.available_memory,
        disk_caches: old.disk_caches,
        hugetlb_allocations: old.hugetlb_allocations,
        hugetlb_failures: old.hugetlb_failures,
        oom_kill: None,
        alloc_stall: None,
        async_scan: None,
        direct_scan: None,
        async_reclaim: None,
        direct_reclaim: None,
    }
}

impl schema_c::BalloonStatsState {
    /// Convert middle-schema balloon statistics, defaulting the six new
    /// counters to absent.
    pub fn from(old_state: schema_b::BalloonStatsState) -> (r: schema_c::BalloonStatsState)
        ensures
            r == spec_balloon_stats_c(old_state),
    {
        schema_c::BalloonStatsState {
            swap_in: old_state.swap_in,
            swap_out: old_state.swap_out,
            major_faults: old_state.major_faults,
            minor_faults: old_state.minor_faults,
            free_memory: old_state.free_memory,
            total_memory: old_state.total_memory,
            available_memory: old_state.available_memory,
            disk_caches: old_state.disk_caches,
            hugetlb_allocations: old_state.hugetlb_allocations,
            hugetlb_failures: old_state.hugetlb_failures,
            oom_kill: None,
            alloc_stall: None,
            async_scan: None,
            direct_scan: None,
            async_reclaim: None,
            direct_reclaim: None,
        }
    }
}

/// The fresh free-page-hinting state the conversion synthesizes.
pub open spec fn spec_fresh_hinting() -> HintingState {
    HintingState { host_cmd: 0, last_cmd_id: 0, guest_cmd: None, acknowledge_on_finish: true }
}

/// The current-schema balloon state obtained from a middle-schema one: the
/// statistics gain their new counters and a fresh hinting state is
/// synthesized.
pub open spec fn spec_balloon_c(old: schema_b::BalloonState) -> schema_c::BalloonState {
    schema_c::BalloonState {
        stats_polling_interval_s: old.stats_polling_interval_s,
        stats_desc_index: old.stats_desc_index,
        latest_stats: spec_balloon_stats_c(old.latest_stats),
        config_space: old.config_space,
        hinting_state: spec_fresh_hinting(),
        virtio_state: spec_virtio_c(old.virtio_state),
    }
}

impl schema_c::BalloonState {
    /// Convert a middle-schema balloon state, extracting the interrupt
    /// status of its inner device.
    pub fn from(old_state: schema_b::BalloonState) -> (r: (schema_c::BalloonState, u32))
        ensures
            r.0 == spec_balloon_c(old_state),
            r.1 == old_state.virtio_state.interrupt_status,
    {
        let (virtio_state, interrupt_status) = schema_c::VirtioDeviceState::from(
            old_state.virtio_state,
        );
        let new = schema_c::BalloonState {
            stats_polling_interval_s: old_state.stats_polling_interval_s,
            stats_desc_index: old_state.stats_desc_index,
            latest_stats: schema_c::BalloonStatsState::from(old_state.latest_stats),
            config_space: old_state.config_space,
            hinting_state: HintingState {
                host_cmd: 0,
                last_cmd_id: 0,
                guest_cmd: None,
                acknowledge_on_finish: true,
            },
            virtio_state,
        };
        (new, interrupt_status)
    }
}

/// The current-schema entropy device state obtained from a middle-schema
/// one.
pub open spec fn spec_entropy_c(old: schema_b::EntropyState) -> schema_c::EntropyState {
    schema_c::EntropyState {
        virtio_state: spec_virtio_c(old.virtio_state),
        rate_limiter_state: old.rate_limiter_state,
    }
}

impl schema_c::EntropyState {
    /// Convert a middle-schema entropy device state, extracting the
    /// interrupt status of its inner device.
    pub fn from(old_state: schema_b::EntropyState) -> (r: (schema_c::EntropyState, u32))
        ensures
            r.0 == spec_entropy_c(old_state),
            r.1 == old_state.virtio_state.interrupt_status,
    {
        let (virtio_state, interrupt_status) = schema_c::VirtioDeviceState::from(
            old_state.virtio_state,
        );
        let new = schema_c::EntropyState {
            virtio_state,
            rate_limiter_state: old_state.rate_limiter_state,
        };
        (new, interrupt_status)
    }
}

/// The current-schema connected block device obtained from a middle-schema
/// one: the device's interrupt status re-homes onto the transport, and the
/// device info's interrupt is renumbered.
pub open spec fn spec_connected_block_c(arch: Arch, old: schema_b::ConnectedBlockState)
    -> schema_c::ConnectedDeviceState<schema_c::BlockState> {
    schema_c::ConnectedDeviceState {
        device_id: old.device_id,
        device_state: spec_block_c(old.device_state),
        transport_state: spec_transport_c(
            old.transport_state,
            spec_block_int_status(old.device_state),
        ),
        device_info: spec_device_info_c(arch, old.device_info),
    }
}

/// Convert a middle-schema connected block device: the two halves of the
/// device conversion are bound together here.
pub fn convert_connected_block(arch: Arch, old: schema_b::ConnectedBlockState) -> (r:
    schema_c::ConnectedDeviceState<schema_c::BlockState>)
    ensures
        r == spec_connected_block_c(arch, old),
{
    let (device_state, interrupt_status) = schema_c::BlockState::from(old.device_state);
    let transport_state = schema_c::MmioTransportState::from(old.transport_state, interrupt_status);
    schema_c::ConnectedDeviceState {
        device_id: old.device_id,
        device_state,
        transport_state,
        device_info: schema_c::MMIODeviceInfo::from(arch, old.device_info),
    }
}

/// The current-schema connected network device obtained from a
/// middle-schema one.
pub open spec fn spec_connected_net_c(arch: Arch, old: schema_b::ConnectedNetState)
    -> schema_c::ConnectedDeviceState<schema_c::NetState> {
    schema_c::ConnectedDeviceState {
        device_id: old.device_id,
        device_state: spec_net_c(old.device_state),
        transport_state: spec_transport_c(
            old.transport_state,
            old.device_state.virtio_state.interrupt_status,
        ),
        device_info: spec_device_info_c(arch, old.device_info),
    }
}

/// Convert a middle-schema connected network device.
pub fn convert_connected_net(arch: Arch, old: schema_b::ConnectedNetState) -> (r:
    schema_c::ConnectedDeviceState<schema_c::NetState>)
    ensures
        r == spec_connected_net_c(arch, old),
{
    let (device_state, interrupt_status) = schema_c::NetState::from(old.device_state);
    let transport_state = schema_c::MmioTransportState::from(old.transport_state, interrupt_status);
    schema_c::ConnectedDeviceState {
        device_id: old.device_id,
        device_state,
        transport_state,
        device_info: schema_c::MMIODeviceInfo::from(arch, old.device_info),
    }
}

/// The current-schema connected vsock device obtained from a middle-schema
/// one.
pub open spec fn spec_connected_vsock_c(arch: Arch, old: schema_b::ConnectedVsockState)
    -> schema_c::ConnectedDeviceState<schema_c::VsockState> {
    schema_c::ConnectedDeviceState {
        device_id: old.device_id,
        device_state: spec_vsock_c(old.device_state),
        transport_state: spec_transport_c(
            old.transport_state,
            old.device_state.frontend.virtio_state.interrupt_status,
        ),
        device_info: spec_device_info_c(arch, old.device_info),
    }
}

/// Convert a middle-schema connected vsock device.
pub fn convert_connected_vsock(arch: Arch, old: schema_b::ConnectedVsockState) -> (r:
    schema_c::ConnectedDeviceState<schema_c::VsockState>)
    ensures
        r == spec_connected_vsock_c(arch, old),
{
    let (device_state, interrupt_status) = schema_c::VsockState::from(old.device_state);
    let transport_state = schema_c::MmioTransportState::from(old.transport_state, interrupt_status);
    schema_c::ConnectedDeviceState {
        device_id: old.device_id,
        device_state,
        transport_state,
        device_info: schema_c::MMIODeviceInfo::from(arch, old.device_info),
    }
}

/// The current-schema connected balloon device obtained from a
/// middle-schema one.
pub open spec fn spec_connected_balloon_c(arch: Arch, old: schema_b::ConnectedBalloonState)
    -> schema_c::ConnectedDeviceState<schema_c::BalloonState> {
    schema_c::ConnectedDeviceState {
        device_id: old.device_id,
        device_state: spec_balloon_c(old.device_state),
        transport_state: spec_transport_c(
            old.transport_state,
            old.device_state.virtio_state.interrupt_status,
        ),
        device_info: spec_device_info_c(arch, old.device_info),
    }
}

/// Convert a middle-schema connected balloon device.
pub fn convert_connected_balloon(arch: Arch, old: schema_b::ConnectedBalloonState) -> (r:
    schema_c::ConnectedDeviceState<schema_c::BalloonState>)
    ensures
        r == spec_connected_balloon_c(arch, old),
{
    let (device_state, interrupt_status) = schema_c::BalloonState::from(old.device_state);
    let transport_state = schema_c::MmioTransportState::from(old.transport_state, interrupt_status);
    schema_c::ConnectedDeviceState {
        device_id: old.device_id,
        device_state,
        transport_state,
        device_info: schema_c::MMIODeviceInfo::from(arch, old.device_info),
    }
}

/// The current-schema connected entropy device obtained from a
/// middle-schema one.
pub open spec fn spec_connected_entropy_c(arch: Arch, old: schema_b::ConnectedEntropyState)
    -> schema_c::ConnectedDeviceState<schema_c::EntropyState> {
    schema_c::ConnectedDeviceState {
        device_id: old.device_id,
        device_state: spec_entropy_c(old.device_state),
        transport_state: spec_transport_c(
            old.transport_state,
            old.device_state.virtio_state.interrupt_status,
        ),
        device_info: spec_device_info_c(arch, old.device_info),
    }
}

/// Convert a middle-schema connected entropy device.
pub fn convert_connected_entropy(arch: Arch, old: schema_b::ConnectedEntropyState) -> (r:
    schema_c::ConnectedDeviceState<schema_c::EntropyState>)
    ensures
        r == spec_connected_entropy_c(arch, old),
{
    let (device_state, interrupt_status) = schema_c::EntropyState::from(old.device_state);
    let transport_state = schema_c::MmioTransportState::from(old.transport_state, interrupt_status);
    schema_c::ConnectedDeviceState {
        device_id: old.device_id,
        device_state,
        transport_state,
        device_info: schema_c::MMIODeviceInfo::from(arch, old.device_info),
    }
}

/// The current-schema connected legacy device obtained from a middle-schema
/// one.
pub open spec fn spec_connected_legacy_c(arch: Arch, old: schema_b::ConnectedLegacyState)
    -> schema_c::ConnectedLegacyState {
    schema_c::ConnectedLegacyState {
        type_: old.type_,
        device_info: spec_device_info_c(arch, old.device_info),
    }
}

impl schema_c::ConnectedLegacyState {
    /// Convert a middle-schema connected legacy device.
    pub fn from(arch: Arch, old_state: schema_b::ConnectedLegacyState) -> (r:
        schema_c::ConnectedLegacyState)
        ensures
            r == spec_connected_legacy_c(arch, old_state),
    {
        schema_c::ConnectedLegacyState {
            type_: old_state.type_,
            device_info: schema_c::MMIODeviceInfo::from(arch, old_state.device_info),
        }
    }
}

/// The current-schema device bundle relates to the middle-schema one: every
/// wrapper is converted, the metadata-service record gains its
/// compatibility flag switched off, and the new persistent-memory and
/// memory-hotplug slots are empty.
pub open spec fn device_states_c_from_b(
    arch: Arch,
    r: schema_c::DeviceStates,
    old: schema_b::DeviceStates,
) -> bool {
    &&& r.legacy_devices@ == old.legacy_devices@.map_values(
        |d: schema_b::ConnectedLegacyState| spec_connected_legacy_c(arch, d),
    )
    &&& r.block_devices@ == old.block_devices@.map_values(
        |d: schema_b::ConnectedBlockState| spec_connected_block_c(arch, d),
    )
    &&& r.net_devices@ == old.net_devices@.map_values(
        |d: schema_b::ConnectedNetState| spec_connected_net_c(arch, d),
    )
    &&& r.vsock_device == match old.vsock_device {
        Some(d) => Some(spec_connected_vsock_c(arch, d)),
        None => None,
    }
    &&& r.balloon_device == match old.balloon_device {
        Some(d) => Some(spec_connected_balloon_c(arch, d)),
        None => None,
    }
    &&& r.mmds == match old.mmds_version {
        Some(v) => Some(MmdsState { version: spec_mmds_version_c(v), imds_compat: false }),
        None => None,
    }
    &&& r.entropy_device == match old.entropy_device {
        Some(d) => Some(spec_connected_entropy_c(arch, d)),
        None => None,
    }
    &&& r.pmem_devices@ == Seq::<schema_c::PmemState>::empty()
    &&& r.memory_device is None
}

impl schema_c::DeviceStates {
    /// Convert the middle-schema device bundle into the current layout.
    pub fn from(arch: Arch, old_state: schema_b::DeviceStates) -> (r: schema_c::DeviceStates)
        ensures
            device_states_c_from_b(arch, r, old_state),
    {
        let schema_b::DeviceStates {
            legacy_devices,
            block_devices,
            net_devices,
            vsock_device,
            balloon_device,
            mmds_version,
            entropy_device,
        } = old_state;

        let ghost legacy_orig = legacy_devices@;
        let mut legacy_in = legacy_devices;
        let mut legacy_out: Vec<schema_c::ConnectedLegacyState> = Vec::new();
        while legacy_in.len() > 0
            invariant
                legacy_out@.len() + legacy_in@.len() == legacy_orig.len(),
                legacy_in@ == legacy_orig.subrange(
                    legacy_out@.len() as int,
                    legacy_orig.len() as int,
                ),
                legacy_out@ == legacy_orig.subrange(0, legacy_out@.len() as int).map_values(
                    |d: schema_b::ConnectedLegacyState| spec_connected_legacy_c(arch, d),
                ),
            decreases legacy_in@.len(),
        {
            let ghost k = legacy_out@.len() as int;
            let d = legacy_in.remove(0);
            proof {
                assert(d == legacy_orig[k]);
                assert(legacy_in@ =~= legacy_orig.subrange(k + 1, legacy_orig.len() as int));
            }
            legacy_out.push(schema_c::ConnectedLegacyState::from(arch, d));
            proof {
                assert(legacy_out@ =~= legacy_orig.subrange(0, k + 1).map_values(
                    |d: schema_b::ConnectedLegacyState| spec_connected_legacy_c(arch, d),
                ));
            }
        }
        proof {
            assert(legacy_orig.subrange(0, legacy_orig.len() as int) =~= legacy_orig);
        }

        let ghost block_orig = block_devices@;
        let mut block_in = block_devices;
        let mut block_out: Vec<schema_c::ConnectedDeviceState<schema_c::BlockState>> = Vec::new();
        while block_in.len() > 0
            invariant
                block_out@.len() + block_in@.len() == block_orig.len(),
                block_in@ == block_orig.subrange(block_out@.len() as int, block_orig.len() as int),
                block_out@ == block_orig.subrange(0, block_out@.len() as int).map_values(
                    |d: schema_b::ConnectedBlockState| spec_connected_block_c(arch, d),
                ),
            decreases block_in@.len(),
        {
            let ghost k = block_out@.len() as int;
            let d = block_in.remove(0);
            proof {
                assert(d == block_orig[k]);
                assert(block_in@ =~= block_orig.subrange(k + 1, block_orig.len() as int));
            }
            block_out.push(convert_connected_block(arch, d));
            proof {
                assert(block_out@ =~= block_orig.subrange(0, k + 1).map_values(
                    |d: schema_b::ConnectedBlockState| spec_connected_block_c(arch, d),
                ));
            }
        }
        proof {
            assert(block_orig.subrange(0, block_orig.len() as int) =~= block_orig);
        }

        let ghost net_orig = net_devices@;
        let mut net_in = net_devices;
        let mut net_out: Vec<schema_c::ConnectedDeviceState<schema_c::NetState>> = Vec::new();
        while net_in.len() > 0
            invariant
                net_out@.len() + net_in@.len() == net_orig.len(),
                net_in@ == net_orig.subrange(net_out@.len() as int, net_orig.len() as int),
                net_out@ == net_orig.subrange(0, net_out@.len() as int).map_values(
                    |d: schema_b::ConnectedNetState| spec_connected_net_c(arch, d),
                ),
            decreases net_in@.len(),
        {
            let ghost k = net_out@.len() as int;
            let d = net_in.remove(0);
            proof {
                assert(d == net_orig[k]);
                assert(net_in@ =~= net_orig.subrange(k + 1, net_orig.len() as int));
            }
            net_out.push(convert_connected_net(arch, d));
            proof {
                assert(net_out@ =~= net_orig.subrange(0, k + 1).map_values(
                    |d: schema_b::ConnectedNetState| spec_connected_net_c(arch, d),
                ));
            }
        }
        proof {
            assert(net_orig.subrange(0, net_orig.len() as int) =~= net_orig);
        }

        let vsock_out: Option<schema_c::ConnectedDeviceState<schema_c::VsockState>> =
            match vsock_device {
            Some(d) => Some(convert_connected_vsock(arch, d)),
            None => None,
        };
        let balloon_out: Option<schema_c::ConnectedDeviceState<schema_c::BalloonState>> =
            match balloon_device {
            Some(d) => Some(convert_connected_balloon(arch, d)),
            None => None,
        };
        let entropy_out: Option<schema_c::ConnectedDeviceState<schema_c::EntropyState>> =
            match entropy_device {
            Some(d) => Some(convert_connected_entropy(arch, d)),
            None => None,
        };
        let mmds_out: Option<MmdsState> = match mmds_version {
            Some(v) => Some(
                MmdsState { version: MmdsVersion::from(v), imds_compat: false },
            ),
            None => None,
        };

        schema_c::DeviceStates {
            legacy_devices: legacy_out,
            block_devices: block_out,
            net_devices: net_out,
            vsock_device: vsock_out,
            balloon_device: balloon_out,
            mmds: mmds_out,
            entropy_device: entropy_out,
            pmem_devices: Vec::new(),
            memory_device: None,
        }
    }
}

/// A current-schema memory region relates to a middle-schema one: the base
/// and size pass through, the region is regular DRAM, and its single slot
/// is plugged.
pub open spec fn region_c_from_b(
    r: schema_c::GuestMemoryRegionState,
    old: schema_b::GuestMemoryRegionState,
) -> bool {
    &&& r.base_address == old.base_address
    &&& r.size == old.size
    &&& r.region_type == schema_c::GuestRegionType::Dram
    &&& r.plugged@ == seq![true]
}

/// The current-schema memory layout relates to the middle-schema one,
/// region by region.
pub open spec fn memory_c_from_b(
    r: schema_c::GuestMemoryState,
    old: schema_b::GuestMemoryState,
) -> bool {
    &&& r.regions@.len() == old.regions@.len()
    &&& forall|j: int|
        0 <= j < old.regions@.len() ==> region_c_from_b(#[trigger] r.regions@[j], old.regions@[j])
}

impl schema_c::GuestMemoryRegionState {
    /// Convert a middle-schema memory region: older snapshots have no
    /// memory hotplug, so every region is DRAM with one plugged slot.
    pub fn from(old_state: schema_b::GuestMemoryRegionState) -> (r:
        schema_c::GuestMemoryRegionState)
        ensures
            region_c_from_b(r, old_state),
    {
        let mut plugged: Vec<bool> = Vec::new();
        plugged.push(true);
        proof {
            assert(plugged@ =~= seq![true]);
        }
        schema_c::GuestMemoryRegionState {
            base_address: old_state.base_address,
            size: old_state.size,
            region_type: schema_c::GuestRegionType::Dram,
            plugged,
        }
    }
}

impl schema_c::GuestMemoryState {
    /// Convert the middle-schema memory layout region by region.
    pub fn from(old_state: schema_b::GuestMemoryState) -> (r: schema_c::GuestMemoryState)
        ensures
            memory_c_from_b(r, old_state),
    {
        let mut regions: Vec<schema_c::GuestMemoryRegionState> = Vec::new();
        let n = old_state.regions.len();
        let mut i: usize = 0;
        while i < n
            invariant
                i <= n,
                n == old_state.regions@.len(),
                regions@.len() == i,
                forall|j: int|
                    0 <= j < i ==> region_c_from_b(#[trigger] regions@[j], old_state.regions@[j]),
            decreases n - i,
        {
            regions.push(schema_c::GuestMemoryRegionState::from(old_state.regions[i]));
            i = i + 1;
        }
        schema_c::GuestMemoryState { regions }
    }
}

/// The current-schema interrupt-controller state obtained from the middle
/// schema's: the interrupt-translation-service block stays absent, since
/// the older monitor had no support for it.
pub open spec fn spec_gic_c(old: schema_b::GicState) -> schema_c::GicState {
    schema_c::GicState {
        dist: old.dist,
        gic_vcpu_states: old.gic_vcpu_states,
        its_state: None,
    }
}

impl schema_c::GicState {
    /// Convert a middle-schema interrupt-controller state.
    pub fn from(old_state: schema_b::GicState) -> (r: schema_c::GicState)
        ensures
            r == spec_gic_c(old_state),
    {
        schema_c::GicState {
            dist: old_state.dist,
            gic_vcpu_states: old_state.gic_vcpu_states,
            its_state: None,
        }
    }
}

/// The current-schema vCPU state obtained from a middle-schema one: the
/// x86-64 record passes through; the aarch64 record gains an absent
/// paravirt-time address.
pub open spec fn spec_vcpu_c(old: schema_b::VcpuState) -> schema_c::VcpuState {
    match old {
        schema_b::VcpuState::X86_64(x) => schema_c::VcpuState::X86_64(x),
        schema_b::VcpuState::Aarch64(a) => schema_c::VcpuState::Aarch64(
            schema_c::VcpuAarch64State {
                mp_state: a.mp_state,
                regs: a.regs,
                mpidr: a.mpidr,
                kvi: a.kvi,
                pvtime_ipa: None,
            },
        ),
    }
}

impl schema_c::VcpuState {
    /// Convert a middle-schema vCPU state.
    pub fn from(old_state: schema_b::VcpuState) -> (r: schema_c::VcpuState)
        ensures
            r == spec_vcpu_c(old_state),
    {
        match old_state {
            schema_b::VcpuState::X86_64(x) => schema_c::VcpuState::X86_64(x),
            schema_b::VcpuState::Aarch64(a) => schema_c::VcpuState::Aarch64(
                schema_c::VcpuAarch64State {
                    mp_state: a.mp_state,
                    regs: a.regs,
                    mpidr: a.mpidr,
                    kvi: a.kvi,
                    pvtime_ipa: None,
                },
            ),
        }
    }
}

/// A slot for the synthesized VM clock could start at `b` inside the
/// system-memory window `[base, end]` with the given addresses taken.
pub open spec fn spec_vmclock_fit(taken: Set<u64>, base: u64, end: u64, b: u64) -> bool {
    aligned_fit(taken, base, end, VMCLOCK_SIZE as u64, VMCLOCK_SIZE as u64, b)
}

/// The current-schema ACPI bundle relates to the middle-schema one: the
/// VM-generation-id is promoted to mandatory with its interrupt renumbered;
/// on x86-64 a VM clock is synthesized with fixed literals at the highest
/// free aligned address of the system-memory window (whose taken addresses
/// are `taken0` and whose bounds are `base` and `end`); on aarch64 no VM
/// clock exists.
pub open spec fn acpi_c_from_b(
    arch: Arch,
    r: schema_c::ACPIDeviceManagerState,
    s: schema_b::ACPIDeviceManagerState,
    taken0: Set<u64>,
    base: u64,
    end: u64,
) -> bool {
    match s.vmgenid {
        Some(v) => {
            &&& r.vmgenid == (VMGenIDState { gsi: spec_irq_to_gsi(arch, v.gsi), addr: v.addr })
            &&& match arch {
                Arch::Aarch64 => r.vmclock is None,
                Arch::X86_64 => match r.vmclock {
                    Some(vc) => {
                        &&& vc.magic == VMCLOCK_MAGIC
                        &&& vc.size == VMCLOCK_SIZE
                        &&& vc.version == 1
                        &&& vc.clock_status == VMCLOCK_STATUS_UNKNOWN
                        &&& vc.counter_id == VMCLOCK_COUNTER_INVALID
                        &&& spec_vmclock_fit(taken0, base, end, vc.guest_address)
                        &&& forall|b: u64|
                            spec_vmclock_fit(taken0, base, end, b) ==> b <= vc.guest_address
                    },
                    None => false,
                },
            }
        },
        None => false,
    }
}

/// The VM clock's size is a power of two, so it is a valid alignment.
proof fn lemma_vmclock_align_pow2()
    ensures
        crate::alloc_ffi::is_power_of_two(VMCLOCK_SIZE as int),
{
    assert(crate::alloc_ffi::is_power_of_two(1int));
    assert(crate::alloc_ffi::is_power_of_two(2int));
    assert(crate::alloc_ffi::is_power_of_two(4int));
    assert(crate::alloc_ffi::is_power_of_two(8int));
    assert(crate::alloc_ffi::is_power_of_two(16int));
    assert(crate::alloc_ffi::is_power_of_two(32int));
    assert(crate::alloc_ffi::is_power_of_two(64int));
    assert(crate::alloc_ffi::is_power_of_two(128int));
    assert(crate::alloc_ffi::is_power_of_two(256int));
    assert(crate::alloc_ffi::is_power_of_two(512int));
    assert(crate::alloc_ffi::is_power_of_two(1024int));
    assert(crate::alloc_ffi::is_power_of_two(2048int));
    assert(crate::alloc_ffi::is_power_of_two(4096int));
}

impl schema_c::ACPIDeviceManagerState {
    /// Convert the middle-schema ACPI bundle.
    ///
    /// The VM-generation-id is promoted to mandatory: its absence fails the
    /// conversion.  On x86-64 the VM clock is synthesized and its guest
    /// address allocated from the system-memory window with the last-match
    /// policy, so that it lands at the highest free aligned address, below
    /// the VM-generation-id's already-reserved slot.
    pub fn from(
        arch: Arch,
        s: schema_b::ACPIDeviceManagerState,
        resource_allocator: &mut ResourceAllocator,
    ) -> (r: Result<schema_c::ACPIDeviceManagerState, ConvertError>)
        ensures
            final(resource_allocator).gsi_legacy_allocator == old(resource_allocator).gsi_legacy_allocator,
            final(resource_allocator).gsi_msi_allocator == old(resource_allocator).gsi_msi_allocator,
            final(resource_allocator).mmio32_memory == old(resource_allocator).mmio32_memory,
            final(resource_allocator).mmio64_memory == old(resource_allocator).mmio64_memory,
            final(resource_allocator).past_mmio64_memory == old(resource_allocator).past_mmio64_memory,
            addr_base(final(resource_allocator).system_memory) == addr_base(
                old(resource_allocator).system_memory,
            ),
            addr_end(final(resource_allocator).system_memory) == addr_end(
                old(resource_allocator).system_memory,
            ),
            s.vmgenid is None ==> (r is Err && r->Err_0 == ConvertError::MissingVmGenId
                && *final(resource_allocator) == *old(resource_allocator)),
            s.vmgenid is Some && arch == Arch::Aarch64 ==> (r is Ok && *final(resource_allocator)
                == *old(resource_allocator)),
            s.vmgenid is Some && arch == Arch::X86_64 && addr_base(
                old(resource_allocator).system_memory,
            ) >= 1 && addr_end(old(resource_allocator).system_memory) < u64::MAX ==> ((r is Ok)
                == (exists|b: u64|
                spec_vmclock_fit(
                    addr_taken(old(resource_allocator).system_memory),
                    addr_base(old(resource_allocator).system_memory),
                    addr_end(old(resource_allocator).system_memory),
                    b,
                ))),
            s.vmgenid is Some && r is Ok ==> acpi_c_from_b(
                arch,
                r->Ok_0,
                s,
                addr_taken(old(resource_allocator).system_memory),
                addr_base(old(resource_allocator).system_memory),
                addr_end(old(resource_allocator).system_memory),
            ),
            r is Ok && arch == Arch::X86_64 ==> addr_taken(final(resource_allocator).system_memory)
                == addr_taken(old(resource_allocator).system_memory).union(
                addr_points(
                    r->Ok_0.vmclock->Some_0.guest_address,
                    (r->Ok_0.vmclock->Some_0.guest_address + VMCLOCK_SIZE - 1) as u64,
                ),
            ),
            r is Err ==> addr_taken(final(resource_allocator).system_memory) == addr_taken(
                old(resource_allocator).system_memory,
            ),
            s.vmgenid is Some && addr_end(old(resource_allocator).system_memory) < u64::MAX
                && r is Err ==> r->Err_0 == ConvertError::Allocator(
                crate::alloc_ffi::AllocError::ResourceNotAvailable,
            ),
    {
        let vmgenid = match s.vmgenid {
            Some(v) => v,
            None => {
                return Err(ConvertError::MissingVmGenId);
            },
        };
        let new_genid = VMGenIDState { gsi: irq_to_gsi(arch, vmgenid.gsi), addr: vmgenid.addr };
        match arch {
            Arch::Aarch64 => Ok(
                schema_c::ACPIDeviceManagerState { vmgenid: new_genid, vmclock: None },
            ),
            Arch::X86_64 => {
                proof {
                    lemma_vmclock_align_pow2();
                }
                let res = addr_allocate_last(
                    &mut resource_allocator.system_memory,
                    VMCLOCK_SIZE as u64,
                    VMCLOCK_SIZE as u64,
                );
                proof {
                    let taken0 = addr_taken(old(resource_allocator).system_memory);
                    let b0 = addr_base(old(resource_allocator).system_memory);
                    let e0 = addr_end(old(resource_allocator).system_memory);
                    let sz = VMCLOCK_SIZE as u64;
                    if exists|b: u64| spec_vmclock_fit(taken0, b0, e0, b) {
                        let w = choose|b: u64| spec_vmclock_fit(taken0, b0, e0, b);
                        assert(aligned_fit(taken0, b0, e0, sz, sz, w));
                    }
                    if exists|b: u64| aligned_fit(taken0, b0, e0, sz, sz, b) {
                        let w = choose|b: u64| aligned_fit(taken0, b0, e0, sz, sz, b);
                        assert(spec_vmclock_fit(taken0, b0, e0, w));
                    }
                }
                let slot = match res {
                    Ok(rr) => rr,
                    Err(e) => {
                        return Err(ConvertError::Allocator(e));
                    },
                };
                let vmclock = VmClockState {
                    guest_address: slot.0,
                    magic: VMCLOCK_MAGIC,
                    size: VMCLOCK_SIZE,
                    version: 1,
                    clock_status: VMCLOCK_STATUS_UNKNOWN,
                    counter_id: VMCLOCK_COUNTER_INVALID,
                };
                Ok(
                    schema_c::ACPIDeviceManagerState {
                        vmgenid: new_genid,
                        vmclock: Some(vmclock),
                    },
                )
            },
        }
    }
}

/// The current-schema VM architecture block relates to the middle-schema
/// one: the x86-64 blob passes through; the aarch64 interrupt controller is
/// converted.
pub open spec fn vm_arch_c_from_b(r: schema_c::VmArchState, old: schema_b::VmArchState) -> bool {
    match (r, old) {
        (schema_c::VmArchState::X86_64(rx), schema_b::VmArchState::X86_64(ox)) => rx == ox,
        (schema_c::VmArchState::Aarch64(rg), schema_b::VmArchState::Aarch64(og)) => rg
            == spec_gic_c(og),
        _ => false,
    }
}

impl schema_c::VmState {
    /// Assemble the current-schema VM state from the converted memory
    /// layout and the now fully populated resource allocator.
    pub fn from(old_state: schema_b::VmState, resource_allocator: ResourceAllocator) -> (r:
        schema_c::VmState)
        ensures
            memory_c_from_b(r.memory, old_state.memory),
            vm_arch_c_from_b(r.arch_state, old_state.arch_state),
            r.resource_allocator == resource_allocator,
    {
        let arch_state: schema_c::VmArchState = match old_state.arch_state {
            schema_b::VmArchState::X86_64(x) => schema_c::VmArchState::X86_64(x),
            schema_b::VmArchState::Aarch64(g) => schema_c::VmArchState::Aarch64(
                schema_c::GicState::from(g),
            ),
        };
        schema_c::VmState {
            memory: schema_c::GuestMemoryState::from(old_state.memory),
            arch_state,
            resource_allocator,
        }
    }
}

impl schema_b::MicrovmState {
    /// A middle-schema envelope is consistently of one architecture: its
    /// VM state, every vCPU, and (on x86-64, which has no legacy MMIO
    /// devices) an empty legacy-device list all match it.
    pub open spec fn wf(self, arch: Arch) -> bool {
        &&& match self.vm_state.arch_state {
            schema_b::VmArchState::X86_64(_) => arch == Arch::X86_64,
            schema_b::VmArchState::Aarch64(_) => arch == Arch::Aarch64,
        }
        &&& forall|j: int|
            0 <= j < self.vcpu_states@.len() ==> (match #[trigger] self.vcpu_states@[j] {
                schema_b::VcpuState::X86_64(_) => arch == Arch::X86_64,
                schema_b::VcpuState::Aarch64(_) => arch == Arch::Aarch64,
            })
        &&& (arch == Arch::X86_64 ==> self.device_states.legacy_devices@.len() == 0)
    }
}

/// The set of addresses the VM-generation-id's slot occupies (empty when
/// the record is absent).
pub open spec fn spec_genid_points(acpi: schema_b::ACPIDeviceManagerState) -> Set<u64> {
    match acpi.vmgenid {
        Some(v) => addr_points(v.addr, (v.addr + crate::arch::VMGENID_MEM_SIZE - 1) as u64),
        None => Set::<u64>::empty(),
    }
}

/// Whether converting a middle-schema envelope to the current schema
/// succeeds: the allocator reconstruction must succeed, the
/// VM-generation-id must be present, and on x86-64 the system-memory
/// window must still have room for the VM clock.
pub open spec fn spec_convert_b_ok(arch: Arch, old: schema_b::MicrovmState) -> bool {
    &&& crate::resources::spec_reconstruct_ok(arch, old.device_states, old.acpi_dev_state)
    &&& old.acpi_dev_state.vmgenid is Some
    &&& (arch == Arch::X86_64 ==> exists|b: u64|
        spec_vmclock_fit(
            spec_genid_points(old.acpi_dev_state),
            spec_system_mem_start(arch),
            spec_system_mem_end(arch),
            b,
        ))
}

/// The error a failed conversion reports, as a function of the input: the
/// first MMIO range that cannot be reserved, else the VM-generation-id's
/// unreservable address, else its absence, else the failure to place the
/// VM clock.
pub open spec fn spec_convert_b_err(arch: Arch, old: schema_b::MicrovmState) -> ConvertError {
    if !crate::resources::spec_mmio_replay_ok(
        Set::empty(),
        crate::arch::spec_mem_32bit_devices_start(arch),
        crate::resources::spec_mem32_window_end(arch),
        crate::resources::spec_used_mmio32(arch, old.device_states),
    ) {
        ConvertError::DuplicateAddress(
            crate::resources::spec_mmio_first_bad(
                Set::empty(),
                crate::arch::spec_mem_32bit_devices_start(arch),
                crate::resources::spec_mem32_window_end(arch),
                crate::resources::spec_used_mmio32(arch, old.device_states),
            ),
        )
    } else if !crate::resources::spec_vmgenid_fit(arch, old.acpi_dev_state) {
        ConvertError::DuplicateAddress(old.acpi_dev_state.vmgenid->Some_0.addr)
    } else if old.acpi_dev_state.vmgenid is None {
        ConvertError::MissingVmGenId
    } else {
        ConvertError::Allocator(crate::alloc_ffi::AllocError::ResourceNotAvailable)
    }
}

/// The system-memory window of a converted envelope holds exactly the
/// VM-generation-id's slot, plus the VM clock's on x86-64.
pub open spec fn system_taken_post(
    arch: Arch,
    r: schema_c::MicrovmState,
    old: schema_b::MicrovmState,
) -> bool {
    match arch {
        Arch::Aarch64 => addr_taken(r.vm_state.resource_allocator.system_memory)
            == spec_genid_points(old.acpi_dev_state),
        Arch::X86_64 => match r.device_states.acpi_state.vmclock {
            Some(vc) => addr_taken(r.vm_state.resource_allocator.system_memory)
                == spec_genid_points(old.acpi_dev_state).union(
                addr_points(vc.guest_address, (vc.guest_address + VMCLOCK_SIZE - 1) as u64),
            ),
            None => false,
        },
    }
}

/// A converted envelope relates to its middle-schema original: metadata
/// and the hypervisor-wide record pass through, the memory layout gains
/// region types and plug state, every vCPU and device is converted, the
/// ACPI bundle is promoted and extended, and the resource allocator is the
/// reconstructed one.
pub open spec fn microvm_c_from_b(
    arch: Arch,
    r: schema_c::MicrovmState,
    old: schema_b::MicrovmState,
) -> bool {
    &&& r.vm_info == old.vm_info
    &&& r.kvm_state == old.kvm_state
    &&& memory_c_from_b(r.vm_state.memory, old.vm_state.memory)
    &&& vm_arch_c_from_b(r.vm_state.arch_state, old.vm_state.arch_state)
    &&& r.vcpu_states@ == old.vcpu_states@.map_values(|v: schema_b::VcpuState| spec_vcpu_c(v))
    &&& device_states_c_from_b(arch, r.device_states.mmio_state, old.device_states)
    &&& r.device_states.pci_state == (PciDevicesState {  })
    &&& acpi_c_from_b(
        arch,
        r.device_states.acpi_state,
        old.acpi_dev_state,
        spec_genid_points(old.acpi_dev_state),
        spec_system_mem_start(arch),
        spec_system_mem_end(arch),
    )
    &&& crate::resources::spec_reconstruct_core(
        arch,
        r.vm_state.resource_allocator,
        old.device_states,
        old.acpi_dev_state,
    )
    &&& system_taken_post(arch, r, old)
}

impl schema_c::MicrovmState {
    /// Convert a middle-schema envelope into the current schema.
    ///
    /// Assembly follows a strict order: the resource allocator is
    /// reconstructed first; the ACPI conversion then runs with a mutable
    /// borrow of it (on x86-64 it allocates the VM clock's slot); the
    /// device states are converted; the VM state is assembled from the
    /// converted memory and the fully populated allocator; and the vCPUs
    /// are converted last.
    pub fn try_from(arch: Arch, old: schema_b::MicrovmState) -> (r: Result<
        schema_c::MicrovmState,
        ConvertError,
    >)
        requires
            old.wf(arch),
        ensures
            (r is Ok) == spec_convert_b_ok(arch, old),
            r matches Ok(out) ==> microvm_c_from_b(arch, out, old),
            r is Err ==> r->Err_0 == spec_convert_b_err(arch, old),
    {
        let schema_b::MicrovmState {
            vm_info,
            kvm_state,
            vm_state,
            vcpu_states,
            device_states,
            acpi_dev_state,
        } = old;

        let mut resource_allocator = match ResourceAllocator::reconstruct(
            arch,
            &device_states,
            &acpi_dev_state,
        ) {
            Ok(ra) => ra,
            Err(e) => {
                return Err(e);
            },
        };

        let ghost sys0 = resource_allocator.system_memory;
        proof {
            assert(addr_taken(sys0) == spec_genid_points(acpi_dev_state));
            assert(addr_base(sys0) == spec_system_mem_start(arch));
            assert(addr_end(sys0) == spec_system_mem_end(arch));
            assert(addr_base(sys0) >= 1);
            assert(addr_end(sys0) < u64::MAX);
        }
        let acpi_res = schema_c::ACPIDeviceManagerState::from(
            arch,
            acpi_dev_state,
            &mut resource_allocator,
        );
        proof {
            if arch == Arch::X86_64 && acpi_dev_state.vmgenid is Some {
                let t0 = addr_taken(sys0);
                let b0 = addr_base(sys0);
                let e0 = addr_end(sys0);
                if exists|b: u64| spec_vmclock_fit(t0, b0, e0, b) {
                    let w = choose|b: u64| spec_vmclock_fit(t0, b0, e0, b);
                    assert(spec_vmclock_fit(
                        spec_genid_points(acpi_dev_state),
                        spec_system_mem_start(arch),
                        spec_system_mem_end(arch),
                        w,
                    ));
                }
                if exists|b: u64|
                    spec_vmclock_fit(
                        spec_genid_points(acpi_dev_state),
                        spec_system_mem_start(arch),
                        spec_system_mem_end(arch),
                        b,
                    ) {
                    let w = choose|b: u64|
                        spec_vmclock_fit(
                            spec_genid_points(acpi_dev_state),
                            spec_system_mem_start(arch),
                            spec_system_mem_end(arch),
                            b,
                        );
                    assert(spec_vmclock_fit(t0, b0, e0, w));
                }
            }
        }
        let acpi_state = match acpi_res {
            Ok(a) => a,
            Err(e) => {
                return Err(e);
            },
        };

        let mmio_state = schema_c::DeviceStates::from(arch, device_states);
        let devices_out = schema_c::DevicesState {
            mmio_state,
            acpi_state,
            pci_state: PciDevicesState {  },
        };

        let vm_state_out = schema_c::VmState::from(vm_state, resource_allocator);

        let ghost vcpu_orig = vcpu_states@;
        let mut vcpu_in = vcpu_states;
        let mut vcpu_out: Vec<schema_c::VcpuState> = Vec::new();
        while vcpu_in.len() > 0
            invariant
                vcpu_out@.len() + vcpu_in@.len() == vcpu_orig.len(),
                vcpu_in@ == vcpu_orig.subrange(vcpu_out@.len() as int, vcpu_orig.len() as int),
                vcpu_out@ == vcpu_orig.subrange(0, vcpu_out@.len() as int).map_values(
                    |v: schema_b::VcpuState| spec_vcpu_c(v),
                ),
            decreases vcpu_in@.len(),
        {
            let ghost k = vcpu_out@.len() as int;
            let v = vcpu_in.remove(0);
            proof {
                assert(v == vcpu_orig[k]);
                assert(vcpu_in@ =~= vcpu_orig.subrange(k + 1, vcpu_orig.len() as int));
            }
            vcpu_out.push(schema_c::VcpuState::from(v));
            proof {
                assert(vcpu_out@ =~= vcpu_orig.subrange(0, k + 1).map_values(
                    |v: schema_b::VcpuState| spec_vcpu_c(v),
                ));
            }
        }
        proof {
            assert(vcpu_orig.subrange(0, vcpu_orig.len() as int) =~= vcpu_orig);
        }

        Ok(
            schema_c::MicrovmState {
                vm_info,
                kvm_state,
                vm_state: vm_state_out,
                vcpu_states: vcpu_out,
                device_states: devices_out,
            },
        )
    }
}

} // verus!
