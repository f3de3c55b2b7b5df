//! Conversion from the oldest schema to the middle schema.
//!
//! Field policies applied here: the memory region's file `offset` is
//! dropped; the device info's interrupt list is re-represented as its first
//! element; the capability modifiers are re-homed from the VM state into the
//! hypervisor-wide record; the memory layout is re-homed from the envelope
//! into the VM state; and the x86-64 extended-CPU-state blob is wrapped into
//! its matrix-capable form with an empty tail.

use crate::schema_a;
use crate::schema_b;
use crate::schema_c::{KvmState, Xsave};
use vstd::prelude::*;

verus! {

/// The middle-schema device info obtained from an oldest-schema one: the
/// interrupt list collapses to its first element.
pub open spec fn spec_device_info_b(old: schema_a::MMIODeviceInfo) -> schema_b::MMIODeviceInfo {
    schema_b::MMIODeviceInfo {
        addr: old.addr,
        len: old.len,
        irq: if old.irqs@.len() > 0 {
            Some(old.irqs@[0])
        } else {
            None
        },
    }
}

impl schema_b::MMIODeviceInfo {
    /// Convert an oldest-schema device info: the interrupt list is
    /// re-represented as at most one interrupt, keeping the first element.
    pub fn from(old: schema_a::MMIODeviceInfo) -> (r: schema_b::MMIODeviceInfo)
        ensures
            r == spec_device_info_b(old),
    {
        let irq: Option<u32> = if old.irqs.len() > 0 {
            Some(old.irqs[0])
        } else {
            None
        };
        schema_b::MMIODeviceInfo { addr: old.addr, len: old.len, irq }
    }
}

/// The middle-schema memory region obtained from an oldest-schema one: the
/// file offset is dropped.
pub open spec fn spec_region_b(
    old: schema_a::GuestMemoryRegionState,
) -> schema_b::GuestMemoryRegionState {
    schema_b::GuestMemoryRegionState { base_address: old.base_address, size: old.size }
}

impl schema_b::GuestMemoryRegionState {
    /// Convert an oldest-schema memory region, dropping the file offset.
    pub fn from(old: schema_a::GuestMemoryRegionState) -> (r: schema_b::GuestMemoryRegionState)
        ensures
            r == spec_region_b(old),
    {
        schema_b::GuestMemoryRegionState { base_address: old.base_address, size: old.size }
    }
}

impl schema_b::GuestMemoryState {
    /// Convert the oldest-schema memory layout region by region.
    pub fn from(old: schema_a::GuestMemoryState) -> (r: schema_b::GuestMemoryState)
        ensures
            r.regions@ == old.regions@.map_values(
                |x: schema_a::GuestMemoryRegionState| spec_region_b(x),
            ),
    {
        let mut regions: Vec<schema_b::GuestMemoryRegionState> = Vec::new();
        let n = old.regions.len();
        let mut i: usize = 0;
        while i < n
            invariant
                i <= n,
                n == old.regions@.len(),
                regions@ == old.regions@.subrange(0, i as int).map_values(
                    |x: schema_a::GuestMemoryRegionState| spec_region_b(x),
                ),
            decreases n - i,
        {
            regions.push(schema_b::GuestMemoryRegionState::from(old.regions[i]));
            i = i + 1;
            proof {
                assert(regions@ =~= old.regions@.subrange(0, i as int).map_values(
                    |x: schema_a::GuestMemoryRegionState| spec_region_b(x),
                ));
            }
        }
        proof {
            assert(old.regions@.subrange(0, n as int) =~= old.regions@);
        }
        schema_b::GuestMemoryState { regions }
    }
}

/// The middle-schema connected block device obtained from an oldest-schema
/// one: only the device info changes.
pub open spec fn spec_connected_block_b(
    old: schema_a::ConnectedBlockState,
) -> schema_b::ConnectedBlockState {
    schema_b::ConnectedBlockState {
        device_id: old.device_id,
        device_state: old.device_state,
        transport_state: old.transport_state,
        device_info: spec_device_info_b(old.device_info),
    }
}

/// The middle-schema connected network device obtained from an
/// oldest-schema one.
pub open spec fn spec_connected_net_b(
    old: schema_a::ConnectedNetState,
) -> schema_b::ConnectedNetState {
    schema_b::ConnectedNetState {
        device_id: old.device_id,
        device_state: old.device_state,
        transport_state: old.transport_state,
        device_info: spec_device_info_b(old.device_info),
    }
}

/// The middle-schema connected vsock device obtained from an oldest-schema
/// one.
pub open spec fn spec_connected_vsock_b(
    old: schema_a::ConnectedVsockState,
) -> schema_b::ConnectedVsockState {
    schema_b::ConnectedVsockState {
        device_id: old.device_id,
        device_state: old.device_state,
        transport_state: old.transport_state,
        device_info: spec_device_info_b(old.device_info),
    }
}

/// The middle-schema connected balloon device obtained from an
/// oldest-schema one.
pub open spec fn spec_connected_balloon_b(
    old: schema_a::ConnectedBalloonState,
) -> schema_b::ConnectedBalloonState {
    schema_b::ConnectedBalloonState {
        device_id: old.device_id,
        device_state: old.device_state,
        transport_state: old.transport_state,
        device_info: spec_device_info_b(old.device_info),
    }
}

/// The middle-schema connected entropy device obtained from an
/// oldest-schema one.
pub open spec fn spec_connected_entropy_b(
    old: schema_a::ConnectedEntropyState,
) -> schema_b::ConnectedEntropyState {
    schema_b::ConnectedEntropyState {
        device_id: old.device_id,
        device_state: old.device_state,
        transport_state: old.transport_state,
        device_info: spec_device_info_b(old.device_info),
    }
}

/// The middle-schema connected legacy device obtained from an oldest-schema
/// one.
pub open spec fn spec_connected_legacy_b(
    old: schema_a::ConnectedLegacyState,
) -> schema_b::ConnectedLegacyState {
    schema_b::ConnectedLegacyState {
        type_: old.type_,
        device_info: spec_device_info_b(old.device_info),
    }
}

/// The middle-schema device bundle relates to the oldest-schema one: every
/// wrapper keeps its device and transport state and converts its device
/// info; the metadata-service version passes through.
pub open spec fn device_states_b_from_a(
    r: schema_b::DeviceStates,
    old: schema_a::DeviceStates,
) -> bool {
    &&& r.legacy_devices@ == old.legacy_devices@.map_values(
        |d: schema_a::ConnectedLegacyState| spec_connected_legacy_b(d),
    )
    &&& r.block_devices@ == old.block_devices@.map_values(
        |d: schema_a::ConnectedBlockState| spec_connected_block_b(d),
    )
    &&& r.net_devices@ == old.net_devices@.map_values(
        |d: schema_a::ConnectedNetState| spec_connected_net_b(d),
    )
    &&& r.vsock_device == match old.vsock_device {
        Some(d) => Some(spec_connected_vsock_b(d)),
        None => None,
    }
    &&& r.balloon_device == match old.balloon_device {
        Some(d) => Some(spec_connected_balloon_b(d)),
        None => None,
    }
    &&& r.mmds_version == old.mmds_version
    &&& r.entropy_device == match old.entropy_device {
        Some(d) => Some(spec_connected_entropy_b(d)),
        None => None,
    }
}

impl schema_b::DeviceStates {
    /// Convert the oldest-schema device bundle: every wrapper is rebuilt
    /// around its converted device info.
    pub fn from(old: schema_a::DeviceStates) -> (r: schema_b::DeviceStates)
        ensures
            device_states_b_from_a(r, old),
    {
        let schema_a::DeviceStates {
            legacy_devices,
            block_devices,
            net_devices,
            vsock_device,
            balloon_device,
            mmds_version,
            entropy_device,
        } = old;

        let ghost legacy_orig = legacy_devices@;
        let mut legacy_in = legacy_devices;
        let mut legacy_out: Vec<schema_b::ConnectedLegacyState> = Vec::new();
        while legacy_in.len() > 0
            invariant
                legacy_out@.len() + legacy_in@.len() == legacy_orig.len(),
                legacy_in@ == legacy_orig.subrange(legacy_out@.len() as int, legacy_orig.len() as int),
                legacy_out@ == legacy_orig.subrange(0, legacy_out@.len() as int).map_values(
                    |d: schema_a::ConnectedLegacyState| spec_connected_legacy_b(d),
                ),
            decreases legacy_in@.len(),
        {
            let ghost k = legacy_out@.len() as int;
            let d = legacy_in.remove(0);
            proof {
                assert(d == legacy_orig[k]);
                assert(legacy_in@ =~= legacy_orig.subrange(k + 1, legacy_orig.len() as int));
            }
            legacy_out.push(
                schema_b::ConnectedLegacyState {
                    type_: d.type_,
                    device_info: schema_b::MMIODeviceInfo::from(d.device_info),
                },
            );
            proof {
                assert(legacy_out@ =~= legacy_orig.subrange(0, k + 1).map_values(
                    |d: schema_a::ConnectedLegacyState| spec_connected_legacy_b(d),
                ));
            }
        }
        proof {
            assert(legacy_orig.subrange(0, legacy_orig.len() as int) =~= legacy_orig);
        }

        let ghost block_orig = block_devices@;
        let mut block_in = block_devices;
        let mut block_out: Vec<schema_b::ConnectedBlockState> = Vec::new();
        while block_in.len() > 0
            invariant
                block_out@.len() + block_in@.len() == block_orig.len(),
                block_in@ == block_orig.subrange(block_out@.len() as int, block_orig.len() as int),
                block_out@ == block_orig.subrange(0, block_out@.len() as int).map_values(
                    |d: schema_a::ConnectedBlockState| spec_connected_block_b(d),
                ),
            decreases block_in@.len(),
        {
            let ghost k = block_out@.len() as int;
            let d = block_in.remove(0);
            proof {
                assert(d == block_orig[k]);
                assert(block_in@ =~= block_orig.subrange(k + 1, block_orig.len() as int));
            }
            block_out.push(
                schema_b::ConnectedBlockState {
                    device_id: d.device_id,
                    device_state: d.device_state,
                    transport_state: d.transport_state,
                    device_info: schema_b::MMIODeviceInfo::from(d.device_info),
                },
            );
            proof {
                assert(block_out@ =~= block_orig.subrange(0, k + 1).map_values(
                    |d: schema_a::ConnectedBlockState| spec_connected_block_b(d),
                ));
            }
        }
        proof {
            assert(block_orig.subrange(0, block_orig.len() as int) =~= block_orig);
        }

        let ghost net_orig = net_devices@;
        let mut net_in = net_devices;
        let mut net_out: Vec<schema_b::ConnectedNetState> = Vec::new();
        while net_in.len() > 0
            invariant
                net_out@.len() + net_in@.len() == net_orig.len(),
                net_in@ == net_orig.subrange(net_out@.len() as int, net_orig.len() as int),
                net_out@ == net_orig.subrange(0, net_out@.len() as int).map_values(
                    |d: schema_a::ConnectedNetState| spec_connected_net_b(d),
                ),
            decreases net_in@.len(),
        {
            let ghost k = net_out@.len() as int;
            let d = net_in.remove(0);
            proof {
                assert(d == net_orig[k]);
                assert(net_in@ =~= net_orig.subrange(k + 1, net_orig.len() as int));
            }
            net_out.push(
                schema_b::ConnectedNetState {
                    device_id: d.device_id,
                    device_state: d.device_state,
                    transport_state: d.transport_state,
                    device_info: schema_b::MMIODeviceInfo::from(d.device_info),
                },
            );
            proof {
                assert(net_out@ =~= net_orig.subrange(0, k + 1).map_values(
                    |d: schema_a::ConnectedNetState| spec_connected_net_b(d),
                ));
            }
        }
        proof {
            assert(net_orig.subrange(0, net_orig.len() as int) =~= net_orig);
        }

        let vsock_out: Option<schema_b::ConnectedVsockState> = match vsock_device {
            Some(d) => Some(
                schema_b::ConnectedVsockState {
                    device_id: d.device_id,
                    device_state: d.device_state,
                    transport_state: d.transport_state,
                    device_info: schema_b::MMIODeviceInfo::from(d.device_info),
                },
            ),
            None => None,
        };
        let balloon_out: Option<schema_b::ConnectedBalloonState> = match balloon_device {
            Some(d) => Some(
                schema_b::ConnectedBalloonState {
                    device_id: d.device_id,
                    device_state: d.device_state,
                    transport_state: d.transport_state,
                    device_info: schema_b::MMIODeviceInfo::from(d.device_info),
                },
            ),
            None => None,
        };
        let entropy_out: Option<schema_b::ConnectedEntropyState> = match entropy_device {
            Some(d) => Some(
                schema_b::ConnectedEntropyState {
                    device_id: d.device_id,
                    device_state: d.device_state,
                    transport_state: d.transport_state,
                    device_info: schema_b::MMIODeviceInfo::from(d.device_info),
                },
            ),
            None => None,
        };

        schema_b::DeviceStates {
            legacy_devices: legacy_out,
            block_devices: block_out,
            net_devices: net_out,
            vsock_device: vsock_out,
            balloon_device: balloon_out,
            mmds_version,
            entropy_device: entropy_out,
        }
    }
}

/// Wrap an oldest-schema extended-CPU-state blob into the matrix-capable
/// form: the byte body is unchanged and the variable tail is empty.
pub fn wrap_xsave(old: Vec<u8>) -> (r: Xsave)
    ensures
        r.region == old,
        r.fam@ == Seq::<u64>::empty(),
{
    let fam: Vec<u64> = Vec::new();
    Xsave { region: old, fam }
}

/// The middle-schema vCPU state relates to the oldest-schema one: on
/// x86-64 the extended-CPU-state blob is wrapped with an empty tail and all
/// other state passes through; on aarch64 the record is unchanged.
pub open spec fn vcpu_b_from_a(r: schema_b::VcpuState, old: schema_a::VcpuState) -> bool {
    match (r, old) {
        (schema_b::VcpuState::X86_64(rx), schema_a::VcpuState::X86_64(ox)) => {
            &&& rx.opaque == ox.opaque
            &&& rx.xsave.region == ox.xsave
            &&& rx.xsave.fam@ == Seq::<u64>::empty()
            &&& rx.tsc_khz == ox.tsc_khz
        },
        (schema_b::VcpuState::Aarch64(ra), schema_a::VcpuState::Aarch64(oa)) => ra == oa,
        _ => false,
    }
}

impl schema_b::VcpuState {
    /// Convert an oldest-schema vCPU state: on x86-64 the extended-CPU-state
    /// blob changes representation, on aarch64 nothing changes.
    pub fn from(old: schema_a::VcpuState) -> (r: schema_b::VcpuState)
        ensures
            vcpu_b_from_a(r, old),
    {
        match old {
            schema_a::VcpuState::X86_64(x) => schema_b::VcpuState::X86_64(
                crate::schema_c::VcpuX86State {
                    opaque: x.opaque,
                    xsave: wrap_xsave(x.xsave),
                    tsc_khz: x.tsc_khz,
                },
            ),
            schema_a::VcpuState::Aarch64(a) => schema_b::VcpuState::Aarch64(a),
        }
    }
}

/// The middle-schema VM architecture block relates to the oldest-schema
/// one: the payload passes through unchanged.
pub open spec fn vm_arch_b_from_a(r: schema_b::VmArchState, old: schema_a::VmArchState) -> bool {
    match (r, old) {
        (schema_b::VmArchState::X86_64(rx), schema_a::VmArchState::X86_64(ox)) => rx == ox,
        (schema_b::VmArchState::Aarch64(rg), schema_a::VmArchState::Aarch64(og)) => rg == og,
        _ => false,
    }
}

/// The middle-schema envelope relates to the oldest-schema one: metadata
/// passes through, the capability modifiers re-home into the hypervisor-wide
/// record, the memory layout re-homes into the VM state with its regions
/// stripped of their file offsets, every vCPU is converted, the device
/// bundle is converted, and the ACPI bundle passes through.
pub open spec fn microvm_b_from_a(r: schema_b::MicrovmState, old: schema_a::MicrovmState) -> bool {
    &&& r.vm_info == old.vm_info
    &&& r.kvm_state.kvm_cap_modifiers == old.vm_state.kvm_cap_modifiers
    &&& r.vm_state.memory.regions@ == old.memory_state.regions@.map_values(
        |x: schema_a::GuestMemoryRegionState| spec_region_b(x),
    )
    &&& vm_arch_b_from_a(r.vm_state.arch_state, old.vm_state.arch_state)
    &&& r.vcpu_states@.len() == old.vcpu_states@.len()
    &&& forall|j: int|
        0 <= j < old.vcpu_states@.len() ==> vcpu_b_from_a(
            #[trigger] r.vcpu_states@[j],
            old.vcpu_states@[j],
        )
    &&& device_states_b_from_a(r.device_states, old.device_states)
    &&& r.acpi_dev_state == old.acpi_dev_state
}

impl schema_b::MicrovmState {
    /// Convert an oldest-schema envelope into the middle schema.
    pub fn from(old: schema_a::MicrovmState) -> (r: schema_b::MicrovmState)
        ensures
            microvm_b_from_a(r, old),
    {
        let schema_a::MicrovmState {
            vm_info,
            memory_state,
            vm_state,
            vcpu_states,
            device_states,
            acpi_dev_state,
        } = old;
        let schema_a::VmState { arch_state, kvm_cap_modifiers } = vm_state;

        let memory = schema_b::GuestMemoryState::from(memory_state);
        let arch_out: schema_b::VmArchState = match arch_state {
            schema_a::VmArchState::X86_64(x) => schema_b::VmArchState::X86_64(x),
            schema_a::VmArchState::Aarch64(g) => schema_b::VmArchState::Aarch64(g),
        };

        let ghost vcpu_orig = vcpu_states@;
        let mut vcpu_in = vcpu_states;
        let mut vcpu_out: Vec<schema_b::VcpuState> = Vec::new();
        while vcpu_in.len() > 0
            invariant
                vcpu_out@.len() + vcpu_in@.len() == vcpu_orig.len(),
                vcpu_in@ == vcpu_orig.subrange(vcpu_out@.len() as int, vcpu_orig.len() as int),
                forall|j: int|
                    0 <= j < vcpu_out@.len() ==> vcpu_b_from_a(
                        #[trigger] vcpu_out@[j],
                        vcpu_orig[j],
                    ),
            decreases vcpu_in@.len(),
        {
            let ghost k = vcpu_out@.len() as int;
            let v = vcpu_in.remove(0);
            proof {
                assert(v == vcpu_orig[k]);
                assert(vcpu_in@ =~= vcpu_orig.subrange(k + 1, vcpu_orig.len() as int));
            }
            vcpu_out.push(schema_b::VcpuState::from(v));
        }

        schema_b::MicrovmState {
            vm_info,
            kvm_state: KvmState { kvm_cap_modifiers },
            vm_state: schema_b::VmState { memory, arch_state: arch_out },
            vcpu_states: vcpu_out,
            device_states: schema_b::DeviceStates::from(device_states),
            acpi_dev_state,
        }
    }
}

} // verus!
