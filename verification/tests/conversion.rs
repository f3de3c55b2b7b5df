//! End-to-end tests of the conversion pipeline: the concrete migration
//! scenarios and one check per field-conversion policy.

use snapshot_migrator::arch::{irq_to_gsi, Arch};
use snapshot_migrator::pipeline::{migrate, schema_version_of, SchemaVersion, VersionedState};
use snapshot_migrator::resources::ConvertError;
use snapshot_migrator::schema_a;
use snapshot_migrator::schema_b;
use snapshot_migrator::schema_c;
use snapshot_migrator::schema_c::{
    CacheType, FileEngineTypeState, GuestRegionType, KvmCapability, KvmState, MmdsState,
    MmdsVersion, RateLimiterState, StaticCpuTemplate, VMGenIDState, VmInfo, VMCLOCK_COUNTER_INVALID,
    VMCLOCK_MAGIC, VMCLOCK_SIZE, VMCLOCK_STATUS_UNKNOWN,
};

fn vm_info() -> VmInfo {
    VmInfo {
        mem_size_mib: 1024,
        smt: false,
        cpu_template: StaticCpuTemplate::Disabled,
        track_dirty_pages: false,
    }
}

fn rate() -> RateLimiterState {
    RateLimiterState { bandwidth: None, ops: None }
}

fn virtio_b(interrupt_status: u32) -> schema_b::VirtioDeviceState {
    schema_b::VirtioDeviceState {
        device_type: 2,
        avail_features: 0x10,
        acked_features: 0x10,
        queues: vec![schema_b::QueueState {
            max_size: 256,
            size: 128,
            ready: true,
            next_avail: 7,
            next_used: 7,
        }],
        interrupt_status,
        activated: true,
    }
}

fn transport_b() -> schema_b::MmioTransportState {
    schema_b::MmioTransportState {
        features_select: 1,
        acked_features_select: 1,
        queue_select: 0,
        device_status: 15,
        config_generation: 2,
    }
}

fn virtio_block_b(interrupt_status: u32) -> schema_b::BlockState {
    schema_b::BlockState::Virtio(schema_b::VirtioBlockState {
        id: String::from("root"),
        partuuid: None,
        cache_type: CacheType::Unflushed,
        root_device: true,
        disk_path: String::from("/tmp/rootfs"),
        virtio_state: virtio_b(interrupt_status),
        rate_limiter_state: rate(),
        file_engine_type: FileEngineTypeState::Sync,
    })
}

fn block_a(addr: u64, len: u64, irqs: Vec<u32>) -> schema_a::ConnectedBlockState {
    schema_a::ConnectedBlockState {
        device_id: String::from("root"),
        device_state: virtio_block_b(3),
        transport_state: transport_b(),
        device_info: schema_a::MMIODeviceInfo { addr, len, irqs },
    }
}

fn block_b(addr: u64, len: u64, irq: Option<u32>) -> schema_b::ConnectedBlockState {
    schema_b::ConnectedBlockState {
        device_id: String::from("root"),
        device_state: virtio_block_b(3),
        transport_state: transport_b(),
        device_info: schema_b::MMIODeviceInfo { addr, len, irq },
    }
}

fn net_b(addr: u64, irq: Option<u32>) -> schema_b::ConnectedNetState {
    schema_b::ConnectedNetState {
        device_id: String::from("eth0"),
        device_state: schema_b::NetState {
            id: String::from("eth0"),
            tap_if_name: String::from("tap0"),
            rx_rate_limiter_state: rate(),
            tx_rate_limiter_state: rate(),
            mmds_ns: None,
            config_space: schema_b::NetConfigSpaceState { guest_mac: None },
            virtio_state: virtio_b(4),
            rx_buffers_state: schema_b::RxBufferState { min_buffer_size: 1526 },
        },
        transport_state: transport_b(),
        device_info: schema_b::MMIODeviceInfo { addr, len: 0x1000, irq },
    }
}

fn empty_devices_a() -> schema_a::DeviceStates {
    schema_a::DeviceStates {
        legacy_devices: vec![],
        block_devices: vec![],
        net_devices: vec![],
        vsock_device: None,
        balloon_device: None,
        mmds_version: None,
        entropy_device: None,
    }
}

fn empty_devices_b() -> schema_b::DeviceStates {
    schema_b::DeviceStates {
        legacy_devices: vec![],
        block_devices: vec![],
        net_devices: vec![],
        vsock_device: None,
        balloon_device: None,
        mmds_version: None,
        entropy_device: None,
    }
}

fn envelope_a_x86(
    devices: schema_a::DeviceStates,
    vmgenid: Option<VMGenIDState>,
) -> schema_a::MicrovmState {
    schema_a::MicrovmState {
        vm_info: vm_info(),
        memory_state: schema_a::GuestMemoryState {
            regions: vec![schema_a::GuestMemoryRegionState {
                base_address: 0,
                size: 0x4000_0000,
                offset: 0,
            }],
        },
        vm_state: schema_a::VmState {
            arch_state: schema_a::VmArchState::X86_64(vec![1, 2, 3]),
            kvm_cap_modifiers: vec![KvmCapability::Add(7)],
        },
        vcpu_states: vec![schema_a::VcpuState::X86_64(schema_a::VcpuX86State {
            opaque: vec![9, 9],
            xsave: vec![0xAB; 4096],
            tsc_khz: Some(1000),
        })],
        device_states: devices,
        acpi_dev_state: schema_b::ACPIDeviceManagerState { vmgenid },
    }
}

fn envelope_b_x86(
    devices: schema_b::DeviceStates,
    vmgenid: Option<VMGenIDState>,
) -> schema_b::MicrovmState {
    schema_b::MicrovmState {
        vm_info: vm_info(),
        kvm_state: KvmState { kvm_cap_modifiers: vec![KvmCapability::Add(7)] },
        vm_state: schema_b::VmState {
            memory: schema_b::GuestMemoryState {
                regions: vec![schema_b::GuestMemoryRegionState {
                    base_address: 0,
                    size: 0x4000_0000,
                }],
            },
            arch_state: schema_b::VmArchState::X86_64(vec![1, 2, 3]),
        },
        vcpu_states: vec![schema_b::VcpuState::X86_64(schema_c::VcpuX86State {
            opaque: vec![9, 9],
            xsave: schema_c::Xsave { region: vec![0xAB; 4096], fam: vec![] },
            tsc_khz: Some(1000),
        })],
        device_states: devices,
        acpi_dev_state: schema_b::ACPIDeviceManagerState { vmgenid },
    }
}

#[test]
fn version_tags() {
    assert_eq!(schema_version_of(4, 0, 0), Some(SchemaVersion::Oldest));
    assert_eq!(schema_version_of(6, 0, 0), Some(SchemaVersion::Middle));
    assert_eq!(schema_version_of(8, 0, 0), Some(SchemaVersion::Current));
    assert_eq!(schema_version_of(5, 0, 0), None);
    assert_eq!(schema_version_of(8, 1, 0), None);
}

// Oldest-schema envelope with one block device on x86-64: the interrupt
// list collapses and stays GSI 5, the memory region gains its type and
// plug state, the VM-generation-id's slot is reserved, and the VM clock is
// synthesized just below it.
#[test]
fn scenario_oldest_block_device_x86() {
    let mut devices = empty_devices_a();
    devices.block_devices = vec![block_a(0xD000_0000, 0x1000, vec![5])];
    let envelope = envelope_a_x86(devices, Some(VMGenIDState { gsi: 5, addr: 0xF_FFF0 }));

    let out = migrate(Arch::X86_64, VersionedState::Oldest(envelope)).unwrap();

    let block = &out.device_states.mmio_state.block_devices[0];
    assert_eq!(
        block.device_info,
        schema_c::MMIODeviceInfo { addr: 0xD000_0000, len: 0x1000, gsi: Some(5) }
    );
    // The interrupt status re-homed from the device onto the transport.
    assert_eq!(block.transport_state.interrupt_status, 3);
    match &block.device_state {
        schema_c::BlockState::Virtio(inner) => {
            assert_eq!(inner.id, "root");
            assert_eq!(inner.virtio_state.queues.len(), 1);
        }
        _ => panic!("Test failed."),
    }

    let region = &out.vm_state.memory.regions[0];
    assert_eq!(region.base_address, 0);
    assert_eq!(region.size, 0x4000_0000);
    assert_eq!(region.region_type, GuestRegionType::Dram);
    assert_eq!(region.plugged, vec![true]);

    let acpi = &out.device_states.acpi_state;
    assert_eq!(acpi.vmgenid, VMGenIDState { gsi: 5, addr: 0xF_FFF0 });
    let vmclock = acpi.vmclock.unwrap();
    assert_eq!(vmclock.guest_address, 0xF_E000);
    assert!(vmclock.guest_address < acpi.vmgenid.addr);
    assert_eq!(vmclock.magic, VMCLOCK_MAGIC);
    assert_eq!(vmclock.size, VMCLOCK_SIZE);
    assert_eq!(vmclock.version, 1);
    assert_eq!(vmclock.clock_status, VMCLOCK_STATUS_UNKNOWN);
    assert_eq!(vmclock.counter_id, VMCLOCK_COUNTER_INVALID);

    let ra = &out.vm_state.resource_allocator;
    assert!(ra.legacy_gsi_is_allocated(5));
    assert!(!ra.legacy_gsi_is_allocated(6));
    assert!(!ra.msi_gsi_is_allocated(24));

    // The capability modifiers re-homed into the hypervisor-wide record.
    assert_eq!(out.kvm_state.kvm_cap_modifiers, vec![KvmCapability::Add(7)]);
}

// The same scenario on aarch64: interrupt 32 renumbers to GSI 0 and no VM
// clock exists.
#[test]
fn scenario_oldest_block_device_aarch64() {
    let devices = schema_a::DeviceStates {
        legacy_devices: vec![],
        block_devices: vec![block_a(0xD000_0000, 0x1000, vec![32])],
        net_devices: vec![],
        vsock_device: None,
        balloon_device: None,
        mmds_version: None,
        entropy_device: None,
    };
    let envelope = schema_a::MicrovmState {
        vm_info: vm_info(),
        memory_state: schema_a::GuestMemoryState {
            regions: vec![schema_a::GuestMemoryRegionState {
                base_address: 0,
                size: 0x4000_0000,
                offset: 0,
            }],
        },
        vm_state: schema_a::VmState {
            arch_state: schema_a::VmArchState::Aarch64(schema_b::GicState {
                dist: vec![],
                gic_vcpu_states: vec![],
            }),
            kvm_cap_modifiers: vec![],
        },
        vcpu_states: vec![schema_a::VcpuState::Aarch64(schema_b::VcpuAarch64State {
            mp_state: 1,
            regs: schema_c::Aarch64RegisterVec { ids: vec![3], data: vec![4] },
            mpidr: 0x8000_0000,
            kvi: schema_c::VcpuInitState { target: 0, features: vec![0] },
        })],
        device_states: devices,
        acpi_dev_state: schema_b::ACPIDeviceManagerState {
            vmgenid: Some(VMGenIDState { gsi: 33, addr: 0xF_FFF0 }),
        },
    };

    let out = migrate(Arch::Aarch64, VersionedState::Oldest(envelope)).unwrap();

    let block = &out.device_states.mmio_state.block_devices[0];
    assert_eq!(block.device_info.gsi, Some(0));
    // The VM-generation-id's interrupt renumbers too, and no VM clock is
    // synthesized on this architecture.
    let acpi = &out.device_states.acpi_state;
    assert_eq!(acpi.vmgenid, VMGenIDState { gsi: 1, addr: 0xF_FFF0 });
    assert_eq!(acpi.vmclock, None);

    let ra = &out.vm_state.resource_allocator;
    assert!(ra.legacy_gsi_is_allocated(0));
    assert!(ra.legacy_gsi_is_allocated(1));
    assert!(!ra.legacy_gsi_is_allocated(2));

    // The vCPU gains an absent paravirt-time address; the interrupt
    // controller gains an absent translation-service block.
    match &out.vcpu_states[0] {
        schema_c::VcpuState::Aarch64(v) => {
            assert_eq!(v.mp_state, 1);
            assert_eq!(v.mpidr, 0x8000_0000);
            assert_eq!(v.pvtime_ipa, None);
        }
        _ => panic!("Test failed."),
    }
    match &out.vm_state.arch_state {
        schema_c::VmArchState::Aarch64(gic) => assert_eq!(gic.its_state, None),
        _ => panic!("Test failed."),
    }
}

// Two devices claiming the same MMIO address abort the pipeline.
#[test]
fn scenario_duplicate_address() {
    let mut devices = empty_devices_b();
    devices.block_devices = vec![block_b(0xD000_0000, 0x1000, Some(5))];
    devices.net_devices = vec![net_b(0xD000_0000, Some(6))];
    let envelope = envelope_b_x86(devices, Some(VMGenIDState { gsi: 7, addr: 0xF_FFF0 }));

    let err = migrate(Arch::X86_64, VersionedState::Middle(envelope)).unwrap_err();
    assert_eq!(err, ConvertError::DuplicateAddress(0xD000_0000));
}

// A middle-schema envelope without a VM-generation-id cannot convert.
#[test]
fn scenario_missing_vmgenid() {
    let envelope = envelope_b_x86(empty_devices_b(), None);
    let err = migrate(Arch::X86_64, VersionedState::Middle(envelope)).unwrap_err();
    assert_eq!(err, ConvertError::MissingVmGenId);
}

// The oldest schema's fixed-size extended-CPU-state blob is wrapped with
// an empty tail and its bytes survive the whole chain unchanged.
#[test]
fn scenario_xsave_wrapping() {
    let envelope = envelope_a_x86(empty_devices_a(), Some(VMGenIDState { gsi: 5, addr: 0xF_FFF0 }));
    let out = migrate(Arch::X86_64, VersionedState::Oldest(envelope)).unwrap();
    match &out.vcpu_states[0] {
        schema_c::VcpuState::X86_64(v) => {
            assert_eq!(v.xsave.region, vec![0xAB; 4096]);
            assert_eq!(v.xsave.fam.len(), 0);
            assert_eq!(v.opaque, vec![9, 9]);
            assert_eq!(v.tsc_khz, Some(1000));
        }
        _ => panic!("Test failed."),
    }
}

// An interrupt list keeps its first element, which then renumbers.
#[test]
fn scenario_first_interrupt_kept() {
    let info_a = schema_a::MMIODeviceInfo { addr: 0xD000_1000, len: 0x1000, irqs: vec![7, 9] };
    let info_b = schema_b::MMIODeviceInfo::from(info_a);
    assert_eq!(info_b.irq, Some(7));
    let info_c = schema_c::MMIODeviceInfo::from(Arch::X86_64, info_b);
    assert_eq!(info_c.gsi, Some(7));

    let empty_a = schema_a::MMIODeviceInfo { addr: 0xD000_1000, len: 0x1000, irqs: vec![] };
    assert_eq!(schema_b::MMIODeviceInfo::from(empty_a).irq, None);
}

// Feeding a current-schema envelope through the pipeline returns it
// unchanged.
#[test]
fn scenario_pass_through() {
    let mut devices = empty_devices_b();
    devices.block_devices = vec![block_b(0xD000_0000, 0x1000, Some(5))];
    let envelope = envelope_b_x86(devices, Some(VMGenIDState { gsi: 5, addr: 0xF_FFF0 }));
    let current = migrate(Arch::X86_64, VersionedState::Middle(envelope)).unwrap();

    let vm_info_before = current.vm_info.clone();
    let devices_before = current.device_states.clone();
    let vcpus_before = current.vcpu_states.clone();
    let memory_before = current.vm_state.memory.clone();

    let again = migrate(Arch::X86_64, VersionedState::Current(current)).unwrap();
    assert_eq!(again.vm_info, vm_info_before);
    assert_eq!(again.device_states, devices_before);
    assert_eq!(again.vcpu_states, vcpus_before);
    assert_eq!(again.vm_state.memory, memory_before);
    assert!(again.vm_state.resource_allocator.legacy_gsi_is_allocated(5));
}

// Two runs over the same input agree in every observable respect.
#[test]
fn determinism_two_runs() {
    let build = || {
        let mut devices = empty_devices_b();
        devices.block_devices = vec![block_b(0xD000_0000, 0x1000, Some(5))];
        envelope_b_x86(devices, Some(VMGenIDState { gsi: 6, addr: 0xF_FFF0 }))
    };
    let out1 = migrate(Arch::X86_64, VersionedState::Middle(build())).unwrap();
    let out2 = migrate(Arch::X86_64, VersionedState::Middle(build())).unwrap();
    assert_eq!(out1.vm_info, out2.vm_info);
    assert_eq!(out1.kvm_state, out2.kvm_state);
    assert_eq!(out1.vcpu_states, out2.vcpu_states);
    assert_eq!(out1.device_states, out2.device_states);
    assert_eq!(out1.vm_state.memory, out2.vm_state.memory);
    assert_eq!(out1.vm_state.arch_state, out2.vm_state.arch_state);
    for gsi in 0..32 {
        assert_eq!(
            out1.vm_state.resource_allocator.legacy_gsi_is_allocated(gsi),
            out2.vm_state.resource_allocator.legacy_gsi_is_allocated(gsi)
        );
    }
}

// The interrupt renumbering follows the per-architecture formula.
#[test]
fn irq_renumbering_formula() {
    assert_eq!(irq_to_gsi(Arch::X86_64, 5), 5);
    assert_eq!(irq_to_gsi(Arch::X86_64, 23), 23);
    assert_eq!(irq_to_gsi(Arch::X86_64, 0), 0);
    assert_eq!(irq_to_gsi(Arch::Aarch64, 32), 0);
    assert_eq!(irq_to_gsi(Arch::Aarch64, 95), 63);
    // Saturation: numbers below the shared-peripheral origin clamp to zero.
    assert_eq!(irq_to_gsi(Arch::Aarch64, 31), 0);
    assert_eq!(irq_to_gsi(Arch::Aarch64, 0), 0);
    assert_eq!(irq_to_gsi(Arch::Aarch64, 0xFFFF), 0xFFFF - 32);
}

// Restoring a vhost-user block device is refused; the virtio arm converts
// and keeps its fields.
#[test]
fn block_sum_dispatch() {
    let vhost = schema_c::VhostUserBlockState {
        id: String::from("vu0"),
        partuuid: None,
        cache_type: CacheType::Writeback,
        root_device: false,
        socket_path: String::from("/tmp/vu.sock"),
        vu_acked_protocol_features: 3,
        config_space: vec![1, 2],
        virtio_state: schema_c::VirtioDeviceState {
            device_type: 2,
            avail_features: 0,
            acked_features: 0,
            queues: vec![],
            activated: false,
        },
    };
    assert_eq!(vhost.restore(), Err(ConvertError::SnapshottingNotSupported));

    // The vhost-user arm of the block sum still converts as state.
    let old = schema_b::BlockState::VhostUser(schema_b::VhostUserBlockState {
        id: String::from("vu0"),
        partuuid: None,
        cache_type: CacheType::Writeback,
        root_device: false,
        socket_path: String::from("/tmp/vu.sock"),
        vu_acked_protocol_features: 3,
        config_space: vec![1, 2],
        virtio_state: virtio_b(8),
    });
    let (new, interrupt_status) = schema_c::BlockState::from(old);
    assert_eq!(interrupt_status, 8);
    match new {
        schema_c::BlockState::VhostUser(inner) => {
            assert_eq!(inner.socket_path, "/tmp/vu.sock");
            assert_eq!(inner.vu_acked_protocol_features, 3);
        }
        _ => panic!("Test failed."),
    }
}

// Every remaining field policy in one envelope: balloon counters default
// to absent, the hinting state is synthesized fresh, the metadata-service
// record gains its compatibility flag switched off, and the new device
// slots are empty.
#[test]
fn field_policies_all_devices() {
    let mut devices = empty_devices_b();
    devices.block_devices = vec![block_b(0xD000_0000, 0x1000, Some(5))];
    devices.net_devices = vec![net_b(0xD000_1000, Some(6))];
    devices.vsock_device = Some(schema_b::ConnectedVsockState {
        device_id: String::from("vsock0"),
        device_state: schema_b::VsockState {
            backend: schema_b::VsockBackendState::Uds(String::from("/tmp/vsock.sock")),
            frontend: schema_b::VsockFrontendState { cid: 3, virtio_state: virtio_b(5) },
        },
        transport_state: transport_b(),
        device_info: schema_b::MMIODeviceInfo { addr: 0xD000_2000, len: 0x1000, irq: Some(7) },
    });
    devices.balloon_device = Some(schema_b::ConnectedBalloonState {
        device_id: String::from("balloon0"),
        device_state: schema_b::BalloonState {
            stats_polling_interval_s: 1,
            stats_desc_index: Some(2),
            latest_stats: schema_b::BalloonStatsState {
                swap_in: Some(1),
                swap_out: Some(2),
                major_faults: None,
                minor_faults: None,
                free_memory: Some(3),
                total_memory: Some(4),
                available_memory: None,
                disk_caches: None,
                hugetlb_allocations: None,
                hugetlb_failures: None,
            },
            config_space: schema_c::BalloonConfigSpaceState { num_pages: 10, actual_pages: 10 },
            virtio_state: virtio_b(6),
        },
        transport_state: transport_b(),
        device_info: schema_b::MMIODeviceInfo { addr: 0xD000_3000, len: 0x1000, irq: Some(8) },
    });
    devices.entropy_device = Some(schema_b::ConnectedEntropyState {
        device_id: String::from("rng0"),
        device_state: schema_b::EntropyState {
            virtio_state: virtio_b(7),
            rate_limiter_state: rate(),
        },
        transport_state: transport_b(),
        device_info: schema_b::MMIODeviceInfo { addr: 0xD000_4000, len: 0x1000, irq: Some(9) },
    });
    devices.mmds_version = Some(schema_b::MmdsVersionState::V2);

    let envelope = envelope_b_x86(devices, Some(VMGenIDState { gsi: 10, addr: 0xF_FFF0 }));
    let out = migrate(Arch::X86_64, VersionedState::Middle(envelope)).unwrap();
    let mmio = &out.device_states.mmio_state;

    let balloon = mmio.balloon_device.as_ref().unwrap();
    let stats = &balloon.device_state.latest_stats;
    assert_eq!(stats.swap_in, Some(1));
    assert_eq!(stats.oom_kill, None);
    assert_eq!(stats.alloc_stall, None);
    assert_eq!(stats.async_scan, None);
    assert_eq!(stats.direct_scan, None);
    assert_eq!(stats.async_reclaim, None);
    assert_eq!(stats.direct_reclaim, None);
    let hinting = &balloon.device_state.hinting_state;
    assert_eq!(hinting.host_cmd, 0);
    assert_eq!(hinting.last_cmd_id, 0);
    assert_eq!(hinting.guest_cmd, None);
    assert!(hinting.acknowledge_on_finish);
    assert_eq!(balloon.transport_state.interrupt_status, 6);

    assert_eq!(
        mmio.mmds,
        Some(MmdsState { version: MmdsVersion::V2, imds_compat: false })
    );
    assert_eq!(mmio.pmem_devices.len(), 0);
    assert_eq!(mmio.memory_device, None);

    let vsock = mmio.vsock_device.as_ref().unwrap();
    assert_eq!(vsock.transport_state.interrupt_status, 5);
    assert_eq!(vsock.device_info.gsi, Some(7));
    let net = &mmio.net_devices[0];
    assert_eq!(net.transport_state.interrupt_status, 4);
    assert_eq!(net.device_state.rx_buffers_state.min_buffer_size, 1526);
    let entropy = mmio.entropy_device.as_ref().unwrap();
    assert_eq!(entropy.transport_state.interrupt_status, 7);

    let ra = &out.vm_state.resource_allocator;
    for gsi in [5u32, 6, 7, 8, 9, 10] {
        assert!(ra.legacy_gsi_is_allocated(gsi));
    }
    assert!(!ra.legacy_gsi_is_allocated(11));
}

// A message-signalled interrupt lands in the other GSI allocator.
#[test]
fn msi_interrupt_classified() {
    let mut devices = empty_devices_b();
    devices.block_devices = vec![block_b(0xD000_0000, 0x1000, Some(30))];
    let envelope = envelope_b_x86(devices, Some(VMGenIDState { gsi: 5, addr: 0xF_FFF0 }));
    let out = migrate(Arch::X86_64, VersionedState::Middle(envelope)).unwrap();
    let ra = &out.vm_state.resource_allocator;
    assert!(ra.msi_gsi_is_allocated(30));
    assert!(!ra.msi_gsi_is_allocated(24));
    assert!(ra.legacy_gsi_is_allocated(5));
    assert!(!ra.legacy_gsi_is_allocated(6));
}

// Addresses below the 32-bit window are deliberately skipped, so two
// devices there do not collide.
#[test]
fn sub_window_addresses_skipped() {
    let mut devices = empty_devices_b();
    devices.block_devices = vec![block_b(0x1000, 0x1000, Some(5))];
    devices.net_devices = vec![net_b(0x1000, Some(6))];
    let envelope = envelope_b_x86(devices, Some(VMGenIDState { gsi: 7, addr: 0xF_FFF0 }));
    assert!(migrate(Arch::X86_64, VersionedState::Middle(envelope)).is_ok());
}

// Cold-start parity at the legacy-GSI allocator: after reconstruction the
// next allocations are exactly what a cold allocator that served the same
// ids in increasing order would hand out — first the gaps, in increasing
// order, then fresh ids past the largest used one.
#[test]
fn cold_start_parity_next_allocations() {
    let mut devices = empty_devices_b();
    // Legacy GSIs 5 and 8 in use; 6 and 7 are gaps.
    devices.block_devices = vec![block_b(0xD000_0000, 0x1000, Some(5))];
    devices.net_devices = vec![net_b(0xD000_1000, Some(8))];
    let envelope = envelope_b_x86(devices, Some(VMGenIDState { gsi: 5, addr: 0xF_FFF0 }));
    let mut out = migrate(Arch::X86_64, VersionedState::Middle(envelope)).unwrap();

    let ra = &mut out.vm_state.resource_allocator;
    assert_eq!(ra.allocate_legacy_gsi(), Ok(6));
    assert_eq!(ra.allocate_legacy_gsi(), Ok(7));
    assert_eq!(ra.allocate_legacy_gsi(), Ok(9));
    assert_eq!(ra.allocate_legacy_gsi(), Ok(10));
    assert!(ra.legacy_gsi_is_allocated(6));
    assert!(ra.legacy_gsi_is_allocated(9));
}

// A range nested strictly inside an already-reserved one is a collision
// too, and the error carries the nested range's address.
#[test]
fn scenario_nested_range_collision() {
    let mut devices = empty_devices_b();
    devices.block_devices = vec![block_b(0xD000_0000, 0x1000, Some(5))];
    devices.net_devices = vec![net_b(0xD000_0100, Some(6))];
    let envelope = envelope_b_x86(devices, Some(VMGenIDState { gsi: 7, addr: 0xF_FFF0 }));
    let err = migrate(Arch::X86_64, VersionedState::Middle(envelope)).unwrap_err();
    assert_eq!(err, ConvertError::DuplicateAddress(0xD000_0100));
}

// A range merely touching the tail of a reserved one collides as well.
#[test]
fn scenario_tail_overlap_collision() {
    let mut devices = empty_devices_b();
    devices.block_devices = vec![block_b(0xD000_0000, 0x1000, Some(5))];
    devices.net_devices = vec![net_b(0xD000_0FFF, Some(6))];
    let envelope = envelope_b_x86(devices, Some(VMGenIDState { gsi: 7, addr: 0xF_FFF0 }));
    let err = migrate(Arch::X86_64, VersionedState::Middle(envelope)).unwrap_err();
    assert_eq!(err, ConvertError::DuplicateAddress(0xD000_0FFF));
}

// A VM-generation-id whose slot cannot be reserved — here a misaligned
// address — fails with that address.
#[test]
fn scenario_unreservable_vmgenid() {
    let envelope = envelope_b_x86(empty_devices_b(), Some(VMGenIDState { gsi: 5, addr: 0xF_FFF1 }));
    let err = migrate(Arch::X86_64, VersionedState::Middle(envelope)).unwrap_err();
    assert_eq!(err, ConvertError::DuplicateAddress(0xF_FFF1));
}
