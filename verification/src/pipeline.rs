//! The conversion pipeline driver.
//!
//! A loader hands the driver a schema version and a decoded envelope of
//! that version; the driver walks the conversion chain up to the current
//! schema.  Input already at the current schema is returned unchanged.  Any
//! step error aborts the run; no partial envelope is ever surfaced.

use crate::arch::Arch;
use crate::convert_ab::microvm_b_from_a;
use crate::convert_bc::{
    microvm_c_from_b, spec_convert_b_ok, spec_genid_points, spec_vmclock_fit,
};
use crate::convert_bc::spec_convert_b_err;
use crate::resources::{
    spec_mem32_window_end, spec_mmio32_ranges, spec_mmio_first_bad, spec_mmio_replay_ok,
    spec_system_mem_end, spec_vmgenid_fit, ConvertError,
};
use crate::schema_a;
use crate::schema_b;
use crate::schema_c;
use vstd::prelude::*;

verus! {

/// The schema versions a snapshot header can name.
#[derive(Debug, Clone, Copy, PartialEq, Eq, Structural)]
pub enum SchemaVersion {
    /// The oldest supported format (wire version 4.0.0).
    Oldest,
    /// The middle format (wire version 6.0.0).
    Middle,
    /// The current format (wire version 8.0.0).
    Current,
}

/// Map a snapshot header's format version onto a schema version.
pub fn schema_version_of(major: u16, minor: u16, patch: u16) -> (r: Option<SchemaVersion>)
    ensures
        r == (if major == 4 && minor == 0 && patch == 0 {
            Some(SchemaVersion::Oldest)
        } else if major == 6 && minor == 0 && patch == 0 {
            Some(SchemaVersion::Middle)
        } else if major == 8 && minor == 0 && patch == 0 {
            Some(SchemaVersion::Current)
        } else {
            None::<SchemaVersion>
        }),
{
    if major == 4 && minor == 0 && patch == 0 {
        Some(SchemaVersion::Oldest)
    } else if major == 6 && minor == 0 && patch == 0 {
        Some(SchemaVersion::Middle)
    } else if major == 8 && minor == 0 && patch == 0 {
        Some(SchemaVersion::Current)
    } else {
        None
    }
}

/// A decoded envelope of whichever schema version the snapshot carried.
#[derive(Debug)]
pub enum VersionedState {
    Oldest(schema_a::MicrovmState),
    Middle(schema_b::MicrovmState),
    Current(schema_c::MicrovmState),
}

/// The device infos of an oldest-schema envelope as the middle schema sees
/// them after conversion, in scan order.
pub open spec fn spec_infos_a(devices: schema_a::DeviceStates) -> Seq<schema_b::MMIODeviceInfo> {
    devices.block_devices@.map_values(
        |d: schema_a::ConnectedBlockState| crate::convert_ab::spec_device_info_b(d.device_info),
    ) + devices.net_devices@.map_values(
        |d: schema_a::ConnectedNetState| crate::convert_ab::spec_device_info_b(d.device_info),
    ) + spec_opt_vsock_info_a(devices.vsock_device) + spec_opt_balloon_info_a(
        devices.balloon_device,
    ) + spec_opt_entropy_info_a(devices.entropy_device) + devices.legacy_devices@.map_values(
        |d: schema_a::ConnectedLegacyState| crate::convert_ab::spec_device_info_b(d.device_info),
    )
}

/// The converted device info contributed by an optional oldest-schema
/// vsock device.
pub open spec fn spec_opt_vsock_info_a(o: Option<schema_a::ConnectedVsockState>) -> Seq<
    schema_b::MMIODeviceInfo,
> {
    match o {
        Some(d) => seq![crate::convert_ab::spec_device_info_b(d.device_info)],
        None => Seq::empty(),
    }
}

/// The converted device info contributed by an optional oldest-schema
/// balloon device.
pub open spec fn spec_opt_balloon_info_a(o: Option<schema_a::ConnectedBalloonState>) -> Seq<
    schema_b::MMIODeviceInfo,
> {
    match o {
        Some(d) => seq![crate::convert_ab::spec_device_info_b(d.device_info)],
        None => Seq::empty(),
    }
}

/// The converted device info contributed by an optional oldest-schema
/// entropy device.
pub open spec fn spec_opt_entropy_info_a(o: Option<schema_a::ConnectedEntropyState>) -> Seq<
    schema_b::MMIODeviceInfo,
> {
    match o {
        Some(d) => seq![crate::convert_ab::spec_device_info_b(d.device_info)],
        None => Seq::empty(),
    }
}

/// Whether migrating an oldest-schema envelope succeeds: after its device
/// infos are brought into the middle shape, the allocator reconstruction
/// must succeed, the VM-generation-id must be present, and on x86-64 the
/// system-memory window must still have room for the VM clock.
pub open spec fn spec_convert_a_ok(arch: Arch, a: schema_a::MicrovmState) -> bool {
    &&& spec_mmio_replay_ok(
        Set::empty(),
        crate::arch::spec_mem_32bit_devices_start(arch),
        spec_mem32_window_end(arch),
        spec_mmio32_ranges(arch, spec_infos_a(a.device_states)),
    )
    &&& spec_vmgenid_fit(arch, a.acpi_dev_state)
    &&& a.acpi_dev_state.vmgenid is Some
    &&& (arch == Arch::X86_64 ==> exists|b: u64|
        spec_vmclock_fit(
            spec_genid_points(a.acpi_dev_state),
            crate::arch::spec_system_mem_start(arch),
            spec_system_mem_end(arch),
            b,
        ))
}

/// The error a failed migration of an oldest-schema envelope reports, as
/// a function of the input, mirroring the middle-schema case over the
/// converted device infos.
pub open spec fn spec_convert_a_err(arch: Arch, a: schema_a::MicrovmState) -> ConvertError {
    if !spec_mmio_replay_ok(
        Set::empty(),
        crate::arch::spec_mem_32bit_devices_start(arch),
        spec_mem32_window_end(arch),
        spec_mmio32_ranges(arch, spec_infos_a(a.device_states)),
    ) {
        ConvertError::DuplicateAddress(
            spec_mmio_first_bad(
                Set::empty(),
                crate::arch::spec_mem_32bit_devices_start(arch),
                spec_mem32_window_end(arch),
                spec_mmio32_ranges(arch, spec_infos_a(a.device_states)),
            ),
        )
    } else if !spec_vmgenid_fit(arch, a.acpi_dev_state) {
        ConvertError::DuplicateAddress(a.acpi_dev_state.vmgenid->Some_0.addr)
    } else if a.acpi_dev_state.vmgenid is None {
        ConvertError::MissingVmGenId
    } else {
        ConvertError::Allocator(crate::alloc_ffi::AllocError::ResourceNotAvailable)
    }
}

/// An oldest-schema envelope is consistently of one architecture.
pub open spec fn wf_a(a: schema_a::MicrovmState, arch: Arch) -> bool {
    &&& match a.vm_state.arch_state {
        schema_a::VmArchState::X86_64(_) => arch == Arch::X86_64,
        schema_a::VmArchState::Aarch64(_) => arch == Arch::Aarch64,
    }
    &&& forall|j: int|
        0 <= j < a.vcpu_states@.len() ==> (match #[trigger] a.vcpu_states@[j] {
            schema_a::VcpuState::X86_64(_) => arch == Arch::X86_64,
            schema_a::VcpuState::Aarch64(_) => arch == Arch::Aarch64,
        })
    &&& (arch == Arch::X86_64 ==> a.device_states.legacy_devices@.len() == 0)
}

/// Walk the conversion chain from whichever schema version the envelope
/// has up to the current one.
///
/// An envelope already at the current schema is returned unchanged.  For
/// the two older schemas the result is pinned by the per-step conversion
/// relations; any step error aborts the run.
pub fn migrate(arch: Arch, state: VersionedState) -> (r: Result<
    schema_c::MicrovmState,
    ConvertError,
>)
    requires
        state matches VersionedState::Middle(b) ==> b.wf(arch),
        state matches VersionedState::Oldest(a) ==> wf_a(a, arch),
    ensures
        state matches VersionedState::Current(env) ==> r == Ok::<
            schema_c::MicrovmState,
            ConvertError,
        >(env),
        state matches VersionedState::Middle(b) ==> ((r is Ok) == spec_convert_b_ok(arch, b)),
        state matches VersionedState::Middle(b) ==> (r is Ok ==> microvm_c_from_b(
            arch,
            r->Ok_0,
            b,
        )),
        state matches VersionedState::Middle(b) ==> (r is Err ==> r->Err_0 == spec_convert_b_err(
            arch,
            b,
        )),
        state matches VersionedState::Oldest(a) ==> ((r is Ok) == spec_convert_a_ok(arch, a)),
        state matches VersionedState::Oldest(a) ==> (r is Err ==> r->Err_0 == spec_convert_a_err(
            arch,
            a,
        )),
        state matches VersionedState::Oldest(a) ==> (r is Ok ==> exists|
            mid: schema_b::MicrovmState,
        |
            #[trigger] microvm_b_from_a(mid, a) && microvm_c_from_b(arch, r->Ok_0, mid)),
{
    match state {
        VersionedState::Current(env) => Ok(env),
        VersionedState::Middle(b) => schema_c::MicrovmState::try_from(arch, b),
        VersionedState::Oldest(a) => {
            let ghost a0 = a;
            let mid = schema_b::MicrovmState::from(a);
            proof {
                lemma_mid_wf(mid, a0, arch);
                lemma_infos_compose(mid, a0);
                lemma_a_ok_matches_b_ok(arch, mid, a0);
            }
            let out = schema_c::MicrovmState::try_from(arch, mid);
            proof {
                if out is Ok {
                    assert(microvm_b_from_a(mid, a0) && microvm_c_from_b(arch, out->Ok_0, mid));
                }
            }
            out
        },
    }
}

/// A converted middle-schema envelope inherits the architecture
/// consistency of its oldest-schema original.
proof fn lemma_mid_wf(mid: schema_b::MicrovmState, a: schema_a::MicrovmState, arch: Arch)
    requires
        microvm_b_from_a(mid, a),
        wf_a(a, arch),
    ensures
        mid.wf(arch),
{
    assert forall|j: int| 0 <= j < mid.vcpu_states@.len() implies (match #[trigger] mid.vcpu_states@[j] {
        schema_b::VcpuState::X86_64(_) => arch == Arch::X86_64,
        schema_b::VcpuState::Aarch64(_) => arch == Arch::Aarch64,
    }) by {
        assert(crate::convert_ab::vcpu_b_from_a(mid.vcpu_states@[j], a.vcpu_states@[j]));
    }
}

/// The device infos a converted middle-schema envelope presents are the
/// oldest-schema envelope's device infos brought into the middle shape.
proof fn lemma_infos_compose(mid: schema_b::MicrovmState, a: schema_a::MicrovmState)
    requires
        microvm_b_from_a(mid, a),
    ensures
        crate::resources::spec_device_infos(mid.device_states) == spec_infos_a(a.device_states),
{
    let md = mid.device_states;
    let ad = a.device_states;
    assert(md.block_devices@.map_values(|d: schema_b::ConnectedBlockState| d.device_info)
        =~= ad.block_devices@.map_values(
        |d: schema_a::ConnectedBlockState| crate::convert_ab::spec_device_info_b(d.device_info),
    ));
    assert(md.net_devices@.map_values(|d: schema_b::ConnectedNetState| d.device_info)
        =~= ad.net_devices@.map_values(
        |d: schema_a::ConnectedNetState| crate::convert_ab::spec_device_info_b(d.device_info),
    ));
    assert(md.legacy_devices@.map_values(|d: schema_b::ConnectedLegacyState| d.device_info)
        =~= ad.legacy_devices@.map_values(
        |d: schema_a::ConnectedLegacyState| crate::convert_ab::spec_device_info_b(d.device_info),
    ));
    assert(crate::resources::spec_opt_vsock_info(md.vsock_device) =~= spec_opt_vsock_info_a(
        ad.vsock_device,
    ));
    assert(crate::resources::spec_opt_balloon_info(md.balloon_device) =~= spec_opt_balloon_info_a(
        ad.balloon_device,
    ));
    assert(crate::resources::spec_opt_entropy_info(md.entropy_device) =~= spec_opt_entropy_info_a(
        ad.entropy_device,
    ));
    assert(crate::resources::spec_device_infos(md) =~= spec_infos_a(ad));
}

/// Migrating an oldest-schema envelope succeeds exactly when converting
/// its middle-schema image succeeds, and a failure reports the same error.
proof fn lemma_a_ok_matches_b_ok(arch: Arch, mid: schema_b::MicrovmState, a: schema_a::MicrovmState)
    requires
        microvm_b_from_a(mid, a),
        crate::resources::spec_device_infos(mid.device_states) == spec_infos_a(a.device_states),
    ensures
        spec_convert_b_ok(arch, mid) == spec_convert_a_ok(arch, a),
        spec_convert_b_err(arch, mid) == spec_convert_a_err(arch, a),
{
    assert(mid.acpi_dev_state == a.acpi_dev_state);
}

impl schema_c::VhostUserBlockState {
    /// Restoring a vhost-user block device is not supported: its backend
    /// lives in an external process whose state the monitor cannot
    /// snapshot.  The restore fails without reading any record field.
    pub fn restore(&self) -> (r: Result<(), ConvertError>)
        ensures
            r == Err::<(), ConvertError>(ConvertError::SnapshottingNotSupported),
    {
        Err(ConvertError::SnapshottingNotSupported)
    }
}

} // verus!
