//! The resource allocator bundle of the current schema, and its
//! reconstruction from older snapshots.
//!
//! The current monitor persists six allocators: two sequential-id allocators
//! for the legacy and message-signalled GSI spaces, and four address-range
//! allocators for the 32-bit MMIO window, the 64-bit MMIO window, the window
//! past it, and the ACPI system-memory window.  Older snapshots did not
//! persist them; `reconstruct` rebuilds them from the device records that
//! were persisted, replaying the original allocation order so that future
//! allocations are identical to what a cold-started current monitor would
//! produce.

use crate::alloc_ffi::{
    addr_alloc_new, addr_allocate_exact, addr_base, addr_end, addr_points, addr_taken,
    exact_fit, exact_request_ok, id_alloc_new, id_allocate, id_allocate_post, id_base, id_end, id_free,
    id_freed, id_is_allocated, id_is_allocated_model, id_next, is_power_of_two, AllocError,
};
use crate::arch::{
    first_addr_past_64bits_mmio, gsi_legacy_end, gsi_legacy_start, gsi_msi_end, gsi_msi_start,
    irq_to_gsi, mem_32bit_devices_size, mem_32bit_devices_start, mem_64bit_devices_size,
    mem_64bit_devices_start, past_64bits_mmio_size, spec_first_addr_past_64bits_mmio,
    spec_gsi_legacy_end, spec_gsi_legacy_start, spec_gsi_msi_end, spec_gsi_msi_start,
    spec_irq_to_gsi, spec_mem_32bit_devices_size, spec_mem_32bit_devices_start,
    spec_mem_64bit_devices_size, spec_mem_64bit_devices_start, spec_past_64bits_mmio_size,
    spec_system_mem_size, spec_system_mem_start, system_mem_size, system_mem_start, Arch,
    VMGENID_MEM_ALIGN, VMGENID_MEM_SIZE,
};
use crate::schema_b;
use vstd::prelude::*;

verus! {

/// Errors of the conversion pipeline.
#[derive(Debug, Clone, Copy, PartialEq, Eq)]
pub enum ConvertError {
    /// The middle-version envelope lacks a VM-generation-id record, which
    /// the current schema requires.
    MissingVmGenId,
    /// The underlying allocator refused a reservation.
    Allocator(AllocError),
    /// Two device records claim overlapping MMIO, or a record's address
    /// cannot be reserved.
    DuplicateAddress(u64),
    /// A GSI falls outside both the legacy and the message-signalled
    /// range.  Part of the error taxonomy, but no current scan path raises
    /// it: the two ranges are exhaustive for the interrupts old monitors
    /// could persist.
    GsiOutOfRange(u32),
    /// The device whose record was found does not support snapshotting.
    SnapshottingNotSupported,
}

/// The six allocators the current schema persists.
#[derive(Debug)]
pub struct ResourceAllocator {
    pub gsi_legacy_allocator: vm_allocator::IdAllocator,
    pub gsi_msi_allocator: vm_allocator::IdAllocator,
    pub mmio32_memory: vm_allocator::AddressAllocator,
    pub mmio64_memory: vm_allocator::AddressAllocator,
    pub past_mmio64_memory: vm_allocator::AddressAllocator,
    pub system_memory: vm_allocator::AddressAllocator,
}

/// Last address of the 32-bit MMIO device window.
pub open spec fn spec_mem32_window_end(arch: Arch) -> u64 {
    (spec_mem_32bit_devices_start(arch) + spec_mem_32bit_devices_size(arch) - 1) as u64
}

/// Last address of the ACPI system-memory window.
pub open spec fn spec_system_mem_end(arch: Arch) -> u64 {
    (spec_system_mem_start(arch) + spec_system_mem_size(arch) - 1) as u64
}

/// The device info contributed by an optional vsock device.
pub open spec fn spec_opt_vsock_info(o: Option<schema_b::ConnectedVsockState>) -> Seq<
    schema_b::MMIODeviceInfo,
> {
    match o {
        Some(d) => seq![d.device_info],
        None => Seq::empty(),
    }
}

/// The device info contributed by an optional balloon device.
pub open spec fn spec_opt_balloon_info(o: Option<schema_b::ConnectedBalloonState>) -> Seq<
    schema_b::MMIODeviceInfo,
> {
    match o {
        Some(d) => seq![d.device_info],
        None => Seq::empty(),
    }
}

/// The device info contributed by an optional entropy device.
pub open spec fn spec_opt_entropy_info(o: Option<schema_b::ConnectedEntropyState>) -> Seq<
    schema_b::MMIODeviceInfo,
> {
    match o {
        Some(d) => seq![d.device_info],
        None => Seq::empty(),
    }
}

/// The device infos of every persisted device of a middle-schema envelope,
/// in the order the reconstruction scans them: block, net, vsock, balloon,
/// entropy, then the legacy devices.
pub open spec fn spec_device_infos(
    devices: schema_b::DeviceStates,
) -> Seq<schema_b::MMIODeviceInfo> {
    devices.block_devices@.map_values(|d: schema_b::ConnectedBlockState| d.device_info)
        + devices.net_devices@.map_values(|d: schema_b::ConnectedNetState| d.device_info)
        + spec_opt_vsock_info(devices.vsock_device) + spec_opt_balloon_info(
        devices.balloon_device,
    ) + spec_opt_entropy_info(devices.entropy_device) + devices.legacy_devices@.map_values(
        |d: schema_b::ConnectedLegacyState| d.device_info,
    )
}

/// The legacy-range GSIs contributed by one device info.
pub open spec fn spec_legacy_gsi_of(arch: Arch, info: schema_b::MMIODeviceInfo) -> Seq<u32> {
    match info.irq {
        Some(irq) => {
            let gsi = spec_irq_to_gsi(arch, irq);
            if spec_gsi_legacy_start(arch) <= gsi <= spec_gsi_legacy_end(arch) {
                seq![gsi]
            } else {
                Seq::empty()
            }
        },
        None => Seq::empty(),
    }
}

/// The message-signalled-range GSIs contributed by one device info: a GSI
/// counts here only when it is outside the legacy range.
pub open spec fn spec_msi_gsi_of(arch: Arch, info: schema_b::MMIODeviceInfo) -> Seq<u32> {
    match info.irq {
        Some(irq) => {
            let gsi = spec_irq_to_gsi(arch, irq);
            if spec_gsi_legacy_start(arch) <= gsi <= spec_gsi_legacy_end(arch) {
                Seq::empty()
            } else if spec_gsi_msi_start(arch) <= gsi <= spec_gsi_msi_end(arch) {
                seq![gsi]
            } else {
                Seq::empty()
            }
        },
        None => Seq::empty(),
    }
}

/// The 32-bit MMIO ranges contributed by one device info: addresses below
/// the window's start belonged to an allocator the current schema no longer
/// tracks and are deliberately skipped.
pub open spec fn spec_mmio32_range_of(arch: Arch, info: schema_b::MMIODeviceInfo) -> Seq<
    (u64, u64),
> {
    if info.addr >= spec_mem_32bit_devices_start(arch) {
        seq![(info.addr, info.len)]
    } else {
        Seq::empty()
    }
}

/// The legacy-range GSIs of a sequence of device infos, in scan order.
pub open spec fn spec_legacy_gsis(arch: Arch, infos: Seq<schema_b::MMIODeviceInfo>) -> Seq<u32>
    decreases infos.len(),
{
    if infos.len() == 0 {
        Seq::empty()
    } else {
        spec_legacy_gsis(arch, infos.drop_last()) + spec_legacy_gsi_of(arch, infos.last())
    }
}

/// The message-signalled-range GSIs of a sequence of device infos.
pub open spec fn spec_msi_gsis(arch: Arch, infos: Seq<schema_b::MMIODeviceInfo>) -> Seq<u32>
    decreases infos.len(),
{
    if infos.len() == 0 {
        Seq::empty()
    } else {
        spec_msi_gsis(arch, infos.drop_last()) + spec_msi_gsi_of(arch, infos.last())
    }
}

/// The recorded 32-bit MMIO ranges of a sequence of device infos.
pub open spec fn spec_mmio32_ranges(arch: Arch, infos: Seq<schema_b::MMIODeviceInfo>) -> Seq<
    (u64, u64),
>
    decreases infos.len(),
{
    if infos.len() == 0 {
        Seq::empty()
    } else {
        spec_mmio32_ranges(arch, infos.drop_last()) + spec_mmio32_range_of(arch, infos.last())
    }
}

/// The legacy GSI contributed by the VM-generation-id record, if any.
pub open spec fn spec_vmgenid_legacy_gsi(
    arch: Arch,
    acpi: schema_b::ACPIDeviceManagerState,
) -> Seq<u32> {
    match acpi.vmgenid {
        Some(v) => {
            let gsi = spec_irq_to_gsi(arch, v.gsi);
            if spec_gsi_legacy_start(arch) <= gsi <= spec_gsi_legacy_end(arch) {
                seq![gsi]
            } else {
                Seq::empty()
            }
        },
        None => Seq::empty(),
    }
}

/// All legacy GSIs the reconstruction marks as used: those of the devices,
/// then the VM-generation-id's.
pub open spec fn spec_used_legacy(
    arch: Arch,
    devices: schema_b::DeviceStates,
    acpi: schema_b::ACPIDeviceManagerState,
) -> Seq<u32> {
    spec_legacy_gsis(arch, spec_device_infos(devices)) + spec_vmgenid_legacy_gsi(arch, acpi)
}

/// All message-signalled GSIs the reconstruction marks as used.
pub open spec fn spec_used_msi(arch: Arch, devices: schema_b::DeviceStates) -> Seq<u32> {
    spec_msi_gsis(arch, spec_device_infos(devices))
}

/// All 32-bit MMIO ranges the reconstruction reserves, in scan order.
pub open spec fn spec_used_mmio32(arch: Arch, devices: schema_b::DeviceStates) -> Seq<(u64, u64)> {
    spec_mmio32_ranges(arch, spec_device_infos(devices))
}

/// Largest element of a sequence of ids (zero for an empty sequence).
pub open spec fn seq_max_u32(s: Seq<u32>) -> u32
    decreases s.len(),
{
    if s.len() == 0 {
        0
    } else {
        let m = seq_max_u32(s.drop_last());
        if s.last() >= m {
            s.last()
        } else {
            m
        }
    }
}

/// The next never-allocated id of a sequential allocator that has replayed
/// the given used ids.
pub open spec fn spec_replayed_next(start: u32, used: Seq<u32>) -> Option<u32> {
    if used.len() == 0 {
        Some(start)
    } else if seq_max_u32(used) < u32::MAX {
        Some((seq_max_u32(used) + 1) as u32)
    } else {
        None
    }
}

/// The freed ids of a sequential allocator that has replayed the given used
/// ids: every id from the range's start up to the largest used one that is
/// not itself used.
pub open spec fn spec_replayed_freed(start: u32, used: Seq<u32>) -> Set<u32> {
    if used.len() == 0 {
        Set::empty()
    } else {
        Set::new(|id: u32| start <= id <= seq_max_u32(used) && !used.contains(id))
    }
}

/// Whether replaying the given MMIO ranges with exact placement succeeds,
/// starting from the given set of taken addresses.
pub open spec fn spec_mmio_replay_ok(
    taken: Set<u64>,
    base: u64,
    end: u64,
    pairs: Seq<(u64, u64)>,
) -> bool
    decreases pairs.len(),
{
    if pairs.len() == 0 {
        true
    } else {
        &&& exact_request_ok(taken, base, end, pairs.first().1, 1, pairs.first().0)
        &&& spec_mmio_replay_ok(
            taken.union(
                addr_points(pairs.first().0, (pairs.first().0 + pairs.first().1 - 1) as u64),
            ),
            base,
            end,
            pairs.drop_first(),
        )
    }
}

/// The set of taken addresses after replaying the given MMIO ranges.
pub open spec fn spec_mmio_replay_taken(taken: Set<u64>, pairs: Seq<(u64, u64)>) -> Set<u64>
    decreases pairs.len(),
{
    if pairs.len() == 0 {
        taken
    } else {
        spec_mmio_replay_taken(
            taken.union(
                addr_points(pairs.first().0, (pairs.first().0 + pairs.first().1 - 1) as u64),
            ),
            pairs.drop_first(),
        )
    }
}

/// The first replayed range whose slot is not free: the address the
/// duplicate-address error carries when the replay fails (zero when it
/// does not fail).
pub open spec fn spec_mmio_first_bad(
    taken: Set<u64>,
    base: u64,
    end: u64,
    pairs: Seq<(u64, u64)>,
) -> u64
    decreases pairs.len(),
{
    if pairs.len() == 0 {
        0
    } else if !exact_request_ok(taken, base, end, pairs.first().1, 1, pairs.first().0) {
        pairs.first().0
    } else {
        spec_mmio_first_bad(
            taken.union(
                addr_points(pairs.first().0, (pairs.first().0 + pairs.first().1 - 1) as u64),
            ),
            base,
            end,
            pairs.drop_first(),
        )
    }
}

/// The range `pair` occupies covers the address `p` (the range's last
/// address is computed exactly as the reservation takes it).
pub open spec fn pair_covers(pair: (u64, u64), p: u64) -> bool {
    pair.0 <= p && p <= (pair.0 + pair.1 - 1) as u64
}

/// The range `pair` occupies meets the address range `[lo, hi]`.
pub open spec fn pair_overlaps(pair: (u64, u64), lo: u64, hi: u64) -> bool {
    pair.0 <= hi && lo <= (pair.0 + pair.1 - 1) as u64
}

/// Replaying MMIO ranges never removes taken addresses.
pub proof fn lemma_replay_taken_mono(taken: Set<u64>, pairs: Seq<(u64, u64)>, p: u64)
    requires
        taken.contains(p),
    ensures
        spec_mmio_replay_taken(taken, pairs).contains(p),
    decreases pairs.len(),
{
    if pairs.len() > 0 {
        lemma_replay_taken_mono(
            taken.union(
                addr_points(pairs.first().0, (pairs.first().0 + pairs.first().1 - 1) as u64),
            ),
            pairs.drop_first(),
            p,
        );
    }
}

/// After a successful replay, every address of every replayed range is
/// taken.
pub proof fn lemma_replay_taken_covers(
    taken: Set<u64>,
    base: u64,
    end: u64,
    pairs: Seq<(u64, u64)>,
    k: int,
    p: u64,
)
    requires
        spec_mmio_replay_ok(taken, base, end, pairs),
        0 <= k < pairs.len(),
        pair_covers(pairs[k], p),
    ensures
        spec_mmio_replay_taken(taken, pairs).contains(p),
    decreases pairs.len(),
{
    let taken1 = taken.union(
        addr_points(pairs.first().0, (pairs.first().0 + pairs.first().1 - 1) as u64),
    );
    if k == 0 {
        assert(taken1.contains(p));
        lemma_replay_taken_mono(taken1, pairs.drop_first(), p);
    } else {
        assert(pairs.drop_first()[k - 1] == pairs[k]);
        lemma_replay_taken_covers(taken1, base, end, pairs.drop_first(), k - 1, p);
    }
}

/// An address taken after a replay was either taken before it or lies in
/// one of the replayed ranges.
pub proof fn lemma_replay_taken_origin(taken: Set<u64>, pairs: Seq<(u64, u64)>, p: u64)
    requires
        spec_mmio_replay_taken(taken, pairs).contains(p),
    ensures
        taken.contains(p) || exists|k: int|
            0 <= k < pairs.len() && pair_covers(#[trigger] pairs[k], p),
    decreases pairs.len(),
{
    if pairs.len() > 0 {
        let taken1 = taken.union(
            addr_points(pairs.first().0, (pairs.first().0 + pairs.first().1 - 1) as u64),
        );
        lemma_replay_taken_origin(taken1, pairs.drop_first(), p);
        if !taken.contains(p) {
            if taken1.contains(p) {
                assert(pair_covers(pairs[0], p));
            } else {
                let k = choose|k: int|
                    0 <= k < pairs.drop_first().len() && pair_covers(
                        #[trigger] pairs.drop_first()[k],
                        p,
                    );
                assert(pairs.drop_first()[k] == pairs[k + 1]);
                assert(pair_covers(pairs[k + 1], p));
            }
        }
    }
}

/// Under a successful replay, every replayed range holds at least one
/// address and lies inside the window.
pub proof fn lemma_replay_ok_pair_fits(
    taken: Set<u64>,
    base: u64,
    end: u64,
    pairs: Seq<(u64, u64)>,
    k: int,
)
    requires
        spec_mmio_replay_ok(taken, base, end, pairs),
        0 <= k < pairs.len(),
    ensures
        pairs[k].1 >= 1,
        pairs[k].0 >= base,
        pairs[k].0 + pairs[k].1 - 1 <= end,
    decreases pairs.len(),
{
    if k > 0 {
        let taken1 = taken.union(
            addr_points(pairs.first().0, (pairs.first().0 + pairs.first().1 - 1) as u64),
        );
        assert(pairs.drop_first()[k - 1] == pairs[k]);
        lemma_replay_ok_pair_fits(taken1, base, end, pairs.drop_first(), k - 1);
    }
}

/// Extending a successfully replayed prefix by one more range whose slot
/// is free keeps the replay successful and adds exactly that range's
/// addresses.
pub proof fn lemma_replay_ok_snoc(taken: Set<u64>, base: u64, end: u64, pairs: Seq<(u64, u64)>, j: int)
    requires
        0 <= j < pairs.len(),
        spec_mmio_replay_ok(taken, base, end, pairs.subrange(0, j)),
        exact_request_ok(
            spec_mmio_replay_taken(taken, pairs.subrange(0, j)),
            base,
            end,
            pairs[j].1,
            1,
            pairs[j].0,
        ),
    ensures
        spec_mmio_replay_ok(taken, base, end, pairs.subrange(0, j + 1)),
        spec_mmio_replay_taken(taken, pairs.subrange(0, j + 1)) == spec_mmio_replay_taken(
            taken,
            pairs.subrange(0, j),
        ).union(addr_points(pairs[j].0, (pairs[j].0 + pairs[j].1 - 1) as u64)),
    decreases j,
{
    let prefix = pairs.subrange(0, j);
    let prefix1 = pairs.subrange(0, j + 1);
    let head_points = addr_points(pairs[j].0, (pairs[j].0 + pairs[j].1 - 1) as u64);
    if j == 0 {
        assert(prefix =~= Seq::<(u64, u64)>::empty());
        assert(spec_mmio_replay_taken(taken, prefix) == taken);
        assert(prefix1.first() == pairs[0]);
        assert(prefix1.drop_first() =~= Seq::<(u64, u64)>::empty());
        assert(exact_request_ok(taken, base, end, prefix1.first().1, 1, prefix1.first().0));
        assert(spec_mmio_replay_ok(taken.union(head_points), base, end, prefix1.drop_first()));
        assert(spec_mmio_replay_ok(taken, base, end, prefix1));
        assert(spec_mmio_replay_taken(taken.union(head_points), prefix1.drop_first())
            == taken.union(head_points));
        assert(spec_mmio_replay_taken(taken, prefix1) == taken.union(head_points));
    } else {
        let taken1 = taken.union(
            addr_points(pairs.first().0, (pairs.first().0 + pairs.first().1 - 1) as u64),
        );
        assert(prefix.first() == pairs.first());
        assert(prefix1.first() == pairs.first());
        assert(prefix.drop_first() =~= pairs.drop_first().subrange(0, j - 1));
        assert(prefix1.drop_first() =~= pairs.drop_first().subrange(0, j));
        assert(pairs.drop_first()[j - 1] == pairs[j]);
        assert(spec_mmio_replay_taken(taken, prefix) == spec_mmio_replay_taken(
            taken1,
            pairs.drop_first().subrange(0, j - 1),
        ));
        lemma_replay_ok_snoc(taken1, base, end, pairs.drop_first(), j - 1);
        assert(spec_mmio_replay_ok(taken1, base, end, prefix1.drop_first()));
        assert(exact_request_ok(taken, base, end, prefix1.first().1, 1, prefix1.first().0));
        assert(spec_mmio_replay_ok(taken, base, end, prefix1));
        assert(spec_mmio_replay_taken(taken, prefix1) == spec_mmio_replay_taken(
            taken1,
            prefix1.drop_first(),
        ));
    }
}

/// A failing range after a successfully replayed prefix makes the whole
/// replay fail, and it is the address the duplicate-address error carries.
pub proof fn lemma_replay_prefix_fail(
    taken: Set<u64>,
    base: u64,
    end: u64,
    pairs: Seq<(u64, u64)>,
    j: int,
)
    requires
        0 <= j < pairs.len(),
        spec_mmio_replay_ok(taken, base, end, pairs.subrange(0, j)),
        !exact_request_ok(
            spec_mmio_replay_taken(taken, pairs.subrange(0, j)),
            base,
            end,
            pairs[j].1,
            1,
            pairs[j].0,
        ),
    ensures
        !spec_mmio_replay_ok(taken, base, end, pairs),
        spec_mmio_first_bad(taken, base, end, pairs) == pairs[j].0,
    decreases j,
{
    let prefix = pairs.subrange(0, j);
    if j == 0 {
        assert(prefix =~= Seq::<(u64, u64)>::empty());
        assert(pairs.first() == pairs[0]);
    } else {
        let taken1 = taken.union(
            addr_points(pairs.first().0, (pairs.first().0 + pairs.first().1 - 1) as u64),
        );
        assert(prefix.first() == pairs.first());
        assert(prefix.drop_first() =~= pairs.drop_first().subrange(0, j - 1));
        assert(pairs.drop_first()[j - 1] == pairs[j]);
        lemma_replay_prefix_fail(taken1, base, end, pairs.drop_first(), j - 1);
    }
}

/// Whether the VM-generation-id's address can be reserved in a fresh ACPI
/// system-memory window (vacuously true when there is no record).
pub open spec fn spec_vmgenid_fit(arch: Arch, acpi: schema_b::ACPIDeviceManagerState) -> bool {
    match acpi.vmgenid {
        Some(v) => exact_request_ok(
            Set::empty(),
            spec_system_mem_start(arch),
            spec_system_mem_end(arch),
            VMGENID_MEM_SIZE,
            VMGENID_MEM_ALIGN,
            v.addr,
        ),
        None => true,
    }
}

/// Whether the reconstruction of the resource allocators succeeds: every
/// recorded 32-bit MMIO range can be reserved without collision, and the
/// VM-generation-id's address can be reserved in the system-memory window.
pub open spec fn spec_reconstruct_ok(
    arch: Arch,
    devices: schema_b::DeviceStates,
    acpi: schema_b::ACPIDeviceManagerState,
) -> bool {
    &&& spec_mmio_replay_ok(
        Set::empty(),
        spec_mem_32bit_devices_start(arch),
        spec_mem32_window_end(arch),
        spec_used_mmio32(arch, devices),
    )
    &&& spec_vmgenid_fit(arch, acpi)
}

/// What a successful reconstruction returns, apart from the system-memory
/// window's contents: each GSI allocator is in the state left by replaying
/// its used ids, the 32-bit MMIO window holds exactly the recorded ranges,
/// and the two 64-bit windows are untouched.
pub open spec fn spec_reconstruct_core(
    arch: Arch,
    ra: ResourceAllocator,
    devices: schema_b::DeviceStates,
    acpi: schema_b::ACPIDeviceManagerState,
) -> bool {
    &&& id_base(ra.gsi_legacy_allocator) == spec_gsi_legacy_start(arch)
    &&& id_end(ra.gsi_legacy_allocator) == spec_gsi_legacy_end(arch)
    &&& id_next(ra.gsi_legacy_allocator) == spec_replayed_next(
        spec_gsi_legacy_start(arch),
        spec_used_legacy(arch, devices, acpi),
    )
    &&& id_freed(ra.gsi_legacy_allocator) == spec_replayed_freed(
        spec_gsi_legacy_start(arch),
        spec_used_legacy(arch, devices, acpi),
    )
    &&& id_base(ra.gsi_msi_allocator) == spec_gsi_msi_start(arch)
    &&& id_end(ra.gsi_msi_allocator) == spec_gsi_msi_end(arch)
    &&& id_next(ra.gsi_msi_allocator) == spec_replayed_next(
        spec_gsi_msi_start(arch),
        spec_used_msi(arch, devices),
    )
    &&& id_freed(ra.gsi_msi_allocator) == spec_replayed_freed(
        spec_gsi_msi_start(arch),
        spec_used_msi(arch, devices),
    )
    &&& addr_base(ra.mmio32_memory) == spec_mem_32bit_devices_start(arch)
    &&& addr_end(ra.mmio32_memory) == spec_mem32_window_end(arch)
    &&& addr_taken(ra.mmio32_memory) == spec_mmio_replay_taken(
        Set::empty(),
        spec_used_mmio32(arch, devices),
    )
    &&& addr_base(ra.mmio64_memory) == spec_mem_64bit_devices_start(arch)
    &&& addr_end(ra.mmio64_memory) == spec_mem_64bit_devices_start(arch)
        + spec_mem_64bit_devices_size(arch) - 1
    &&& addr_taken(ra.mmio64_memory) == Set::<u64>::empty()
    &&& addr_base(ra.past_mmio64_memory) == spec_first_addr_past_64bits_mmio(arch)
    &&& addr_end(ra.past_mmio64_memory) == spec_first_addr_past_64bits_mmio(arch)
        + spec_past_64bits_mmio_size(arch) - 1
    &&& addr_taken(ra.past_mmio64_memory) == Set::<u64>::empty()
    &&& addr_base(ra.system_memory) == spec_system_mem_start(arch)
    &&& addr_end(ra.system_memory) == spec_system_mem_end(arch)
}

/// What a successful reconstruction returns: the core above, with the
/// system-memory window holding exactly the VM-generation-id's slot.
pub open spec fn spec_reconstruct_post(
    arch: Arch,
    ra: ResourceAllocator,
    devices: schema_b::DeviceStates,
    acpi: schema_b::ACPIDeviceManagerState,
) -> bool {
    &&& spec_reconstruct_core(arch, ra, devices, acpi)
    &&& addr_taken(ra.system_memory) == (match acpi.vmgenid {
        Some(v) => addr_points(v.addr, (v.addr + VMGENID_MEM_SIZE - 1) as u64),
        None => Set::<u64>::empty(),
    })
}

/// The largest element of a non-empty id sequence is one of its elements
/// and bounds them all.
pub proof fn lemma_seq_max_u32(s: Seq<u32>)
    requires
        s.len() > 0,
    ensures
        s.contains(seq_max_u32(s)),
        forall|k: int| 0 <= k < s.len() ==> s[k] <= seq_max_u32(s),
    decreases s.len(),
{
    if s.len() == 1 {
        assert(s.contains(s[0]));
    } else {
        lemma_seq_max_u32(s.drop_last());
        let m = seq_max_u32(s);
        if s.last() >= seq_max_u32(s.drop_last()) {
            assert(s.contains(s.last()));
        } else {
            assert(s.drop_last().contains(m));
            let k = choose|k: int| 0 <= k < s.drop_last().len() && s.drop_last()[k] == m;
            assert(s[k] == m);
            assert(s.contains(m));
        }
        assert forall|k: int| 0 <= k < s.len() implies s[k] <= m by {
            if k < s.len() - 1 {
                assert(s.drop_last()[k] == s[k]);
            }
        }
    }
}

/// Whether the given id occurs in the vector.
fn used_contains(used: &Vec<u32>, id: u32) -> (r: bool)
    ensures
        r == used@.contains(id),
{
    let n = used.len();
    let mut i: usize = 0;
    while i < n
        invariant
            i <= n,
            n == used@.len(),
            forall|k: int| 0 <= k < i ==> used@[k] != id,
        decreases n - i,
    {
        if used[i] == id {
            return true;
        }
        i = i + 1;
    }
    false
}

/// Build a sequential-id allocator for `[start, end]` that has served
/// exactly the given used ids in increasing order: allocate every id up to
/// the largest used one (the allocator hands them out in exactly that
/// sequence), then free the gaps.
fn replay_id_allocator(start: u32, end: u32, used: &Vec<u32>) -> (r: Result<
    vm_allocator::IdAllocator,
    ConvertError,
>)
    requires
        start <= end,
        end < u32::MAX,
        forall|k: int| 0 <= k < used@.len() ==> start <= #[trigger] used@[k] <= end,
    ensures
        r is Ok,
        r matches Ok(a) ==> id_base(a) == start && id_end(a) == end && id_next(a)
            == spec_replayed_next(start, used@) && id_freed(a) == spec_replayed_freed(
            start,
            used@,
        ),
{
    let mut a = match id_alloc_new(start, end) {
        Ok(a) => a,
        Err(e) => {
            return Err(ConvertError::Allocator(e));
        },
    };
    if used.len() == 0 {
        return Ok(a);
    }

    let mut m: u32 = used[0];
    let n = used.len();
    proof {
        assert(used@.subrange(0, 1).drop_last() =~= Seq::<u32>::empty());
        assert(used@.subrange(0, 1).last() == used@[0]);
        assert(seq_max_u32(Seq::<u32>::empty()) == 0);
        assert(seq_max_u32(used@.subrange(0, 1)) == used@[0]);
    }
    let mut i: usize = 1;
    while i < n
        invariant
            1 <= i <= n,
            n == used@.len(),
            n > 0,
            m == seq_max_u32(used@.subrange(0, i as int)),
        decreases n - i,
    {
        let ghost pre = used@.subrange(0, i as int);
        if used[i] > m {
            m = used[i];
        }
        i = i + 1;
        proof {
            assert(used@.subrange(0, i as int).drop_last() =~= pre);
        }
    }
    proof {
        assert(used@.subrange(0, n as int) =~= used@);
        lemma_seq_max_u32(used@);
    }

    // Allocate every id from the range's start up to the largest used one;
    // the allocator hands them out in exactly this sequence.
    let mut id: u32 = start;
    while id <= m
        invariant
            start <= id <= m + 1,
            m == seq_max_u32(used@),
            start <= m <= end,
            end < u32::MAX,
            id_base(a) == start,
            id_end(a) == end,
            id_next(a) == Some(id),
            id_freed(a) == Set::<u32>::empty(),
        decreases m + 1 - id,
    {
        let got = match id_allocate(&mut a) {
            Ok(g) => g,
            Err(e) => {
                return Err(ConvertError::Allocator(e));
            },
        };
        assert(got == id);
        id = id + 1;
    }

    // Free every id in that range that is not in the used set.
    let mut id: u32 = start;
    while id <= m
        invariant
            start <= id <= m + 1,
            m == seq_max_u32(used@),
            start <= m <= end,
            end < u32::MAX,
            id_base(a) == start,
            id_end(a) == end,
            id_next(a) == Some((m + 1) as u32),
            id_freed(a) == Set::new(|x: u32| start <= x < id && !used@.contains(x)),
        decreases m + 1 - id,
    {
        if !used_contains(used, id) {
            let ghost pre = id_freed(a);
            match id_free(&mut a, id) {
                Ok(_) => {},
                Err(e) => {
                    return Err(ConvertError::Allocator(e));
                },
            }
            proof {
                assert(id_freed(a) =~= Set::new(
                    |x: u32| start <= x < id + 1 && !used@.contains(x),
                ));
            }
        } else {
            proof {
                assert(id_freed(a) =~= Set::new(
                    |x: u32| start <= x < id + 1 && !used@.contains(x),
                ));
            }
        }
        id = id + 1;
    }
    proof {
        assert(id_freed(a) =~= spec_replayed_freed(start, used@));
    }
    Ok(a)
}

/// Gather every device info of a middle-schema envelope in scan order.
fn collect_device_infos(device_states: &schema_b::DeviceStates) -> (infos: Vec<
    schema_b::MMIODeviceInfo,
>)
    ensures
        infos@ == spec_device_infos(*device_states),
{
    let mut infos: Vec<schema_b::MMIODeviceInfo> = Vec::new();

    let n_block = device_states.block_devices.len();
    let mut i: usize = 0;
    while i < n_block
        invariant
            i <= n_block,
            n_block == device_states.block_devices@.len(),
            infos@ == device_states.block_devices@.subrange(0, i as int).map_values(
                |d: schema_b::ConnectedBlockState| d.device_info,
            ),
        decreases n_block - i,
    {
        infos.push(device_states.block_devices[i].device_info);
        i = i + 1;
        proof {
            assert(infos@ =~= device_states.block_devices@.subrange(0, i as int).map_values(
                |d: schema_b::ConnectedBlockState| d.device_info,
            ));
        }
    }
    proof {
        assert(device_states.block_devices@.subrange(0, n_block as int)
            =~= device_states.block_devices@);
    }
    let ghost blocks_part = device_states.block_devices@.map_values(
        |d: schema_b::ConnectedBlockState| d.device_info,
    );

    let n_net = device_states.net_devices.len();
    let mut i: usize = 0;
    while i < n_net
        invariant
            i <= n_net,
            n_net == device_states.net_devices@.len(),
            infos@ == blocks_part + device_states.net_devices@.subrange(0, i as int).map_values(
                |d: schema_b::ConnectedNetState| d.device_info,
            ),
        decreases n_net - i,
    {
        infos.push(device_states.net_devices[i].device_info);
        i = i + 1;
        proof {
            assert(infos@ =~= blocks_part + device_states.net_devices@.subrange(
                0,
                i as int,
            ).map_values(|d: schema_b::ConnectedNetState| d.device_info));
        }
    }
    proof {
        assert(device_states.net_devices@.subrange(0, n_net as int)
            =~= device_states.net_devices@);
    }
    let ghost net_part = blocks_part + device_states.net_devices@.map_values(
        |d: schema_b::ConnectedNetState| d.device_info,
    );

    match &device_states.vsock_device {
        Some(d) => {
            infos.push(d.device_info);
        },
        None => {},
    }
    let ghost vsock_part = net_part + spec_opt_vsock_info(device_states.vsock_device);
    proof {
        assert(infos@ =~= vsock_part);
    }

    match &device_states.balloon_device {
        Some(d) => {
            infos.push(d.device_info);
        },
        None => {},
    }
    let ghost balloon_part = vsock_part + spec_opt_balloon_info(device_states.balloon_device);
    proof {
        assert(infos@ =~= balloon_part);
    }

    match &device_states.entropy_device {
        Some(d) => {
            infos.push(d.device_info);
        },
        None => {},
    }
    let ghost entropy_part = balloon_part + spec_opt_entropy_info(device_states.entropy_device);
    proof {
        assert(infos@ =~= entropy_part);
    }

    let n_legacy = device_states.legacy_devices.len();
    let mut i: usize = 0;
    while i < n_legacy
        invariant
            i <= n_legacy,
            n_legacy == device_states.legacy_devices@.len(),
            infos@ == entropy_part + device_states.legacy_devices@.subrange(
                0,
                i as int,
            ).map_values(|d: schema_b::ConnectedLegacyState| d.device_info),
        decreases n_legacy - i,
    {
        infos.push(device_states.legacy_devices[i].device_info);
        i = i + 1;
        proof {
            assert(infos@ =~= entropy_part + device_states.legacy_devices@.subrange(
                0,
                i as int,
            ).map_values(|d: schema_b::ConnectedLegacyState| d.device_info));
        }
    }
    proof {
        assert(device_states.legacy_devices@.subrange(0, n_legacy as int)
            =~= device_states.legacy_devices@);
        assert(infos@ =~= spec_device_infos(*device_states));
    }
    infos
}

/// Classify every persisted interrupt into the legacy or message-signalled
/// GSI range and record the MMIO ranges inside the 32-bit window.  Returns
/// the used legacy GSIs (including the VM-generation-id's), the used
/// message-signalled GSIs, and the recorded MMIO ranges, in scan order.
fn collect_used(
    arch: Arch,
    device_states: &schema_b::DeviceStates,
    acpi_state: &schema_b::ACPIDeviceManagerState,
) -> (r: (Vec<u32>, Vec<u32>, Vec<(u64, u64)>))
    ensures
        r.0@ == spec_used_legacy(arch, *device_states, *acpi_state),
        r.1@ == spec_used_msi(arch, *device_states),
        r.2@ == spec_used_mmio32(arch, *device_states),
        forall|k: int|
            0 <= k < r.0@.len() ==> spec_gsi_legacy_start(arch) <= #[trigger] r.0@[k]
                <= spec_gsi_legacy_end(arch),
        forall|k: int|
            0 <= k < r.1@.len() ==> spec_gsi_msi_start(arch) <= #[trigger] r.1@[k]
                <= spec_gsi_msi_end(arch),
{
    let infos = collect_device_infos(device_states);
    let ghost all = spec_device_infos(*device_states);

    let mut used_legacy: Vec<u32> = Vec::new();
    let mut used_msi: Vec<u32> = Vec::new();
    let mut used_mmio32: Vec<(u64, u64)> = Vec::new();

    let n = infos.len();
    let mut i: usize = 0;
    while i < n
        invariant
            i <= n,
            n == infos@.len(),
            infos@ == all,
            used_legacy@ == spec_legacy_gsis(arch, all.subrange(0, i as int)),
            used_msi@ == spec_msi_gsis(arch, all.subrange(0, i as int)),
            used_mmio32@ == spec_mmio32_ranges(arch, all.subrange(0, i as int)),
            forall|k: int|
                0 <= k < used_legacy@.len() ==> spec_gsi_legacy_start(arch)
                    <= #[trigger] used_legacy@[k] <= spec_gsi_legacy_end(arch),
            forall|k: int|
                0 <= k < used_msi@.len() ==> spec_gsi_msi_start(arch) <= #[trigger] used_msi@[k]
                    <= spec_gsi_msi_end(arch),
        decreases n - i,
    {
        let ghost pre = all.subrange(0, i as int);
        let info = infos[i];
        match info.irq {
            Some(irq) => {
                let gsi = irq_to_gsi(arch, irq);
                if gsi_legacy_start(arch) <= gsi && gsi <= gsi_legacy_end(arch) {
                    used_legacy.push(gsi);
                } else if gsi_msi_start(arch) <= gsi && gsi <= gsi_msi_end(arch) {
                    used_msi.push(gsi);
                }
            },
            None => {},
        }
        if info.addr >= mem_32bit_devices_start(arch) {
            used_mmio32.push((info.addr, info.len));
        }
        i = i + 1;
        proof {
            assert(all.subrange(0, i as int).drop_last() =~= pre);
            assert(all.subrange(0, i as int).last() == info);
            assert(used_legacy@ =~= spec_legacy_gsis(arch, all.subrange(0, i as int)));
            assert(used_msi@ =~= spec_msi_gsis(arch, all.subrange(0, i as int)));
            assert(used_mmio32@ =~= spec_mmio32_ranges(arch, all.subrange(0, i as int)));
        }
    }
    proof {
        assert(all.subrange(0, n as int) =~= all);
    }

    // The VM-generation-id's interrupt also occupies a legacy GSI.
    match &acpi_state.vmgenid {
        Some(v) => {
            let gsi = irq_to_gsi(arch, v.gsi);
            if gsi_legacy_start(arch) <= gsi && gsi <= gsi_legacy_end(arch) {
                used_legacy.push(gsi);
            }
        },
        None => {},
    }
    proof {
        assert(used_legacy@ =~= spec_used_legacy(arch, *device_states, *acpi_state));
    }

    (used_legacy, used_msi, used_mmio32)
}

/// Whether the next recorded range can be reserved: its slot (and the
/// probe address one past its start) lies inside the window and meets no
/// previously reserved range.
fn mmio32_slot_free(used_mmio32: &Vec<(u64, u64)>, j: usize, wbase: u64, wend: u64) -> (r: bool)
    requires
        j < used_mmio32@.len(),
        spec_mmio_replay_ok(Set::empty(), wbase, wend, used_mmio32@.subrange(0, j as int)),
    ensures
        r == exact_request_ok(
            spec_mmio_replay_taken(Set::empty(), used_mmio32@.subrange(0, j as int)),
            wbase,
            wend,
            used_mmio32@[j as int].1,
            1,
            used_mmio32@[j as int].0,
        ),
{
    let ghost prefix = used_mmio32@.subrange(0, j as int);
    let ghost taken = spec_mmio_replay_taken(Set::<u64>::empty(), prefix);
    proof {
        assert(is_power_of_two(1int));
    }
    let (addr, len) = used_mmio32[j];

    if len < 1 {
        return false;
    }
    if addr < wbase || addr > wend {
        return false;
    }
    if len - 1 > wend - addr {
        return false;
    }
    if !(addr < wend) {
        return false;
    }
    // The slot together with the probe address one past its start.
    let hi = if len >= 2 {
        addr + (len - 1)
    } else {
        addr + 1
    };

    let mut conflict = false;
    let mut i: usize = 0;
    while i < j
        invariant
            i <= j,
            j < used_mmio32@.len(),
            prefix == used_mmio32@.subrange(0, j as int),
            spec_mmio_replay_ok(Set::empty(), wbase, wend, prefix),
            (addr, len) == used_mmio32@[j as int],
            len >= 1,
            addr + len - 1 <= wend,
            addr + 1 <= wend,
            hi == (if len >= 2 {
                (addr + len - 1) as u64
            } else {
                (addr + 1) as u64
            }),
            conflict == exists|k: int|
                0 <= k < i && pair_overlaps(#[trigger] used_mmio32@[k], addr, hi),
        decreases j - i,
    {
        proof {
            assert(prefix[i as int] == used_mmio32@[i as int]);
            lemma_replay_ok_pair_fits(Set::empty(), wbase, wend, prefix, i as int);
        }
        let (a2, l2) = used_mmio32[i];
        if !(hi < a2 || a2 + (l2 - 1) < addr) {
            conflict = true;
            proof {
                assert(pair_overlaps(used_mmio32@[i as int], addr, hi));
            }
        }
        i = i + 1;
    }

    if conflict {
        proof {
            // A reserved range meets the slot, so one of its addresses —
            // the larger of the two starts — is already taken.
            let k = choose|k: int|
                0 <= k < j && pair_overlaps(#[trigger] used_mmio32@[k], addr, hi);
            lemma_replay_ok_pair_fits(Set::empty(), wbase, wend, prefix, k);
            let a2 = prefix[k].0;
            let p: u64 = if addr >= a2 {
                addr
            } else {
                a2
            };
            assert(pair_covers(prefix[k], p));
            assert(addr <= p <= hi);
            lemma_replay_taken_covers(Set::empty(), wbase, wend, prefix, k, p);
            assert(taken.contains(p));
            assert(!exact_fit(taken, wbase, wend, len, addr));
        }
        false
    } else {
        proof {
            assert forall|p: u64| addr <= p <= hi implies !taken.contains(p) by {
                if taken.contains(p) {
                    lemma_replay_taken_origin(Set::empty(), prefix, p);
                    let k = choose|k: int|
                        0 <= k < prefix.len() && pair_covers(#[trigger] prefix[k], p);
                    assert(pair_overlaps(used_mmio32@[k], addr, hi));
                }
            }
            assert(exact_fit(taken, wbase, wend, len, addr));
        }
        true
    }
}

/// Build the 32-bit MMIO window's allocator and reserve every recorded
/// range with exact placement.  Each range is first checked against the
/// window and against everything reserved before it; a collision means two
/// devices claim overlapping MMIO, and the error carries the first
/// colliding address.
fn replay_mmio32(arch: Arch, used_mmio32: &Vec<(u64, u64)>) -> (r: Result<
    vm_allocator::AddressAllocator,
    ConvertError,
>)
    ensures
        (r is Ok) == spec_mmio_replay_ok(
            Set::empty(),
            spec_mem_32bit_devices_start(arch),
            spec_mem32_window_end(arch),
            used_mmio32@,
        ),
        r matches Ok(a) ==> addr_base(a) == spec_mem_32bit_devices_start(arch) && addr_end(a)
            == spec_mem32_window_end(arch) && addr_taken(a) == spec_mmio_replay_taken(
            Set::empty(),
            used_mmio32@,
        ),
        r is Err ==> r->Err_0 == ConvertError::DuplicateAddress(
            spec_mmio_first_bad(
                Set::empty(),
                spec_mem_32bit_devices_start(arch),
                spec_mem32_window_end(arch),
                used_mmio32@,
            ),
        ),
{
    let wbase = mem_32bit_devices_start(arch);
    let mut mmio32 = match addr_alloc_new(wbase, mem_32bit_devices_size(arch)) {
        Ok(a) => a,
        Err(e) => {
            return Err(ConvertError::Allocator(e));
        },
    };
    let wend = wbase + (mem_32bit_devices_size(arch) - 1);

    let ghost pairs = used_mmio32@;
    let n_pairs = used_mmio32.len();
    let mut j: usize = 0;
    proof {
        assert(pairs.subrange(0, 0) =~= Seq::<(u64, u64)>::empty());
    }
    while j < n_pairs
        invariant
            j <= n_pairs,
            n_pairs == used_mmio32@.len(),
            used_mmio32@ == pairs,
            wbase == spec_mem_32bit_devices_start(arch),
            wend == spec_mem32_window_end(arch),
            addr_base(mmio32) == spec_mem_32bit_devices_start(arch),
            addr_end(mmio32) == spec_mem32_window_end(arch),
            spec_mmio_replay_ok(Set::empty(), wbase, wend, pairs.subrange(0, j as int)),
            addr_taken(mmio32) == spec_mmio_replay_taken(
                Set::empty(),
                pairs.subrange(0, j as int),
            ),
        decreases n_pairs - j,
    {
        let (addr, len) = used_mmio32[j];
        let slot_free = mmio32_slot_free(used_mmio32, j, wbase, wend);
        if !slot_free {
            proof {
                lemma_replay_prefix_fail(Set::empty(), wbase, wend, pairs, j as int);
            }
            return Err(ConvertError::DuplicateAddress(addr));
        }
        proof {
            assert(wend < u64::MAX);
        }
        match addr_allocate_exact(&mut mmio32, len, 1, addr) {
            Ok(_) => {},
            Err(_) => {
                return Err(ConvertError::DuplicateAddress(addr));
            },
        }
        proof {
            lemma_replay_ok_snoc(Set::empty(), wbase, wend, pairs, j as int);
        }
        j = j + 1;
    }
    proof {
        assert(pairs.subrange(0, n_pairs as int) =~= pairs);
    }
    Ok(mmio32)
}

/// Build the ACPI system-memory window's allocator and reserve the
/// VM-generation-id's slot, if the record is present, so that the VM clock
/// synthesized later lands below it.  The slot is first checked against
/// the window; a record that does not fit fails with its own address.
fn reserve_vmgenid(arch: Arch, acpi_state: &schema_b::ACPIDeviceManagerState) -> (r: Result<
    vm_allocator::AddressAllocator,
    ConvertError,
>)
    ensures
        (r is Ok) == spec_vmgenid_fit(arch, *acpi_state),
        r matches Ok(a) ==> addr_base(a) == spec_system_mem_start(arch) && addr_end(a)
            == spec_system_mem_end(arch) && addr_taken(a) == (match acpi_state.vmgenid {
            Some(v) => addr_points(v.addr, (v.addr + VMGENID_MEM_SIZE - 1) as u64),
            None => Set::<u64>::empty(),
        }),
        r is Err ==> acpi_state.vmgenid is Some && r->Err_0 == ConvertError::DuplicateAddress(
            acpi_state.vmgenid->Some_0.addr,
        ),
{
    let sbase = system_mem_start(arch);
    let mut system_mem = match addr_alloc_new(sbase, system_mem_size(arch)) {
        Ok(a) => a,
        Err(e) => {
            return Err(ConvertError::Allocator(e));
        },
    };
    let send = sbase + (system_mem_size(arch) - 1);
    match &acpi_state.vmgenid {
        Some(v) => {
            proof {
                assert(is_power_of_two(1int));
                assert(is_power_of_two(2int));
                assert(is_power_of_two(4int));
                assert(is_power_of_two(8int));
            }
            let fits = v.addr % VMGENID_MEM_ALIGN == 0 && v.addr >= sbase && v.addr <= send
                && VMGENID_MEM_SIZE - 1 <= send - v.addr;
            if !fits {
                return Err(ConvertError::DuplicateAddress(v.addr));
            }
            match addr_allocate_exact(&mut system_mem, VMGENID_MEM_SIZE, VMGENID_MEM_ALIGN, v.addr) {
                Ok(_) => {
                    proof {
                        assert(addr_taken(system_mem) =~= addr_points(
                            v.addr,
                            (v.addr + VMGENID_MEM_SIZE - 1) as u64,
                        ));
                    }
                },
                Err(_) => {
                    return Err(ConvertError::DuplicateAddress(v.addr));
                },
            }
        },
        None => {},
    }
    Ok(system_mem)
}

impl ResourceAllocator {

    /// Whether the given legacy GSI is currently allocated.
    pub fn legacy_gsi_is_allocated(&self, gsi: u32) -> (r: bool)
        ensures
            r == id_is_allocated_model(self.gsi_legacy_allocator, gsi),
    {
        id_is_allocated(&self.gsi_legacy_allocator, gsi)
    }

    /// Whether the given message-signalled GSI is currently allocated.
    pub fn msi_gsi_is_allocated(&self, gsi: u32) -> (r: bool)
        ensures
            r == id_is_allocated_model(self.gsi_msi_allocator, gsi),
    {
        id_is_allocated(&self.gsi_msi_allocator, gsi)
    }

    /// Hand out the next free legacy GSI: the smallest freed one if any,
    /// else the next never-allocated one while the range lasts.  What comes
    /// back is a function of the allocator's model state alone, which is
    /// what makes the reconstructed allocator's future allocations match a
    /// cold-started monitor's.
    pub fn allocate_legacy_gsi(&mut self) -> (r: Result<u32, AllocError>)
        ensures
            id_allocate_post(
                old(self).gsi_legacy_allocator,
                final(self).gsi_legacy_allocator,
                r,
            ),
            final(self).gsi_msi_allocator == old(self).gsi_msi_allocator,
            final(self).mmio32_memory == old(self).mmio32_memory,
            final(self).mmio64_memory == old(self).mmio64_memory,
            final(self).past_mmio64_memory == old(self).past_mmio64_memory,
            final(self).system_memory == old(self).system_memory,
    {
        id_allocate(&mut self.gsi_legacy_allocator)
    }

    /// Reconstruct the current schema's resource allocators from the device
    /// records a middle-schema envelope persists.
    ///
    /// Every persisted device info and the VM-generation-id record are
    /// scanned: interrupt numbers are renumbered to GSIs and classified
    /// into the legacy and message-signalled ranges, and MMIO ranges at or
    /// above the 32-bit window's start are remembered.  The GSI allocators
    /// replay their used ids in increasing order; the MMIO ranges and the
    /// VM-generation-id's slot are reserved with exact placement, failing
    /// with `DuplicateAddress` on collision.
    pub fn reconstruct(
        arch: Arch,
        device_states: &schema_b::DeviceStates,
        acpi_state: &schema_b::ACPIDeviceManagerState,
    ) -> (r: Result<ResourceAllocator, ConvertError>)
        ensures
            (r is Ok) == spec_reconstruct_ok(arch, *device_states, *acpi_state),
            r matches Ok(ra) ==> spec_reconstruct_post(arch, ra, *device_states, *acpi_state),
            !spec_mmio_replay_ok(
                Set::empty(),
                spec_mem_32bit_devices_start(arch),
                spec_mem32_window_end(arch),
                spec_used_mmio32(arch, *device_states),
            ) ==> (r is Err && r->Err_0 == ConvertError::DuplicateAddress(
                spec_mmio_first_bad(
                    Set::empty(),
                    spec_mem_32bit_devices_start(arch),
                    spec_mem32_window_end(arch),
                    spec_used_mmio32(arch, *device_states),
                ),
            )),
            spec_mmio_replay_ok(
                Set::empty(),
                spec_mem_32bit_devices_start(arch),
                spec_mem32_window_end(arch),
                spec_used_mmio32(arch, *device_states),
            ) && !spec_vmgenid_fit(arch, *acpi_state) ==> (r is Err && r->Err_0
                == ConvertError::DuplicateAddress(acpi_state.vmgenid->Some_0.addr)),
    {
        let (used_legacy, used_msi, used_mmio32) = collect_used(arch, device_states, acpi_state);

        // The GSI replays and the window creations below cannot fail: their
        // contracts guarantee success for the fixed per-architecture ranges,
        // so their error arms are unreachable.
        let gsi_legacy = match replay_id_allocator(
            gsi_legacy_start(arch),
            gsi_legacy_end(arch),
            &used_legacy,
        ) {
            Ok(a) => a,
            Err(e) => {
                return Err(e);
            },
        };
        let gsi_msi = match replay_id_allocator(
            gsi_msi_start(arch),
            gsi_msi_end(arch),
            &used_msi,
        ) {
            Ok(a) => a,
            Err(e) => {
                return Err(e);
            },
        };

        let mmio32 = match replay_mmio32(arch, &used_mmio32) {
            Ok(a) => a,
            Err(e) => {
                return Err(e);
            },
        };

        let mmio64 = match addr_alloc_new(
            mem_64bit_devices_start(arch),
            mem_64bit_devices_size(arch),
        ) {
            Ok(a) => a,
            Err(e) => {
                return Err(ConvertError::Allocator(e));
            },
        };
        let past_mmio64 = match addr_alloc_new(
            first_addr_past_64bits_mmio(arch),
            past_64bits_mmio_size(arch),
        ) {
            Ok(a) => a,
            Err(e) => {
                return Err(ConvertError::Allocator(e));
            },
        };

        let system_mem = match reserve_vmgenid(arch, acpi_state) {
            Ok(a) => a,
            Err(e) => {
                return Err(e);
            },
        };

        Ok(
            ResourceAllocator {
                gsi_legacy_allocator: gsi_legacy,
                gsi_msi_allocator: gsi_msi,
                mmio32_memory: mmio32,
                mmio64_memory: mmio64,
                past_mmio64_memory: past_mmio64,
                system_memory: system_mem,
            },
        )
    }
}

} // verus!
