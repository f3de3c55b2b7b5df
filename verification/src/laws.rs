//! Laws the library states about the migration as a whole, beyond the
//! contracts of the individual functions.

use crate::alloc_ffi::{
    addr_taken, aligned_fit, id_allocate_post, id_base, id_end, id_freed, id_is_allocated_model,
    id_next,
};
use crate::arch::{
    spec_gsi_legacy_end, spec_gsi_legacy_start, spec_gsi_msi_end, spec_gsi_msi_start,
    spec_irq_to_gsi, spec_mem_32bit_devices_start, spec_spi_start, spec_system_mem_start, Arch,
    VMGENID_MEM_SIZE,
};
use crate::resources::spec_system_mem_end;
use crate::convert_bc::{acpi_c_from_b, microvm_c_from_b, spec_convert_b_ok, spec_genid_points};
use crate::resources::{
    lemma_replay_ok_pair_fits, lemma_replay_taken_covers, lemma_seq_max_u32, pair_covers,
    seq_max_u32, spec_legacy_gsi_of, spec_legacy_gsis, spec_mmio32_range_of, spec_mmio32_ranges,
    spec_mmio_replay_ok, spec_msi_gsi_of, spec_msi_gsis, spec_replayed_freed, spec_replayed_next,
    spec_used_legacy, spec_used_mmio32, spec_used_msi, spec_device_infos,
};
use crate::schema_b;
use crate::schema_c;
use crate::schema_c::VMCLOCK_SIZE;
use vstd::prelude::*;

verus! {

/// Every legacy GSI a device-info sequence contributes lies in the legacy
/// range.
proof fn lemma_legacy_gsis_bounds(arch: Arch, infos: Seq<schema_b::MMIODeviceInfo>)
    ensures
        forall|i: int|
            0 <= i < spec_legacy_gsis(arch, infos).len() ==> spec_gsi_legacy_start(arch)
                <= #[trigger] spec_legacy_gsis(arch, infos)[i] <= spec_gsi_legacy_end(arch),
    decreases infos.len(),
{
    if infos.len() > 0 {
        lemma_legacy_gsis_bounds(arch, infos.drop_last());
        let prefix = spec_legacy_gsis(arch, infos.drop_last());
        let tail_part = spec_legacy_gsi_of(arch, infos.last());
        assert forall|i: int|
            0 <= i < spec_legacy_gsis(arch, infos).len() implies spec_gsi_legacy_start(arch)
            <= #[trigger] spec_legacy_gsis(arch, infos)[i] <= spec_gsi_legacy_end(arch) by {
            if i < prefix.len() {
                assert(spec_legacy_gsis(arch, infos)[i] == prefix[i]);
            } else {
                assert(spec_legacy_gsis(arch, infos)[i] == tail_part[i - prefix.len()]);
            }
        }
    }
}

/// Every message-signalled GSI a device-info sequence contributes lies in
/// the message-signalled range.
proof fn lemma_msi_gsis_bounds(arch: Arch, infos: Seq<schema_b::MMIODeviceInfo>)
    ensures
        forall|i: int|
            0 <= i < spec_msi_gsis(arch, infos).len() ==> spec_gsi_msi_start(arch)
                <= #[trigger] spec_msi_gsis(arch, infos)[i] <= spec_gsi_msi_end(arch),
    decreases infos.len(),
{
    if infos.len() > 0 {
        lemma_msi_gsis_bounds(arch, infos.drop_last());
        let prefix = spec_msi_gsis(arch, infos.drop_last());
        let tail_part = spec_msi_gsi_of(arch, infos.last());
        assert forall|i: int|
            0 <= i < spec_msi_gsis(arch, infos).len() implies spec_gsi_msi_start(arch)
            <= #[trigger] spec_msi_gsis(arch, infos)[i] <= spec_gsi_msi_end(arch) by {
            if i < prefix.len() {
                assert(spec_msi_gsis(arch, infos)[i] == prefix[i]);
            } else {
                assert(spec_msi_gsis(arch, infos)[i] == tail_part[i - prefix.len()]);
            }
        }
    }
}

/// A device info whose interrupt renumbers into the legacy range has that
/// GSI among the sequence's legacy contributions.
proof fn lemma_legacy_gsis_contains(arch: Arch, infos: Seq<schema_b::MMIODeviceInfo>, k: int)
    requires
        0 <= k < infos.len(),
        infos[k].irq is Some,
        spec_gsi_legacy_start(arch) <= spec_irq_to_gsi(arch, infos[k].irq->Some_0)
            <= spec_gsi_legacy_end(arch),
    ensures
        spec_legacy_gsis(arch, infos).contains(spec_irq_to_gsi(arch, infos[k].irq->Some_0)),
    decreases infos.len(),
{
    let gsi = spec_irq_to_gsi(arch, infos[k].irq->Some_0);
    if k == infos.len() - 1 {
        let prefix = spec_legacy_gsis(arch, infos.drop_last());
        assert(infos.last() == infos[k]);
        assert(spec_legacy_gsi_of(arch, infos[k])[0] == gsi);
        assert(spec_legacy_gsis(arch, infos)[prefix.len() as int] == gsi);
    } else {
        lemma_legacy_gsis_contains(arch, infos.drop_last(), k);
        let prefix = spec_legacy_gsis(arch, infos.drop_last());
        let i = choose|i: int| 0 <= i < prefix.len() && prefix[i] == gsi;
        assert(spec_legacy_gsis(arch, infos)[i] == gsi);
    }
}

/// A device info whose interrupt renumbers outside the legacy range but
/// into the message-signalled range has that GSI among the sequence's
/// message-signalled contributions.
proof fn lemma_msi_gsis_contains(arch: Arch, infos: Seq<schema_b::MMIODeviceInfo>, k: int)
    requires
        0 <= k < infos.len(),
        infos[k].irq is Some,
        !(spec_gsi_legacy_start(arch) <= spec_irq_to_gsi(arch, infos[k].irq->Some_0)
            <= spec_gsi_legacy_end(arch)),
        spec_gsi_msi_start(arch) <= spec_irq_to_gsi(arch, infos[k].irq->Some_0)
            <= spec_gsi_msi_end(arch),
    ensures
        spec_msi_gsis(arch, infos).contains(spec_irq_to_gsi(arch, infos[k].irq->Some_0)),
    decreases infos.len(),
{
    let gsi = spec_irq_to_gsi(arch, infos[k].irq->Some_0);
    if k == infos.len() - 1 {
        let prefix = spec_msi_gsis(arch, infos.drop_last());
        assert(infos.last() == infos[k]);
        assert(spec_msi_gsi_of(arch, infos[k])[0] == gsi);
        assert(spec_msi_gsis(arch, infos)[prefix.len() as int] == gsi);
    } else {
        lemma_msi_gsis_contains(arch, infos.drop_last(), k);
        let prefix = spec_msi_gsis(arch, infos.drop_last());
        let i = choose|i: int| 0 <= i < prefix.len() && prefix[i] == gsi;
        assert(spec_msi_gsis(arch, infos)[i] == gsi);
    }
}

/// A device info whose MMIO address lies in the 32-bit window has its
/// range among the sequence's recorded ranges.
proof fn lemma_mmio32_ranges_contains(arch: Arch, infos: Seq<schema_b::MMIODeviceInfo>, k: int)
    requires
        0 <= k < infos.len(),
        infos[k].addr >= spec_mem_32bit_devices_start(arch),
    ensures
        spec_mmio32_ranges(arch, infos).contains((infos[k].addr, infos[k].len)),
    decreases infos.len(),
{
    let pair = (infos[k].addr, infos[k].len);
    if k == infos.len() - 1 {
        let prefix = spec_mmio32_ranges(arch, infos.drop_last());
        assert(infos.last() == infos[k]);
        assert(spec_mmio32_range_of(arch, infos[k])[0] == pair);
        assert(spec_mmio32_ranges(arch, infos)[prefix.len() as int] == pair);
    } else {
        lemma_mmio32_ranges_contains(arch, infos.drop_last(), k);
        let prefix = spec_mmio32_ranges(arch, infos.drop_last());
        let i = choose|i: int| 0 <= i < prefix.len() && prefix[i] == pair;
        assert(spec_mmio32_ranges(arch, infos)[i] == pair);
    }
}

/// An id among the used ids of a replayed sequential allocator is reported
/// allocated by it.
proof fn lemma_replayed_id_allocated(start: u32, end: u32, used: Seq<u32>, a: vm_allocator::IdAllocator, gsi: u32)
    requires
        used.contains(gsi),
        forall|i: int| 0 <= i < used.len() ==> start <= #[trigger] used[i] <= end,
        end < u32::MAX,
        id_base(a) == start,
        id_end(a) == end,
        id_next(a) == spec_replayed_next(start, used),
        id_freed(a) == spec_replayed_freed(start, used),
    ensures
        id_is_allocated_model(a, gsi),
{
    lemma_seq_max_u32(used);
    let m = seq_max_u32(used);
    let i = choose|i: int| 0 <= i < used.len() && used[i] == gsi;
    assert(gsi <= m);
    assert(m <= end);
}

/// Allocator consistency: for every device record of a successfully
/// converted middle-schema envelope, the interrupt that was renumbered
/// into the legacy (or message-signalled) GSI range is reported allocated
/// by the matching GSI allocator of the output's resource allocator, and
/// every address of an MMIO range inside the 32-bit window is taken in
/// that window's allocator.  The converted device info carries exactly the
/// renumbered GSI, so this covers every `gsi` the output reports.
pub proof fn lemma_allocator_consistency(
    arch: Arch,
    b: schema_b::MicrovmState,
    out: schema_c::MicrovmState,
    k: int,
)
    requires
        spec_convert_b_ok(arch, b),
        microvm_c_from_b(arch, out, b),
        0 <= k < spec_device_infos(b.device_states).len(),
    ensures
        ({
            let info = spec_device_infos(b.device_states)[k];
            let ra = out.vm_state.resource_allocator;
            &&& (info.irq matches Some(irq) ==> {
                let gsi = spec_irq_to_gsi(arch, irq);
                &&& (spec_gsi_legacy_start(arch) <= gsi <= spec_gsi_legacy_end(arch)
                    ==> id_is_allocated_model(ra.gsi_legacy_allocator, gsi))
                &&& (!(spec_gsi_legacy_start(arch) <= gsi <= spec_gsi_legacy_end(arch))
                    && spec_gsi_msi_start(arch) <= gsi <= spec_gsi_msi_end(arch)
                    ==> id_is_allocated_model(ra.gsi_msi_allocator, gsi))
            })
            &&& (info.addr >= spec_mem_32bit_devices_start(arch) && info.len >= 1 ==> forall|
                p: u64,
            |
                info.addr <= p <= info.addr + info.len - 1 ==> addr_taken(
                    ra.mmio32_memory,
                ).contains(p))
        }),
{
    let infos = spec_device_infos(b.device_states);
    let info = infos[k];
    let ra = out.vm_state.resource_allocator;
    let used_l = spec_used_legacy(arch, b.device_states, b.acpi_dev_state);
    let used_m = spec_used_msi(arch, b.device_states);
    let pairs = spec_used_mmio32(arch, b.device_states);

    match info.irq {
        Some(irq) => {
            let gsi = spec_irq_to_gsi(arch, irq);
            if spec_gsi_legacy_start(arch) <= gsi <= spec_gsi_legacy_end(arch) {
                lemma_legacy_gsis_contains(arch, infos, k);
                let dev_l = spec_legacy_gsis(arch, infos);
                let i = choose|i: int| 0 <= i < dev_l.len() && dev_l[i] == gsi;
                assert(used_l[i] == gsi);
                assert(used_l.contains(gsi));
                lemma_legacy_gsis_bounds(arch, infos);
                assert forall|j: int| 0 <= j < used_l.len() implies spec_gsi_legacy_start(arch)
                    <= #[trigger] used_l[j] <= spec_gsi_legacy_end(arch) by {
                    if j < dev_l.len() {
                        assert(used_l[j] == dev_l[j]);
                    }
                }
                lemma_replayed_id_allocated(
                    spec_gsi_legacy_start(arch),
                    spec_gsi_legacy_end(arch),
                    used_l,
                    ra.gsi_legacy_allocator,
                    gsi,
                );
            } else if spec_gsi_msi_start(arch) <= gsi <= spec_gsi_msi_end(arch) {
                lemma_msi_gsis_contains(arch, infos, k);
                lemma_msi_gsis_bounds(arch, infos);
                lemma_replayed_id_allocated(
                    spec_gsi_msi_start(arch),
                    spec_gsi_msi_end(arch),
                    used_m,
                    ra.gsi_msi_allocator,
                    gsi,
                );
            }
        },
        None => {},
    }

    if info.addr >= spec_mem_32bit_devices_start(arch) && info.len >= 1 {
        lemma_mmio32_ranges_contains(arch, infos, k);
        let i = choose|i: int| 0 <= i < pairs.len() && pairs[i] == (info.addr, info.len);
        assert forall|p: u64|
            info.addr <= p <= info.addr + info.len - 1 implies addr_taken(
            ra.mmio32_memory,
        ).contains(p) by {
            lemma_replay_ok_pair_fits(
                Set::empty(),
                spec_mem_32bit_devices_start(arch),
                crate::resources::spec_mem32_window_end(arch),
                pairs,
                i,
            );
            assert(pair_covers(pairs[i], p));
            lemma_replay_taken_covers(
                Set::empty(),
                spec_mem_32bit_devices_start(arch),
                crate::resources::spec_mem32_window_end(arch),
                pairs,
                i,
                p,
            );
        }
    }
}

/// Cold-start parity: what a sequential-id allocator hands out next, and
/// the model state it is left in, are functions of its model state alone.
/// Two allocators with equal models — for instance the reconstructed
/// legacy-GSI allocator and a cold monitor's allocator that served the
/// same ids in increasing order, which the reconstruction contract states
/// is the reconstructed allocator's exact state — return the same id, and
/// their models agree again afterwards, so the equality extends to every
/// later allocation in turn.
pub proof fn lemma_cold_start_parity(
    pre1: vm_allocator::IdAllocator,
    post1: vm_allocator::IdAllocator,
    r1: Result<u32, crate::alloc_ffi::AllocError>,
    pre2: vm_allocator::IdAllocator,
    post2: vm_allocator::IdAllocator,
    r2: Result<u32, crate::alloc_ffi::AllocError>,
)
    requires
        id_base(pre1) == id_base(pre2),
        id_end(pre1) == id_end(pre2),
        id_next(pre1) == id_next(pre2),
        id_freed(pre1) == id_freed(pre2),
        id_allocate_post(pre1, post1, r1),
        id_allocate_post(pre2, post2, r2),
    ensures
        r1 == r2,
        id_base(post1) == id_base(post2),
        id_end(post1) == id_end(post2),
        id_next(post1) == id_next(post2),
        id_freed(post1) == id_freed(post2),
{
    if id_freed(pre1) != Set::<u32>::empty() {
        let m1 = r1->Ok_0;
        let m2 = r2->Ok_0;
        assert(m1 <= m2);
        assert(m2 <= m1);
    }
}

/// A run of a sequential-id allocator: `states` holds the allocator value
/// before and after each allocation, `results` what each allocation
/// returned, with every step bound by the allocation contract.
pub open spec fn id_alloc_trace(
    states: Seq<vm_allocator::IdAllocator>,
    results: Seq<Result<u32, crate::alloc_ffi::AllocError>>,
) -> bool {
    &&& states.len() == results.len() + 1
    &&& forall|i: int|
        0 <= i < results.len() ==> id_allocate_post(states[i], states[i + 1], #[trigger] results[i])
}

/// Cold-start parity over a whole run: two allocators whose models agree
/// — such as the reconstructed legacy-GSI allocator and a cold one that
/// served the same ids in increasing order, which the reconstruction
/// contract states is the reconstructed allocator's exact model state —
/// return the same id at each of the next `k` allocations, and their
/// models agree again after every step.
pub proof fn lemma_cold_start_parity_run(
    states1: Seq<vm_allocator::IdAllocator>,
    results1: Seq<Result<u32, crate::alloc_ffi::AllocError>>,
    states2: Seq<vm_allocator::IdAllocator>,
    results2: Seq<Result<u32, crate::alloc_ffi::AllocError>>,
    k: int,
)
    requires
        id_alloc_trace(states1, results1),
        id_alloc_trace(states2, results2),
        results1.len() == results2.len(),
        0 <= k <= results1.len(),
        id_base(states1[0]) == id_base(states2[0]),
        id_end(states1[0]) == id_end(states2[0]),
        id_next(states1[0]) == id_next(states2[0]),
        id_freed(states1[0]) == id_freed(states2[0]),
    ensures
        forall|i: int| 0 <= i < k ==> #[trigger] results1[i] == results2[i],
        id_base(states1[k]) == id_base(states2[k]),
        id_end(states1[k]) == id_end(states2[k]),
        id_next(states1[k]) == id_next(states2[k]),
        id_freed(states1[k]) == id_freed(states2[k]),
    decreases k,
{
    if k > 0 {
        lemma_cold_start_parity_run(states1, results1, states2, results2, k - 1);
        lemma_cold_start_parity(
            states1[k - 1],
            states1[k],
            results1[k - 1],
            states2[k - 1],
            states2[k],
            results2[k - 1],
        );
    }
}

/// VM-generation-id promotion, placement half: when the VM-generation-id
/// sits high enough in the system-memory window that no clock-sized slot
/// is free above it — as it does in any envelope a cold-started monitor
/// wrote, which allocates it at the window's top — the synthesized VM
/// clock lands strictly below it.
pub proof fn lemma_vmclock_below_vmgenid(
    arch: Arch,
    acpi_b: schema_b::ACPIDeviceManagerState,
    acpi_c: schema_c::ACPIDeviceManagerState,
)
    requires
        arch == Arch::X86_64,
        acpi_b.vmgenid is Some,
        acpi_c_from_b(
            arch,
            acpi_c,
            acpi_b,
            spec_genid_points(acpi_b),
            spec_system_mem_start(arch),
            spec_system_mem_end(arch),
        ),
        acpi_b.vmgenid->Some_0.addr + VMGENID_MEM_SIZE - 1 <= spec_system_mem_end(arch),
        acpi_b.vmgenid->Some_0.addr + VMGENID_MEM_SIZE - 1 + VMCLOCK_SIZE > spec_system_mem_end(
            arch,
        ),
    ensures
        acpi_c.vmclock is Some,
        acpi_c.vmclock->Some_0.guest_address < acpi_b.vmgenid->Some_0.addr,
{
    let g = acpi_b.vmgenid->Some_0.addr;
    let vc = acpi_c.vmclock->Some_0;
    let a = vc.guest_address;
    let pts = spec_genid_points(acpi_b);
    assert(aligned_fit(
        pts,
        spec_system_mem_start(arch),
        spec_system_mem_end(arch),
        VMCLOCK_SIZE as u64,
        VMCLOCK_SIZE as u64,
        a,
    ));
    if a >= g {
        assert(!pts.contains(a));
        assert(pts.contains(g));
        assert(a >= g + VMGENID_MEM_SIZE);
        assert(a + VMCLOCK_SIZE - 1 > spec_system_mem_end(arch));
        assert(false);
    }
}

/// The interrupt renumbering follows the architecture-specific formula for
/// every sixteen-bit interrupt number, never overflows (the result never
/// exceeds the input), and maps every legacy interrupt into the legacy GSI
/// range.
pub proof fn lemma_irq_to_gsi_formula(arch: Arch)
    ensures
        forall|irq: u32|
            irq < 0x1_0000 ==> #[trigger] spec_irq_to_gsi(arch, irq) == (if irq >= spec_spi_start(
                arch,
            ) {
                (irq - spec_spi_start(arch)) as u32
            } else {
                0u32
            }),
        forall|irq: u32| #[trigger] spec_irq_to_gsi(arch, irq) <= irq,
        forall|irq: u32|
            spec_spi_start(arch) + spec_gsi_legacy_start(arch) <= irq <= spec_spi_start(arch)
                + spec_gsi_legacy_end(arch) ==> spec_gsi_legacy_start(arch)
                <= #[trigger] spec_irq_to_gsi(arch, irq) <= spec_gsi_legacy_end(arch),
{
}

/// Determinism: two conversions of the same middle-schema envelope agree
/// in every observable respect — equal values wherever the schema holds
/// plain data, equal views wherever new vectors are built, and equal
/// models for the opaque allocator values.  Together with the pass-through
/// and oldest-schema contracts of the pipeline driver, two runs over the
/// same input produce identical output.
pub proof fn lemma_determinism(
    arch: Arch,
    b: schema_b::MicrovmState,
    r1: schema_c::MicrovmState,
    r2: schema_c::MicrovmState,
)
    requires
        microvm_c_from_b(arch, r1, b),
        microvm_c_from_b(arch, r2, b),
    ensures
        r1.vm_info == r2.vm_info,
        r1.kvm_state == r2.kvm_state,
        r1.vcpu_states@ == r2.vcpu_states@,
        r1.device_states.mmio_state.legacy_devices@ == r2.device_states.mmio_state.legacy_devices@,
        r1.device_states.mmio_state.block_devices@ == r2.device_states.mmio_state.block_devices@,
        r1.device_states.mmio_state.net_devices@ == r2.device_states.mmio_state.net_devices@,
        r1.device_states.mmio_state.vsock_device == r2.device_states.mmio_state.vsock_device,
        r1.device_states.mmio_state.balloon_device == r2.device_states.mmio_state.balloon_device,
        r1.device_states.mmio_state.mmds == r2.device_states.mmio_state.mmds,
        r1.device_states.mmio_state.entropy_device == r2.device_states.mmio_state.entropy_device,
        r1.device_states.acpi_state == r2.device_states.acpi_state,
        r1.vm_state.memory.regions@.len() == r2.vm_state.memory.regions@.len(),
        forall|j: int|
            0 <= j < r1.vm_state.memory.regions@.len() ==> {
                let g1 = #[trigger] r1.vm_state.memory.regions@[j];
                let g2 = r2.vm_state.memory.regions@[j];
                g1.base_address == g2.base_address && g1.size == g2.size && g1.region_type
                    == g2.region_type && g1.plugged@ == g2.plugged@
            },
        r1.vm_state.arch_state == r2.vm_state.arch_state,
        id_next(r1.vm_state.resource_allocator.gsi_legacy_allocator) == id_next(
            r2.vm_state.resource_allocator.gsi_legacy_allocator,
        ),
        id_freed(r1.vm_state.resource_allocator.gsi_legacy_allocator) == id_freed(
            r2.vm_state.resource_allocator.gsi_legacy_allocator,
        ),
        id_next(r1.vm_state.resource_allocator.gsi_msi_allocator) == id_next(
            r2.vm_state.resource_allocator.gsi_msi_allocator,
        ),
        id_freed(r1.vm_state.resource_allocator.gsi_msi_allocator) == id_freed(
            r2.vm_state.resource_allocator.gsi_msi_allocator,
        ),
        addr_taken(r1.vm_state.resource_allocator.mmio32_memory) == addr_taken(
            r2.vm_state.resource_allocator.mmio32_memory,
        ),
        addr_taken(r1.vm_state.resource_allocator.system_memory) == addr_taken(
            r2.vm_state.resource_allocator.system_memory,
        ),
{
    match b.acpi_dev_state.vmgenid {
        Some(v) => {
            if arch == Arch::X86_64 {
                let vc1 = r1.device_states.acpi_state.vmclock->Some_0;
                let vc2 = r2.device_states.acpi_state.vmclock->Some_0;
                assert(vc1.guest_address <= vc2.guest_address);
                assert(vc2.guest_address <= vc1.guest_address);
            }
        },
        None => {
            assert(false);
        },
    }
}

/// Full determinism over results: two conversions of the same
/// middle-schema envelope — each bound only by the conversion's contract —
/// succeed together or fail together, any failures carry the same error,
/// and successful outputs agree as `lemma_determinism` states.  Errors are
/// a function of the input by contract, so this closes determinism over
/// the whole result.
pub proof fn lemma_determinism_result(
    arch: Arch,
    b: schema_b::MicrovmState,
    r1: Result<schema_c::MicrovmState, crate::resources::ConvertError>,
    r2: Result<schema_c::MicrovmState, crate::resources::ConvertError>,
)
    requires
        (r1 is Ok) == crate::convert_bc::spec_convert_b_ok(arch, b),
        (r2 is Ok) == crate::convert_bc::spec_convert_b_ok(arch, b),
        r1 is Ok ==> microvm_c_from_b(arch, r1->Ok_0, b),
        r2 is Ok ==> microvm_c_from_b(arch, r2->Ok_0, b),
        r1 is Err ==> r1->Err_0 == crate::convert_bc::spec_convert_b_err(arch, b),
        r2 is Err ==> r2->Err_0 == crate::convert_bc::spec_convert_b_err(arch, b),
    ensures
        (r1 is Ok) == (r2 is Ok),
        r1 is Err ==> r1->Err_0 == r2->Err_0,
        r1 is Ok ==> r1->Ok_0.vm_info == r2->Ok_0.vm_info && r1->Ok_0.device_states.acpi_state
            == r2->Ok_0.device_states.acpi_state,
{
    if r1 is Ok {
        lemma_determinism(arch, b, r1->Ok_0, r2->Ok_0);
    }
}

/// Allocator consistency at the output's own records: the GSI a converted
/// block device reports is exactly its input record's renumbered
/// interrupt, and when it lies in the legacy range, the output's legacy
/// allocator reports it allocated.
pub proof fn lemma_output_block_gsi_allocated(
    arch: Arch,
    b: schema_b::MicrovmState,
    out: schema_c::MicrovmState,
    j: int,
)
    requires
        spec_convert_b_ok(arch, b),
        microvm_c_from_b(arch, out, b),
        0 <= j < out.device_states.mmio_state.block_devices@.len(),
    ensures
        ({
            let gsi = out.device_states.mmio_state.block_devices@[j].device_info.gsi;
            gsi matches Some(g) ==> (spec_gsi_legacy_start(arch) <= g <= spec_gsi_legacy_end(arch)
                ==> id_is_allocated_model(
                out.vm_state.resource_allocator.gsi_legacy_allocator,
                g,
            ))
        }),
{
    let infos = spec_device_infos(b.device_states);
    let blocks = b.device_states.block_devices@;
    assert(out.device_states.mmio_state.block_devices@[j]
        == crate::convert_bc::spec_connected_block_c(arch, blocks[j]));
    assert(infos[j] == blocks.map_values(
        |d: schema_b::ConnectedBlockState| d.device_info,
    )[j]);
    assert(infos[j] == blocks[j].device_info);
    lemma_allocator_consistency(arch, b, out, j);
}

/// Single-device reconstruction, in full: for an envelope holding exactly
/// one block device whose interrupt renumbers into the legacy range and
/// whose MMIO slot lies in the 32-bit window, plus a VM-generation-id
/// whose interrupt renumbers into the legacy range, the reconstructed
/// allocators hold exactly those resources — the two legacy GSIs are
/// allocated and every other id is not, the 32-bit window holds exactly
/// the device's range, the system-memory window holds exactly the
/// VM-generation-id's slot, and the two 64-bit windows are empty.
pub proof fn lemma_single_block_reconstruction(
    arch: Arch,
    devices: schema_b::DeviceStates,
    acpi: schema_b::ACPIDeviceManagerState,
    ra: crate::resources::ResourceAllocator,
)
    requires
        devices.legacy_devices@.len() == 0,
        devices.block_devices@.len() == 1,
        devices.net_devices@.len() == 0,
        devices.vsock_device is None,
        devices.balloon_device is None,
        devices.entropy_device is None,
        devices.block_devices@[0].device_info.irq is Some,
        spec_gsi_legacy_start(arch) <= spec_irq_to_gsi(
            arch,
            devices.block_devices@[0].device_info.irq->Some_0,
        ) <= spec_gsi_legacy_end(arch),
        devices.block_devices@[0].device_info.addr >= spec_mem_32bit_devices_start(arch),
        devices.block_devices@[0].device_info.len >= 1,
        acpi.vmgenid is Some,
        spec_gsi_legacy_start(arch) <= spec_irq_to_gsi(arch, acpi.vmgenid->Some_0.gsi)
            <= spec_gsi_legacy_end(arch),
        crate::resources::spec_reconstruct_ok(arch, devices, acpi),
        crate::resources::spec_reconstruct_post(arch, ra, devices, acpi),
    ensures
        ({
            let info = devices.block_devices@[0].device_info;
            let dev_gsi = spec_irq_to_gsi(arch, info.irq->Some_0);
            let genid_gsi = spec_irq_to_gsi(arch, acpi.vmgenid->Some_0.gsi);
            &&& forall|x: u32|
                #[trigger] id_is_allocated_model(ra.gsi_legacy_allocator, x) == (x == dev_gsi || x
                    == genid_gsi)
            &&& addr_taken(ra.mmio32_memory) == crate::alloc_ffi::addr_points(
                info.addr,
                (info.addr + info.len - 1) as u64,
            )
            &&& addr_taken(ra.system_memory) == crate::alloc_ffi::addr_points(
                acpi.vmgenid->Some_0.addr,
                (acpi.vmgenid->Some_0.addr + crate::arch::VMGENID_MEM_SIZE - 1) as u64,
            )
            &&& addr_taken(ra.mmio64_memory) == Set::<u64>::empty()
            &&& addr_taken(ra.past_mmio64_memory) == Set::<u64>::empty()
        }),
{
    let info = devices.block_devices@[0].device_info;
    let dev_gsi = spec_irq_to_gsi(arch, info.irq->Some_0);
    let genid_gsi = spec_irq_to_gsi(arch, acpi.vmgenid->Some_0.gsi);
    let start = spec_gsi_legacy_start(arch);

    // The envelope's scan yields exactly the one device info.
    let infos = spec_device_infos(devices);
    assert(devices.block_devices@.map_values(
        |d: schema_b::ConnectedBlockState| d.device_info,
    ) =~= seq![info]);
    assert(infos =~= seq![info]);

    // Its legacy contribution is the one renumbered GSI, and the
    // VM-generation-id adds the other, so the used sequence is exactly
    // [device GSI, VM-generation-id GSI].
    assert(infos.len() == 1);
    assert(infos.last() == info);
    assert(infos.drop_last() =~= Seq::<schema_b::MMIODeviceInfo>::empty());
    assert(spec_legacy_gsis(arch, infos.drop_last()) =~= Seq::<u32>::empty());
    assert(spec_legacy_gsi_of(arch, info) =~= seq![dev_gsi]);
    assert(spec_legacy_gsis(arch, infos) =~= seq![dev_gsi]);
    let used = spec_used_legacy(arch, devices, acpi);
    assert(used =~= seq![dev_gsi, genid_gsi]);

    // The allocated-id predicate evaluates to membership in that sequence.
    assert(seq![dev_gsi, genid_gsi].drop_last() =~= seq![dev_gsi]);
    assert(seq![dev_gsi].drop_last() =~= Seq::<u32>::empty());
    assert(seq_max_u32(Seq::<u32>::empty()) == 0);
    assert(seq_max_u32(seq![dev_gsi]) == dev_gsi);
    assert(seq_max_u32(used) == (if dev_gsi >= genid_gsi {
        dev_gsi
    } else {
        genid_gsi
    }));
    assert forall|x: u32|
        #[trigger] id_is_allocated_model(ra.gsi_legacy_allocator, x) == (x == dev_gsi || x
            == genid_gsi) by {
        assert(used.contains(x) == (used[0] == x || used[1] == x));
    }

    // The one recorded MMIO range is the device's, and replaying it takes
    // exactly its addresses.
    let dev_points = crate::alloc_ffi::addr_points(info.addr, (info.addr + info.len - 1) as u64);
    assert(spec_mmio32_ranges(arch, infos.drop_last()) =~= Seq::<(u64, u64)>::empty());
    assert(spec_mmio32_range_of(arch, info) =~= seq![(info.addr, info.len)]);
    assert(spec_mmio32_ranges(arch, infos) =~= seq![(info.addr, info.len)]);
    let pairs = spec_used_mmio32(arch, devices);
    assert(pairs.first() == (info.addr, info.len));
    assert(pairs.drop_first() =~= Seq::<(u64, u64)>::empty());
    assert(crate::resources::spec_mmio_replay_taken(
        Set::<u64>::empty().union(dev_points),
        pairs.drop_first(),
    ) == Set::<u64>::empty().union(dev_points));
    assert(addr_taken(ra.mmio32_memory) =~= dev_points);
}

} // verus!
