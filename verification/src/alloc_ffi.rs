//! Trusted interface to the `vm_allocator` crate.
//!
//! The current schema persists the monitor's resource allocators, which are
//! values of `vm_allocator::IdAllocator` (sequential interrupt numbers) and
//! `vm_allocator::AddressAllocator` (address ranges).  Verus sees these types
//! as opaque, so this module gives each a mathematical model through
//! uninterpreted spec functions, and wraps every method the migrator calls in
//! an `external_body` function whose contract states, over those models, what
//! the crate's source shows the method to do.
//!
//! Model of `IdAllocator`: the bounds of the managed range (`id_base`,
//! `id_end`), the next never-allocated id (`id_next`, `None` once the range
//! is exhausted past `u32::MAX`), and the set of freed ids (`id_freed`).
//! An id counts as allocated when it is in range, below `id_next`, and not
//! freed.
//!
//! Model of `AddressAllocator`: the bounds of the managed space (`addr_base`,
//! `addr_end`) and the set of allocated addresses (`addr_taken`).  The
//! allocator keeps free and allocated runs as the nodes of an interval
//! tree; free nodes are maximal free intervals (fresh allocators have one;
//! allocation splits at allocated boundaries and freeing re-merges
//! neighbours).  The exact-match search does not test a node's state, so
//! its wrapper is restricted by a precondition to slots that are free under
//! the model, where its behaviour is fully determined; overlap detection is
//! the verified callers' own job.

use vstd::prelude::*;

verus! {

/// Errors reported by the underlying resource allocators.
///
/// This mirrors `vm_allocator::Error`; variants whose payloads are opaque
/// outside types carry no payload here.
#[derive(Clone, Copy, Debug, PartialEq, Eq, Structural)]
pub enum AllocError {
    /// An arithmetic step overflowed.
    Overflow,
    /// The id is outside the managed range.
    OutOfRange(u32),
    /// The id was already released.
    AlreadyReleased(u32),
    /// The id was never allocated.
    NeverAllocated(u32),
    /// The requested resource is not available.
    ResourceNotAvailable,
    /// The managed range is invalid.
    InvalidRange(u64, u64),
    /// The alignment is zero or not a power of two.
    InvalidAlignment,
    /// The range overlaps an existing allocation.
    Overlap,
    /// A free-space node was asked for an invalid state change.
    InvalidStateTransition,
    /// The address is not aligned.
    UnalignedAddress,
    /// An arithmetic step underflowed.
    Underflow,
    /// The requested size is invalid.
    InvalidSize(u64),
}

#[verifier::external_type_specification]
#[verifier::external_body]
pub struct ExIdAllocator(vm_allocator::IdAllocator);

#[verifier::external_type_specification]
#[verifier::external_body]
pub struct ExAddressAllocator(vm_allocator::AddressAllocator);

#[verifier::external_type_specification]
#[verifier::external_body]
pub struct ExVmAllocatorError(vm_allocator::Error);

/// First id of the range an `IdAllocator` manages.
pub uninterp spec fn id_base(a: vm_allocator::IdAllocator) -> u32;

/// Last id of the range an `IdAllocator` manages.
pub uninterp spec fn id_end(a: vm_allocator::IdAllocator) -> u32;

/// Next id of an `IdAllocator` that was never handed out, if any.
pub uninterp spec fn id_next(a: vm_allocator::IdAllocator) -> Option<u32>;

/// Set of ids of an `IdAllocator` that were handed out and freed again.
pub uninterp spec fn id_freed(a: vm_allocator::IdAllocator) -> Set<u32>;

/// First address of the space an `AddressAllocator` manages.
pub uninterp spec fn addr_base(a: vm_allocator::AddressAllocator) -> u64;

/// Last address of the space an `AddressAllocator` manages.
pub uninterp spec fn addr_end(a: vm_allocator::AddressAllocator) -> u64;

/// Set of addresses an `AddressAllocator` has allocated.
pub uninterp spec fn addr_taken(a: vm_allocator::AddressAllocator) -> Set<u64>;

/// An id is allocated when it is in range, was handed out, and is not freed.
pub open spec fn id_is_allocated_model(a: vm_allocator::IdAllocator, id: u32) -> bool {
    &&& id_base(a) <= id <= id_end(a)
    &&& !id_freed(a).contains(id)
    &&& match id_next(a) {
        Some(n) => id < n,
        None => true,
    }
}

/// The set of addresses from `lo` to `hi`, both included.
pub open spec fn addr_points(lo: u64, hi: u64) -> Set<u64> {
    Set::new(|p: u64| lo <= p && p <= hi)
}

/// No address from `lo` to `hi` (both included) is taken.
pub open spec fn addr_range_free(taken: Set<u64>, lo: u64, hi: u64) -> bool {
    forall|p: u64| lo <= p <= hi ==> !taken.contains(p)
}

/// Whether `x` is a power of two.
pub open spec fn is_power_of_two(x: int) -> bool
    decreases x,
{
    if x <= 0 {
        false
    } else if x == 1 {
        true
    } else {
        x % 2 == 0 && is_power_of_two(x / 2)
    }
}

/// An exact-placement request of `size` addresses at `at` can be served:
/// the whole slot lies inside the managed space and is free, as is the
/// address one past `at`, which the allocator's candidate search also probes.
pub open spec fn exact_fit(taken: Set<u64>, base: u64, end: u64, size: u64, at: u64) -> bool {
    &&& size >= 1
    &&& at >= base
    &&& at + size - 1 <= end
    &&& at + 1 <= end
    &&& addr_range_free(taken, at, (at + size - 1) as u64)
    &&& !taken.contains((at + 1) as u64)
}

/// A slot of `size` addresses aligned to `align` could start at `at`.
pub open spec fn aligned_fit(
    taken: Set<u64>,
    base: u64,
    end: u64,
    size: u64,
    align: u64,
    at: u64,
) -> bool {
    &&& at % align == 0
    &&& at >= base
    &&& at + size - 1 <= end
    &&& addr_range_free(taken, at, (at + size - 1) as u64)
}

/// A freshly created id allocator managing `[base, end]`.
pub open spec fn id_alloc_fresh(a: vm_allocator::IdAllocator, base: u32, end: u32) -> bool {
    &&& id_base(a) == base
    &&& id_end(a) == end
    &&& id_next(a) == Some(base)
    &&& id_freed(a) == Set::<u32>::empty()
}

/// Relies on `vm_allocator::IdAllocator::new`: managing `[base, end]`, with
/// `next` at `base` and nothing freed; an inverted range is refused.
#[verifier::external_body]
pub(crate) fn id_alloc_new(base: u32, end: u32) -> (r: Result<vm_allocator::IdAllocator, AllocError>)
    ensures
        base <= end ==> r is Ok,
        r is Ok ==> id_alloc_fresh(r->Ok_0, base, end),
        base > end ==> r is Err && r->Err_0 == AllocError::InvalidRange(base as u64, end as u64),
{
    match vm_allocator::IdAllocator::new(base, end) {
        Ok(a) => Ok(a),
        Err(e) => Err(convert_alloc_error(e)),
    }
}

/// How handing out an id changes an id allocator: the smallest freed id is
/// reused if any; otherwise the next never-allocated id is handed out while
/// it is in range; the bounds never change.
pub open spec fn id_allocate_post(
    pre: vm_allocator::IdAllocator,
    post: vm_allocator::IdAllocator,
    r: Result<u32, AllocError>,
) -> bool {
    &&& id_base(post) == id_base(pre)
    &&& id_end(post) == id_end(pre)
    &&& if id_freed(pre) != Set::<u32>::empty() {
        match r {
            Ok(m) => {
                &&& id_freed(pre).contains(m)
                &&& forall|x: u32| id_freed(pre).contains(x) ==> m <= x
                &&& id_freed(post) == id_freed(pre).remove(m)
                &&& id_next(post) == id_next(pre)
            },
            Err(_) => false,
        }
    } else {
        match id_next(pre) {
            Some(n) => if n <= id_end(pre) {
                &&& r == Ok::<u32, AllocError>(n)
                &&& id_freed(post) == Set::<u32>::empty()
                &&& id_next(post) == (if n < u32::MAX {
                    Some((n + 1) as u32)
                } else {
                    None
                })
            } else {
                r == Err::<u32, AllocError>(AllocError::ResourceNotAvailable) && post == pre
            },
            None => r == Err::<u32, AllocError>(AllocError::Overflow) && post == pre,
        }
    }
}

/// Relies on `vm_allocator::IdAllocator::allocate_id`: hands out the smallest
/// freed id if any, else the next never-allocated id while it is in range.
#[verifier::external_body]
pub(crate) fn id_allocate(a: &mut vm_allocator::IdAllocator) -> (r: Result<u32, AllocError>)
    ensures
        id_allocate_post(*old(a), *final(a), r),
{
    match a.allocate_id() {
        Ok(id) => Ok(id),
        Err(e) => Err(convert_alloc_error(e)),
    }
}

/// Relies on `vm_allocator::IdAllocator::free_id`: releases an id that is in
/// range and was handed out; refuses out-of-range, never-allocated and
/// already-freed ids.
#[verifier::external_body]
pub(crate) fn id_free(a: &mut vm_allocator::IdAllocator, id: u32) -> (r: Result<u32, AllocError>)
    ensures
        id_base(*final(a)) == id_base(*old(a)),
        id_end(*final(a)) == id_end(*old(a)),
        !(id_base(*old(a)) <= id <= id_end(*old(a))) ==> (r is Err && r->Err_0 == AllocError::OutOfRange(id) && *final(a) == *old(a)),
        id_base(*old(a)) <= id <= id_end(*old(a)) && id_next(*old(a)) is Some && id_next(*old(a))->Some_0 <= id ==> (r is Err && r->Err_0 == AllocError::NeverAllocated(id) && *final(a) == *old(a)),
        id_base(*old(a)) <= id <= id_end(*old(a)) && (id_next(*old(a)) is None || (id_next(*old(a)) is Some && id_next(*old(a))->Some_0 > id)) ==> {
            &&& id_next(*final(a)) == id_next(*old(a))
            &&& if id_freed(*old(a)).contains(id) {
                r is Err && r->Err_0 == AllocError::AlreadyReleased(id) && id_freed(*final(a))
                    == id_freed(*old(a))
            } else {
                r is Ok && r->Ok_0 == id && id_freed(*final(a)) == id_freed(
                    *old(a),
                ).insert(id)
            }
        },
{
    match a.free_id(id) {
        Ok(id) => Ok(id),
        Err(e) => Err(convert_alloc_error(e)),
    }
}

/// Relies on `vm_allocator::IdAllocator::is_allocated`: an id is allocated
/// when it is in range, below the never-allocated mark, and not freed.
#[verifier::external_body]
pub(crate) fn id_is_allocated(a: &vm_allocator::IdAllocator, id: u32) -> (r: bool)
    ensures
        r == id_is_allocated_model(*a, id),
{
    a.is_allocated(id)
}

/// A freshly created address allocator managing `[base, base + size - 1]`.
pub open spec fn addr_alloc_fresh(a: vm_allocator::AddressAllocator, base: u64, size: u64) -> bool {
    &&& addr_base(a) == base
    &&& addr_end(a) == base + size - 1
    &&& addr_taken(a) == Set::<u64>::empty()
}

/// Relies on `vm_allocator::AddressAllocator::new`: manages
/// `[base, base + size - 1]` with nothing allocated; a zero size or an
/// overflowing end is refused.
#[verifier::external_body]
pub(crate) fn addr_alloc_new(base: u64, size: u64) -> (r: Result<
    vm_allocator::AddressAllocator,
    AllocError,
>)
    ensures
        size == 0 ==> r is Err && r->Err_0 == AllocError::Underflow,
        size >= 1 && base + size - 1 > u64::MAX ==> r is Err && r->Err_0 == AllocError::Overflow,
        size >= 1 && base + size - 1 <= u64::MAX && !(base == 0 && base + size - 1 == u64::MAX)
            ==> r is Ok,
        r is Ok ==> addr_alloc_fresh(r->Ok_0, base, size),
{
    match vm_allocator::AddressAllocator::new(base, size) {
        Ok(a) => Ok(a),
        Err(e) => Err(convert_alloc_error(e)),
    }
}

/// An exact-placement request is well formed and its slot can be served.
pub open spec fn exact_request_ok(
    taken: Set<u64>,
    base: u64,
    end: u64,
    size: u64,
    align: u64,
    at: u64,
) -> bool {
    &&& is_power_of_two(align as int)
    &&& at % align == 0
    &&& exact_fit(taken, base, end, size, at)
}

/// Relies on `vm_allocator::AddressAllocator::allocate` with the exact-match
/// policy, called only on a slot that is known free and that ends below
/// the top of the address space: it then reserves exactly
/// `[at, at + size - 1]`.
///
/// The restriction to free slots is essential: the allocator's candidate
/// search looks the containing node up without testing its state, and a
/// request lying strictly inside an already-allocated node would split that
/// node, marking its remainders free.  On a free slot no such case arises —
/// the containing node is the free run around `at`, the request fits inside
/// it, and the reservation takes exactly the slot — so callers must check
/// for themselves that the slot is free before calling.  The slot may not
/// end at the last address: the allocator builds the result by adding the
/// size to the start before subtracting one, so a slot ending exactly at
/// the top overflows that step and is refused.
#[verifier::external_body]
pub(crate) fn addr_allocate_exact(
    a: &mut vm_allocator::AddressAllocator,
    size: u64,
    align: u64,
    at: u64,
) -> (r: Result<(u64, u64), AllocError>)
    requires
        exact_request_ok(
            addr_taken(*old(a)),
            addr_base(*old(a)),
            addr_end(*old(a)),
            size,
            align,
            at,
        ),
        at + size - 1 < u64::MAX,
    ensures
        addr_base(*final(a)) == addr_base(*old(a)),
        addr_end(*final(a)) == addr_end(*old(a)),
        r is Ok,
        r is Ok ==> r->Ok_0 == (at, (at + size - 1) as u64),
        addr_taken(*final(a)) == addr_taken(*old(a)).union(
            addr_points(at, (at + size - 1) as u64),
        ),
{
    match a.allocate(size, align, vm_allocator::AllocPolicy::ExactMatch(at)) {
        Ok(range) => Ok((range.start(), range.end())),
        Err(e) => Err(convert_alloc_error(e)),
    }
}

/// How a last-match allocation changes the set of taken addresses: on
/// success the returned slot was the highest aligned free slot of the
/// requested size and is added, on failure nothing changes.
pub open spec fn last_alloc_post(
    r: Result<(u64, u64), AllocError>,
    taken0: Set<u64>,
    taken1: Set<u64>,
    base: u64,
    end: u64,
    size: u64,
    align: u64,
) -> bool {
    match r {
        Ok(rr) => {
            &&& rr.1 == rr.0 + size - 1
            &&& aligned_fit(taken0, base, end, size, align, rr.0)
            &&& forall|b: u64| aligned_fit(taken0, base, end, size, align, b) ==> b <= rr.0
            &&& taken1 == taken0.union(addr_points(rr.0, (rr.0 + size - 1) as u64))
        },
        Err(_) => taken1 == taken0,
    }
}

/// Relies on `vm_allocator::AddressAllocator::allocate` with the last-match
/// policy: reserves `size` addresses starting at the highest `align`-aligned
/// address whose slot is free, and fails without changing the allocator when
/// no aligned slot is free.
///
/// The success-iff and error-value clauses are stated only for spaces
/// that keep clear of both ends of the address space.  In a node reaching
/// address zero whose last address is below the size, the candidate
/// arithmetic underflows and the node is skipped, so a fit at address zero
/// would be missed; in a space ending at the last address, the result
/// construction adds the size to the start before subtracting one, so a
/// fit ending exactly at the top overflows and is refused.  The maximality
/// of a returned slot holds regardless.  Within those bounds, the only
/// failure the search reports on a valid request is that the resource is
/// not available.
#[verifier::external_body]
pub(crate) fn addr_allocate_last(a: &mut vm_allocator::AddressAllocator, size: u64, align: u64) -> (r:
    Result<(u64, u64), AllocError>)
    ensures
        addr_base(*final(a)) == addr_base(*old(a)),
        addr_end(*final(a)) == addr_end(*old(a)),
        size >= 1 && is_power_of_two(align as int) && addr_base(*old(a)) >= 1 && addr_end(*old(a))
            < u64::MAX ==> ((r is Ok) == exists|b: u64|
            aligned_fit(
                addr_taken(*old(a)),
                addr_base(*old(a)),
                addr_end(*old(a)),
                size,
                align,
                b,
            )),
        last_alloc_post(
            r,
            addr_taken(*old(a)),
            addr_taken(*final(a)),
            addr_base(*old(a)),
            addr_end(*old(a)),
            size,
            align,
        ),
        !(size >= 1 && is_power_of_two(align as int)) ==> r is Err,
        size >= 1 && is_power_of_two(align as int) && addr_end(*old(a)) < u64::MAX && r is Err
            ==> r->Err_0 == AllocError::ResourceNotAvailable,
{
    match a.allocate(size, align, vm_allocator::AllocPolicy::LastMatch) {
        Ok(range) => Ok((range.start(), range.end())),
        Err(e) => Err(convert_alloc_error(e)),
    }
}

/// Maps a `vm_allocator::Error` onto the library's own error type, one
/// variant each; payloads of opaque outside types are dropped.
#[verifier::external_body]
fn convert_alloc_error(e: vm_allocator::Error) -> AllocError {
    match e {
        vm_allocator::Error::Overflow => AllocError::Overflow,
        vm_allocator::Error::OutOfRange(id) => AllocError::OutOfRange(id),
        vm_allocator::Error::AlreadyReleased(id) => AllocError::AlreadyReleased(id),
        vm_allocator::Error::NeverAllocated(id) => AllocError::NeverAllocated(id),
        vm_allocator::Error::ResourceNotAvailable => AllocError::ResourceNotAvailable,
        vm_allocator::Error::InvalidRange(lo, hi) => AllocError::InvalidRange(lo, hi),
        vm_allocator::Error::InvalidAlignment => AllocError::InvalidAlignment,
        vm_allocator::Error::Overlap(_, _) => AllocError::Overlap,
        vm_allocator::Error::InvalidStateTransition(_, _) => AllocError::InvalidStateTransition,
        vm_allocator::Error::UnalignedAddress => AllocError::UnalignedAddress,
        vm_allocator::Error::Underflow => AllocError::Underflow,
        vm_allocator::Error::InvalidSize(s) => AllocError::InvalidSize(s),
    }
}

} // verus!
