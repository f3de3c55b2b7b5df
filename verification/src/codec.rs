//! The primitive binary codec contract of the snapshot wire format.
//!
//! Values are encoded positionally with no self-describing framing:
//! integers are fixed-width little-endian, booleans are one byte holding
//! zero or one, byte strings are a little-endian length followed by the
//! bytes, optional values are a one-byte tag followed by the payload when
//! present, homogeneous sequences are a length followed by the elements,
//! tagged sums are a 32-bit discriminant followed by the payload, and
//! records concatenate their fields in schema-declared order.  Integer
//! wrappers whose host representation differs but whose byte sequence
//! matches a plain integer (such as non-zero-restricted integers) are
//! encoded identically to that integer.
//!
//! Each decoder accepts exactly the encoders' output at the given
//! position: decoding what was encoded yields the value back, and whatever
//! a decoder accepts re-encodes to the very bytes it consumed, so the
//! format has one canonical byte form per value.

use vstd::prelude::*;

verus! {

/// The two little-endian bytes of a 16-bit integer.
pub open spec fn spec_enc_u16(v: u16) -> Seq<u8> {
    seq![(v & 0xFF) as u8, ((v >> 8) & 0xFF) as u8]
}

/// The four little-endian bytes of a 32-bit integer.
pub open spec fn spec_enc_u32(v: u32) -> Seq<u8> {
    seq![
        (v & 0xFF) as u8,
        ((v >> 8) & 0xFF) as u8,
        ((v >> 16) & 0xFF) as u8,
        ((v >> 24) & 0xFF) as u8,
    ]
}

/// The eight little-endian bytes of a 64-bit integer.
pub open spec fn spec_enc_u64(v: u64) -> Seq<u8> {
    seq![
        (v & 0xFF) as u8,
        ((v >> 8) & 0xFF) as u8,
        ((v >> 16) & 0xFF) as u8,
        ((v >> 24) & 0xFF) as u8,
        ((v >> 32) & 0xFF) as u8,
        ((v >> 40) & 0xFF) as u8,
        ((v >> 48) & 0xFF) as u8,
        ((v >> 56) & 0xFF) as u8,
    ]
}

/// The single byte of a boolean: one for true, zero for false.
pub open spec fn spec_enc_bool(v: bool) -> Seq<u8> {
    if v {
        seq![1u8]
    } else {
        seq![0u8]
    }
}

/// A byte string: its 64-bit little-endian length, then its bytes.
pub open spec fn spec_enc_bytes(v: Seq<u8>) -> Seq<u8> {
    spec_enc_u64(v.len() as u64) + v
}

/// What decoding a 16-bit integer at `pos` yields: the value read from two
/// little-endian bytes and the position after them, or nothing when the
/// input is too short.
pub open spec fn spec_dec_u16(s: Seq<u8>, pos: int) -> Option<(u16, int)> {
    if 0 <= pos && pos + 2 <= s.len() {
        Some(((s[pos] as u16 | (s[pos + 1] as u16) << 8) as u16, pos + 2))
    } else {
        None
    }
}

/// What decoding a 32-bit integer at `pos` yields.
pub open spec fn spec_dec_u32(s: Seq<u8>, pos: int) -> Option<(u32, int)> {
    if 0 <= pos && pos + 4 <= s.len() {
        Some(
            (
                (s[pos] as u32 | (s[pos + 1] as u32) << 8 | (s[pos + 2] as u32) << 16 | (s[pos + 3]
                    as u32) << 24) as u32,
                pos + 4,
            ),
        )
    } else {
        None
    }
}

/// What decoding a 64-bit integer at `pos` yields.
pub open spec fn spec_dec_u64(s: Seq<u8>, pos: int) -> Option<(u64, int)> {
    if 0 <= pos && pos + 8 <= s.len() {
        Some(
            (
                (s[pos] as u64 | (s[pos + 1] as u64) << 8 | (s[pos + 2] as u64) << 16 | (s[pos + 3]
                    as u64) << 24 | (s[pos + 4] as u64) << 32 | (s[pos + 5] as u64) << 40 | (s[pos
                    + 6] as u64) << 48 | (s[pos + 7] as u64) << 56) as u64,
                pos + 8,
            ),
        )
    } else {
        None
    }
}

/// What decoding a boolean at `pos` yields: only the bytes zero and one
/// are accepted, so the encoding is canonical.
pub open spec fn spec_dec_bool(s: Seq<u8>, pos: int) -> Option<(bool, int)> {
    if 0 <= pos && pos + 1 <= s.len() {
        if s[pos] == 1u8 {
            Some((true, pos + 1))
        } else if s[pos] == 0u8 {
            Some((false, pos + 1))
        } else {
            None
        }
    } else {
        None
    }
}

/// What decoding a byte string at `pos` yields: a length that must fit in
/// the remaining input, then that many bytes.
pub open spec fn spec_dec_bytes(s: Seq<u8>, pos: int) -> Option<(Seq<u8>, int)> {
    match spec_dec_u64(s, pos) {
        Some((n, p)) => if p + n <= s.len() {
            Some((s.subrange(p, p + n as int), p + n as int))
        } else {
            None
        },
        None => None,
    }
}

/// Append the two little-endian bytes of a 16-bit integer.
pub fn enc_u16(out: &mut Vec<u8>, v: u16)
    ensures
        final(out)@ == old(out)@ + spec_enc_u16(v),
{
    let ghost pre = out@;
    out.push((v & 0xFF) as u8);
    out.push(((v >> 8) & 0xFF) as u8);
    proof {
        assert(out@ =~= pre + spec_enc_u16(v));
    }
}

/// Append the four little-endian bytes of a 32-bit integer.
pub fn enc_u32(out: &mut Vec<u8>, v: u32)
    ensures
        final(out)@ == old(out)@ + spec_enc_u32(v),
{
    let ghost pre = out@;
    out.push((v & 0xFF) as u8);
    out.push(((v >> 8) & 0xFF) as u8);
    out.push(((v >> 16) & 0xFF) as u8);
    out.push(((v >> 24) & 0xFF) as u8);
    proof {
        assert(out@ =~= pre + spec_enc_u32(v));
    }
}

/// Append the eight little-endian bytes of a 64-bit integer.
pub fn enc_u64(out: &mut Vec<u8>, v: u64)
    ensures
        final(out)@ == old(out)@ + spec_enc_u64(v),
{
    let ghost pre = out@;
    out.push((v & 0xFF) as u8);
    out.push(((v >> 8) & 0xFF) as u8);
    out.push(((v >> 16) & 0xFF) as u8);
    out.push(((v >> 24) & 0xFF) as u8);
    out.push(((v >> 32) & 0xFF) as u8);
    out.push(((v >> 40) & 0xFF) as u8);
    out.push(((v >> 48) & 0xFF) as u8);
    out.push(((v >> 56) & 0xFF) as u8);
    proof {
        assert(out@ =~= pre + spec_enc_u64(v));
    }
}

/// Append the single byte of a boolean.
pub fn enc_bool(out: &mut Vec<u8>, v: bool)
    ensures
        final(out)@ == old(out)@ + spec_enc_bool(v),
{
    let ghost pre = out@;
    if v {
        out.push(1u8);
    } else {
        out.push(0u8);
    }
    proof {
        assert(out@ =~= pre + spec_enc_bool(v));
    }
}

/// Append a byte string: its length, then its bytes.
pub fn enc_bytes(out: &mut Vec<u8>, v: &Vec<u8>)
    requires
        v@.len() <= u64::MAX,
    ensures
        final(out)@ == old(out)@ + spec_enc_bytes(v@),
{
    let ghost pre = out@;
    enc_u64(out, v.len() as u64);
    let n = v.len();
    let mut i: usize = 0;
    while i < n
        invariant
            i <= n,
            n == v@.len(),
            out@ == pre + spec_enc_u64(v@.len() as u64) + v@.subrange(0, i as int),
        decreases n - i,
    {
        out.push(v[i]);
        i = i + 1;
        proof {
            assert(out@ =~= pre + spec_enc_u64(v@.len() as u64) + v@.subrange(0, i as int));
        }
    }
    proof {
        assert(v@.subrange(0, n as int) =~= v@);
        assert(out@ =~= pre + spec_enc_bytes(v@));
    }
}

/// Decode a 16-bit integer.
pub fn dec_u16(s: &Vec<u8>, pos: usize) -> (r: Option<(u16, usize)>)
    ensures
        r matches Some(v) ==> spec_dec_u16(s@, pos as int) == Some((v.0, v.1 as int)),
        r is None ==> spec_dec_u16(s@, pos as int) is None,
{
    if pos < s.len() && s.len() - pos >= 2 {
        let v = s[pos] as u16 | (s[pos + 1] as u16) << 8;
        Some((v, pos + 2))
    } else {
        None
    }
}

/// Decode a 32-bit integer.
pub fn dec_u32(s: &Vec<u8>, pos: usize) -> (r: Option<(u32, usize)>)
    ensures
        r matches Some(v) ==> spec_dec_u32(s@, pos as int) == Some((v.0, v.1 as int)),
        r is None ==> spec_dec_u32(s@, pos as int) is None,
{
    if pos < s.len() && s.len() - pos >= 4 {
        let v = s[pos] as u32 | (s[pos + 1] as u32) << 8 | (s[pos + 2] as u32) << 16 | (s[pos + 3]
            as u32) << 24;
        Some((v, pos + 4))
    } else {
        None
    }
}

/// Decode a 64-bit integer.
pub fn dec_u64(s: &Vec<u8>, pos: usize) -> (r: Option<(u64, usize)>)
    ensures
        r matches Some(v) ==> spec_dec_u64(s@, pos as int) == Some((v.0, v.1 as int)),
        r is None ==> spec_dec_u64(s@, pos as int) is None,
{
    if pos < s.len() && s.len() - pos >= 8 {
        let v = s[pos] as u64 | (s[pos + 1] as u64) << 8 | (s[pos + 2] as u64) << 16 | (s[pos + 3]
            as u64) << 24 | (s[pos + 4] as u64) << 32 | (s[pos + 5] as u64) << 40 | (s[pos + 6]
            as u64) << 48 | (s[pos + 7] as u64) << 56;
        Some((v, pos + 8))
    } else {
        None
    }
}

/// Decode a boolean; bytes other than zero and one are rejected.
pub fn dec_bool(s: &Vec<u8>, pos: usize) -> (r: Option<(bool, usize)>)
    ensures
        r matches Some(v) ==> spec_dec_bool(s@, pos as int) == Some((v.0, v.1 as int)),
        r is None ==> spec_dec_bool(s@, pos as int) is None,
{
    if pos < s.len() {
        let b = s[pos];
        if b == 1 {
            Some((true, pos + 1))
        } else if b == 0 {
            Some((false, pos + 1))
        } else {
            None
        }
    } else {
        None
    }
}

/// Decode a byte string.
pub fn dec_bytes(s: &Vec<u8>, pos: usize) -> (r: Option<(Vec<u8>, usize)>)
    ensures
        r matches Some(v) ==> spec_dec_bytes(s@, pos as int) == Some((v.0@, v.1 as int)),
        r is None ==> spec_dec_bytes(s@, pos as int) is None,
{
    match dec_u64(s, pos) {
        Some((n, p)) => {
            if n <= (s.len() - p) as u64 {
                let end = p + (n as usize);
                let mut v: Vec<u8> = Vec::new();
                let mut i: usize = p;
                while i < end
                    invariant
                        p <= i <= end,
                        end <= s@.len(),
                        v@ == s@.subrange(p as int, i as int),
                    decreases end - i,
                {
                    v.push(s[i]);
                    i = i + 1;
                    proof {
                        assert(v@ =~= s@.subrange(p as int, i as int));
                    }
                }
                Some((v, end))
            } else {
                None
            }
        },
        None => None,
    }
}

/// Round trip: a 16-bit integer's encoding, read back at the position
/// where it was placed, yields the integer.
pub proof fn lemma_round_trip_u16(s: Seq<u8>, pos: int, v: u16)
    requires
        0 <= pos,
        pos + 2 <= s.len(),
        s.subrange(pos, pos + 2) == spec_enc_u16(v),
    ensures
        spec_dec_u16(s, pos) == Some((v, pos + 2)),
{
    assert(s[pos] == (v & 0xFF) as u8);
    assert(s[pos + 1] == ((v >> 8) & 0xFF) as u8);
    assert(((v & 0xFF) as u8 as u16 | (((v >> 8) & 0xFF) as u8 as u16) << 8) == v) by (bit_vector);
}

/// Round trip for 32-bit integers.
pub proof fn lemma_round_trip_u32(s: Seq<u8>, pos: int, v: u32)
    requires
        0 <= pos,
        pos + 4 <= s.len(),
        s.subrange(pos, pos + 4) == spec_enc_u32(v),
    ensures
        spec_dec_u32(s, pos) == Some((v, pos + 4)),
{
    assert(s[pos] == (v & 0xFF) as u8);
    assert(s[pos + 1] == ((v >> 8) & 0xFF) as u8);
    assert(s[pos + 2] == ((v >> 16) & 0xFF) as u8);
    assert(s[pos + 3] == ((v >> 24) & 0xFF) as u8);
    assert(((v & 0xFF) as u8 as u32 | (((v >> 8) & 0xFF) as u8 as u32) << 8 | (((v >> 16)
        & 0xFF) as u8 as u32) << 16 | (((v >> 24) & 0xFF) as u8 as u32) << 24) == v) by (bit_vector);
}

/// Round trip for 64-bit integers.
pub proof fn lemma_round_trip_u64(s: Seq<u8>, pos: int, v: u64)
    requires
        0 <= pos,
        pos + 8 <= s.len(),
        s.subrange(pos, pos + 8) == spec_enc_u64(v),
    ensures
        spec_dec_u64(s, pos) == Some((v, pos + 8)),
{
    assert(s[pos] == (v & 0xFF) as u8);
    assert(s[pos + 1] == ((v >> 8) & 0xFF) as u8);
    assert(s[pos + 2] == ((v >> 16) & 0xFF) as u8);
    assert(s[pos + 3] == ((v >> 24) & 0xFF) as u8);
    assert(s[pos + 4] == ((v >> 32) & 0xFF) as u8);
    assert(s[pos + 5] == ((v >> 40) & 0xFF) as u8);
    assert(s[pos + 6] == ((v >> 48) & 0xFF) as u8);
    assert(s[pos + 7] == ((v >> 56) & 0xFF) as u8);
    assert(((v & 0xFF) as u8 as u64 | (((v >> 8) & 0xFF) as u8 as u64) << 8 | (((v >> 16)
        & 0xFF) as u8 as u64) << 16 | (((v >> 24) & 0xFF) as u8 as u64) << 24 | (((v >> 32)
        & 0xFF) as u8 as u64) << 32 | (((v >> 40) & 0xFF) as u8 as u64) << 40 | (((v >> 48)
        & 0xFF) as u8 as u64) << 48 | (((v >> 56) & 0xFF) as u8 as u64) << 56) == v) by (bit_vector);
}

/// Round trip for booleans.
pub proof fn lemma_round_trip_bool(s: Seq<u8>, pos: int, v: bool)
    requires
        0 <= pos,
        pos + 1 <= s.len(),
        s.subrange(pos, pos + 1) == spec_enc_bool(v),
    ensures
        spec_dec_bool(s, pos) == Some((v, pos + 1)),
{
    assert(s[pos] == spec_enc_bool(v)[0]);
}

/// Round trip for byte strings.
pub proof fn lemma_round_trip_bytes(s: Seq<u8>, pos: int, v: Seq<u8>)
    requires
        0 <= pos,
        v.len() <= u64::MAX,
        pos + 8 + v.len() <= s.len(),
        s.subrange(pos, pos + 8 + v.len()) == spec_enc_bytes(v),
    ensures
        spec_dec_bytes(s, pos) == Some((v, pos + 8 + v.len())),
{
    assert(s.subrange(pos, pos + 8) =~= spec_enc_u64(v.len() as u64)) by {
        assert forall|i: int| 0 <= i < 8 implies #[trigger] s.subrange(pos, pos + 8)[i]
            == spec_enc_u64(v.len() as u64)[i] by {
            assert(s.subrange(pos, pos + 8 + v.len())[i] == spec_enc_bytes(v)[i]);
        }
    }
    lemma_round_trip_u64(s, pos, v.len() as u64);
    assert(s.subrange(pos + 8, pos + 8 + v.len()) =~= v) by {
        assert forall|i: int| 0 <= i < v.len() implies #[trigger] s.subrange(
            pos + 8,
            pos + 8 + v.len(),
        )[i] == v[i] by {
            assert(s.subrange(pos, pos + 8 + v.len())[i + 8] == spec_enc_bytes(v)[i + 8]);
        }
    }
}

/// Canonicity: whatever the boolean decoder accepts re-encodes to the very
/// byte it consumed, so each boolean has exactly one byte form.
pub proof fn lemma_canonical_bool(s: Seq<u8>, pos: int, v: bool, end: int)
    requires
        spec_dec_bool(s, pos) == Some((v, end)),
    ensures
        s.subrange(pos, end) == spec_enc_bool(v),
{
    assert(s.subrange(pos, end) =~= spec_enc_bool(v));
}

/// Canonicity for 64-bit integers: the bytes a decoder consumed are the
/// value's encoding.
pub proof fn lemma_canonical_u64(s: Seq<u8>, pos: int, v: u64, end: int)
    requires
        spec_dec_u64(s, pos) == Some((v, end)),
    ensures
        s.subrange(pos, end) == spec_enc_u64(v),
{
    let b0 = s[pos];
    let b1 = s[pos + 1];
    let b2 = s[pos + 2];
    let b3 = s[pos + 3];
    let b4 = s[pos + 4];
    let b5 = s[pos + 5];
    let b6 = s[pos + 6];
    let b7 = s[pos + 7];
    assert(v == (b0 as u64 | (b1 as u64) << 8 | (b2 as u64) << 16 | (b3 as u64) << 24 | (b4
        as u64) << 32 | (b5 as u64) << 40 | (b6 as u64) << 48 | (b7 as u64) << 56) as u64);
    assert(v == (b0 as u64 | (b1 as u64) << 8 | (b2 as u64) << 16 | (b3 as u64) << 24 | (b4
        as u64) << 32 | (b5 as u64) << 40 | (b6 as u64) << 48 | (b7 as u64) << 56) as u64 ==> ((v
        & 0xFF) as u8 == b0 && ((v >> 8) & 0xFF) as u8 == b1 && ((v >> 16) & 0xFF) as u8 == b2 && (
    (v >> 24) & 0xFF) as u8 == b3 && ((v >> 32) & 0xFF) as u8 == b4 && ((v >> 40) & 0xFF) as u8
        == b5 && ((v >> 48) & 0xFF) as u8 == b6 && ((v >> 56) & 0xFF) as u8 == b7))
        by (bit_vector);
    assert(s.subrange(pos, end) =~= spec_enc_u64(v));
}

/// The wire form of a middle-schema guest memory region: its base address,
/// then its size, both 64-bit little-endian.
pub open spec fn spec_enc_region(r: crate::schema_b::GuestMemoryRegionState) -> Seq<u8> {
    spec_enc_u64(r.base_address) + spec_enc_u64(r.size as u64)
}

/// What decoding a middle-schema guest memory region at `pos` yields.
pub open spec fn spec_dec_region(s: Seq<u8>, pos: int) -> Option<
    (crate::schema_b::GuestMemoryRegionState, int),
> {
    match spec_dec_u64(s, pos) {
        Some((base_address, p)) => match spec_dec_u64(s, p) {
            Some((size, q)) => if size <= usize::MAX {
                Some(
                    (
                        crate::schema_b::GuestMemoryRegionState {
                            base_address,
                            size: size as usize,
                        },
                        q,
                    ),
                )
            } else {
                None
            },
            None => None,
        },
        None => None,
    }
}

/// Append a middle-schema guest memory region's wire form.
pub fn enc_region(out: &mut Vec<u8>, r: &crate::schema_b::GuestMemoryRegionState)
    ensures
        final(out)@ == old(out)@ + spec_enc_region(*r),
{
    let ghost pre = out@;
    enc_u64(out, r.base_address);
    enc_u64(out, r.size as u64);
    proof {
        assert(out@ =~= pre + spec_enc_region(*r));
    }
}

/// Decode a middle-schema guest memory region.
pub fn dec_region(s: &Vec<u8>, pos: usize) -> (r: Option<
    (crate::schema_b::GuestMemoryRegionState, usize),
>)
    ensures
        r matches Some(v) ==> spec_dec_region(s@, pos as int) == Some((v.0, v.1 as int)),
        r is None ==> spec_dec_region(s@, pos as int) is None,
{
    match dec_u64(s, pos) {
        Some((base_address, p)) => match dec_u64(s, p) {
            Some((size, q)) => {
                if size <= usize::MAX as u64 {
                    Some(
                        (
                            crate::schema_b::GuestMemoryRegionState {
                                base_address,
                                size: size as usize,
                            },
                            q,
                        ),
                    )
                } else {
                    None
                }
            },
            None => None,
        },
        None => None,
    }
}

/// Round trip for a middle-schema guest memory region: its encoding, read
/// back where it was placed, yields the region.
pub proof fn lemma_round_trip_region(
    s: Seq<u8>,
    pos: int,
    r: crate::schema_b::GuestMemoryRegionState,
)
    requires
        0 <= pos,
        pos + 16 <= s.len(),
        s.subrange(pos, pos + 16) == spec_enc_region(r),
    ensures
        spec_dec_region(s, pos) == Some((r, pos + 16)),
{
    assert(s.subrange(pos, pos + 8) =~= spec_enc_u64(r.base_address)) by {
        assert forall|i: int| 0 <= i < 8 implies #[trigger] s.subrange(pos, pos + 8)[i]
            == spec_enc_u64(r.base_address)[i] by {
            assert(s.subrange(pos, pos + 16)[i] == spec_enc_region(r)[i]);
        }
    }
    assert(s.subrange(pos + 8, pos + 16) =~= spec_enc_u64(r.size as u64)) by {
        assert forall|i: int| 0 <= i < 8 implies #[trigger] s.subrange(pos + 8, pos + 16)[i]
            == spec_enc_u64(r.size as u64)[i] by {
            assert(s.subrange(pos, pos + 16)[i + 8] == spec_enc_region(r)[i + 8]);
        }
    }
    lemma_round_trip_u64(s, pos, r.base_address);
    lemma_round_trip_u64(s, pos + 8, r.size as u64);
}

/// The wire form of an optional 32-bit integer: a presence tag, then the
/// payload when present.  Tagged sums follow the same shape with a 32-bit
/// discriminant in place of the tag.
pub open spec fn spec_enc_opt_u32(v: Option<u32>) -> Seq<u8> {
    match v {
        Some(x) => spec_enc_bool(true) + spec_enc_u32(x),
        None => spec_enc_bool(false),
    }
}

/// What decoding an optional 32-bit integer at `pos` yields.
pub open spec fn spec_dec_opt_u32(s: Seq<u8>, pos: int) -> Option<(Option<u32>, int)> {
    match spec_dec_bool(s, pos) {
        Some((true, p)) => match spec_dec_u32(s, p) {
            Some((x, q)) => Some((Some(x), q)),
            None => None,
        },
        Some((false, p)) => Some((None, p)),
        None => None,
    }
}

/// Append an optional 32-bit integer's wire form.
pub fn enc_opt_u32(out: &mut Vec<u8>, v: Option<u32>)
    ensures
        final(out)@ == old(out)@ + spec_enc_opt_u32(v),
{
    let ghost pre = out@;
    match v {
        Some(x) => {
            enc_bool(out, true);
            enc_u32(out, x);
        },
        None => {
            enc_bool(out, false);
        },
    }
    proof {
        assert(out@ =~= pre + spec_enc_opt_u32(v));
    }
}

/// Decode an optional 32-bit integer.
pub fn dec_opt_u32(s: &Vec<u8>, pos: usize) -> (r: Option<(Option<u32>, usize)>)
    ensures
        r matches Some(v) ==> spec_dec_opt_u32(s@, pos as int) == Some((v.0, v.1 as int)),
        r is None ==> spec_dec_opt_u32(s@, pos as int) is None,
{
    match dec_bool(s, pos) {
        Some((true, p)) => match dec_u32(s, p) {
            Some((x, q)) => Some((Some(x), q)),
            None => None,
        },
        Some((false, p)) => Some((None, p)),
        None => None,
    }
}

/// Round trip for optional 32-bit integers.
pub proof fn lemma_round_trip_opt_u32(s: Seq<u8>, pos: int, v: Option<u32>)
    requires
        0 <= pos,
        pos + spec_enc_opt_u32(v).len() <= s.len(),
        s.subrange(pos, pos + spec_enc_opt_u32(v).len()) == spec_enc_opt_u32(v),
    ensures
        spec_dec_opt_u32(s, pos) == Some((v, pos + spec_enc_opt_u32(v).len())),
{
    match v {
        Some(x) => {
            assert(s.subrange(pos, pos + 5)[0] == spec_enc_opt_u32(v)[0]);
            assert(spec_enc_opt_u32(v)[0] == spec_enc_bool(true)[0]);
            assert(s[pos] == 1u8);
            assert(s.subrange(pos + 1, pos + 5) =~= spec_enc_u32(x)) by {
                assert forall|i: int| 0 <= i < 4 implies #[trigger] s.subrange(pos + 1, pos + 5)[i]
                    == spec_enc_u32(x)[i] by {
                    assert(s.subrange(pos, pos + 5)[i + 1] == spec_enc_opt_u32(v)[i + 1]);
                }
            }
            lemma_round_trip_u32(s, pos + 1, x);
        },
        None => {
            assert(s.subrange(pos, pos + 1)[0] == spec_enc_opt_u32(v)[0]);
            assert(spec_enc_opt_u32(v)[0] == spec_enc_bool(false)[0]);
            assert(s[pos] == 0u8);
        },
    }
}

} // verus!
