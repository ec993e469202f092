//! The byte-exact wire format of the event record.
//!
//! The record's layout is the contract between the kernel producer and the
//! userspace consumer: little-endian fields at fixed offsets, in order
//! `pid`, `tgid`, `len`, the direction code, four bytes of alignment
//! padding, `duration_ns`, and the sixteen `comm` bytes. Any change to
//! field order, width or the direction codes is a breaking change that
//! requires both sides to be rebuilt together.

use vstd::prelude::*;
use vstd::bytes::{
    lemma_auto_spec_u32_to_from_le_bytes, lemma_auto_spec_u64_to_from_le_bytes,
    spec_u32_from_le_bytes, spec_u32_to_le_bytes, spec_u64_from_le_bytes, spec_u64_to_le_bytes,
    u32_from_le_bytes, u32_to_le_bytes, u64_from_le_bytes, u64_to_le_bytes,
};
use vstd::slice::{slice_index_get, slice_subrange};
use crate::event::{
    spec_direction_code, spec_direction_from_code, direction_code, direction_from_code, TcpEvent,
    TrafficDirection,
};

verus! {

broadcast use vstd::seq::group_seq_axioms, vstd::array::group_array_axioms;

/// Size of one encoded event record.
pub const EVENT_BYTES: usize = 48;

/// The encoding of an event record.
pub open spec fn spec_encode_event(ev: TcpEvent) -> Seq<u8> {
    spec_u32_to_le_bytes(ev.pid) + spec_u32_to_le_bytes(ev.tgid) + spec_u64_to_le_bytes(
        ev.len as u64,
    ) + spec_u32_to_le_bytes(spec_direction_code(ev.direction)) + seq![0u8, 0u8, 0u8, 0u8]
        + spec_u64_to_le_bytes(ev.duration_ns) + ev.comm@
}

/// A byte window decodes: it has the exact record size, a direction code
/// inside the enumeration, and a length that fits the host.
pub open spec fn spec_decodable(b: Seq<u8>) -> bool {
    &&& b.len() == EVENT_BYTES
    &&& spec_direction_from_code(spec_u32_from_le_bytes(b.subrange(16, 20))) is Some
    &&& spec_u64_from_le_bytes(b.subrange(8, 16)) <= usize::MAX as u64
}

/// The record a byte window decodes to: each field read from its fixed
/// offset, the padding ignored.
pub open spec fn decodes_to(b: Seq<u8>, ev: TcpEvent) -> bool {
    &&& b.len() == EVENT_BYTES
    &&& ev.pid == spec_u32_from_le_bytes(b.subrange(0, 4))
    &&& ev.tgid == spec_u32_from_le_bytes(b.subrange(4, 8))
    &&& ev.len as u64 == spec_u64_from_le_bytes(b.subrange(8, 16))
    &&& Some(ev.direction) == spec_direction_from_code(
        spec_u32_from_le_bytes(b.subrange(16, 20)),
    )
    &&& ev.duration_ns == spec_u64_from_le_bytes(b.subrange(24, 32))
    &&& ev.comm@ == b.subrange(32, 48)
}

/// The record a byte window decodes to, as a value: well defined whenever
/// some record decodes from the window, since at most one does.
pub open spec fn spec_decoded(b: Seq<u8>) -> TcpEvent {
    choose|ev: TcpEvent| decodes_to(b, ev)
}

/// At most one record decodes from a byte window.
pub proof fn lemma_decode_unique(b: Seq<u8>, ev1: TcpEvent, ev2: TcpEvent)
    requires
        decodes_to(b, ev1),
        decodes_to(b, ev2),
    ensures
        ev1 == ev2,
{
    assert(ev1.comm@ =~= ev2.comm@);
    assert(ev1.comm == ev2.comm);
}

/// Encodes an event record to its wire bytes.
pub fn encode_event(ev: &TcpEvent) -> (r: Vec<u8>)
    ensures
        r@ == spec_encode_event(*ev),
        r@.len() == EVENT_BYTES,
{
    proof {
        lemma_auto_spec_u32_to_from_le_bytes();
        lemma_auto_spec_u64_to_from_le_bytes();
    }
    let mut r = u32_to_le_bytes(ev.pid);
    let mut tgid_bytes = u32_to_le_bytes(ev.tgid);
    r.append(&mut tgid_bytes);
    let mut len_bytes = u64_to_le_bytes(ev.len as u64);
    r.append(&mut len_bytes);
    let mut code_bytes = u32_to_le_bytes(direction_code(ev.direction));
    r.append(&mut code_bytes);
    r.push(0);
    r.push(0);
    r.push(0);
    r.push(0);
    let mut duration_bytes = u64_to_le_bytes(ev.duration_ns);
    r.append(&mut duration_bytes);
    let ghost head = r@;
    let mut i: usize = 0;
    while i < 16
        invariant
            i <= 16,
            ev.comm@.len() == 16,
            r@ == head + ev.comm@.take(i as int),
        decreases 16 - i,
    {
        r.push(ev.comm[i]);
        proof {
            assert(head + ev.comm@.take(i + 1 as int) =~= (head + ev.comm@.take(i as int)).push(
                ev.comm@[i as int],
            ));
        }
        i = i + 1;
    }
    proof {
        assert(ev.comm@.take(16) =~= ev.comm@);
        assert(r@ =~= spec_encode_event(*ev));
    }
    r
}

/// Decodes a byte window into an event record.
///
/// A window of the wrong size, a direction code outside the enumeration or
/// a length too large for the host is rejected as a corrupt record rather
/// than passed through.
pub fn decode_event(bytes: &[u8]) -> (r: Option<TcpEvent>)
    ensures
        r is Some <==> spec_decodable(bytes@),
        r is Some ==> decodes_to(bytes@, r->Some_0),
{
    if bytes.len() != EVENT_BYTES {
        return None;
    }
    let pid = u32_from_le_bytes(slice_subrange(bytes, 0, 4));
    let tgid = u32_from_le_bytes(slice_subrange(bytes, 4, 8));
    let len64 = u64_from_le_bytes(slice_subrange(bytes, 8, 16));
    let code = u32_from_le_bytes(slice_subrange(bytes, 16, 20));
    let duration_ns = u64_from_le_bytes(slice_subrange(bytes, 24, 32));
    let direction = match direction_from_code(code) {
        Some(d) => d,
        None => {
            return None;
        },
    };
    if len64 > usize::MAX as u64 {
        return None;
    }
    let len = len64 as usize;
    let mut comm = [0u8; 16];
    let mut i: usize = 0;
    while i < 16
        invariant
            i <= 16,
            bytes@.len() == EVENT_BYTES,
            comm@.len() == 16,
            forall|j: int| 0 <= j < i ==> comm@[j] == bytes@[32 + j],
        decreases 16 - i,
    {
        comm[i] = *slice_index_get(bytes, 32 + i);
        i = i + 1;
    }
    proof {
        assert(comm@ =~= bytes@.subrange(32, 48));
    }
    Some(TcpEvent { pid, tgid, len, direction, duration_ns, comm })
}

/// Round trip: encoding any event record and decoding the bytes back yields
/// a record equal in every field to the original, for the full range of
/// valid direction values.
pub proof fn lemma_event_round_trip(ev: TcpEvent)
    ensures
        spec_decodable(spec_encode_event(ev)),
        forall|ev2: TcpEvent| decodes_to(spec_encode_event(ev), ev2) ==> ev2 == ev,
{
    lemma_auto_spec_u32_to_from_le_bytes();
    lemma_auto_spec_u64_to_from_le_bytes();
    crate::event::lemma_direction_code_round_trip();
    let b = spec_encode_event(ev);
    assert(ev.comm@.len() == 16);
    assert(b.subrange(0, 4) =~= spec_u32_to_le_bytes(ev.pid));
    assert(b.subrange(4, 8) =~= spec_u32_to_le_bytes(ev.tgid));
    assert(b.subrange(8, 16) =~= spec_u64_to_le_bytes(ev.len as u64));
    assert(b.subrange(16, 20) =~= spec_u32_to_le_bytes(spec_direction_code(ev.direction)));
    assert(b.subrange(24, 32) =~= spec_u64_to_le_bytes(ev.duration_ns));
    assert(b.subrange(32, 48) =~= ev.comm@);
    assert forall|ev2: TcpEvent| decodes_to(b, ev2) implies ev2 == ev by {
        assert(ev2.comm@ =~= ev.comm@);
        assert(ev2.comm == ev.comm);
    }
}

} // verus!
