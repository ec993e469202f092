//! The event record shared between the kernel-side probes and the
//! userspace pipeline, and the packed process-identity value.

use vstd::prelude::*;

verus! {

/// Discriminates the kind of traced operation.
///
/// On the wire the four kinds are encoded as the fixed-width codes given by
/// [`direction_code`]; see the codec module.
#[derive(Clone, Copy, Debug, PartialEq, Eq, Structural)]
pub enum TrafficDirection {
    /// Data received.
    Ingress,
    /// Data sent.
    Egress,
    /// A connection accepted.
    Accept,
    /// A segment retransmitted.
    Retransmit,
}

/// The wire code of a direction: a fixed-width integer both sides agree on.
pub open spec fn spec_direction_code(d: TrafficDirection) -> u32 {
    match d {
        TrafficDirection::Ingress => 0,
        TrafficDirection::Egress => 1,
        TrafficDirection::Accept => 2,
        TrafficDirection::Retransmit => 3,
    }
}

/// The direction a wire code stands for, if any.
pub open spec fn spec_direction_from_code(c: u32) -> Option<TrafficDirection> {
    if c == 0 {
        Some(TrafficDirection::Ingress)
    } else if c == 1 {
        Some(TrafficDirection::Egress)
    } else if c == 2 {
        Some(TrafficDirection::Accept)
    } else if c == 3 {
        Some(TrafficDirection::Retransmit)
    } else {
        None
    }
}

/// Encodes a direction as its wire code.
pub fn direction_code(d: TrafficDirection) -> (c: u32)
    ensures
        c == spec_direction_code(d),
{
    match d {
        TrafficDirection::Ingress => 0,
        TrafficDirection::Egress => 1,
        TrafficDirection::Accept => 2,
        TrafficDirection::Retransmit => 3,
    }
}

/// Decodes a wire code; a code outside the enumeration is rejected.
pub fn direction_from_code(c: u32) -> (d: Option<TrafficDirection>)
    ensures
        d == spec_direction_from_code(c),
{
    if c == 0 {
        Some(TrafficDirection::Ingress)
    } else if c == 1 {
        Some(TrafficDirection::Egress)
    } else if c == 2 {
        Some(TrafficDirection::Accept)
    } else if c == 3 {
        Some(TrafficDirection::Retransmit)
    } else {
        None
    }
}

/// Round trip of the direction codes: every direction decodes back from its
/// own code, and every code inside the enumeration encodes back to itself.
pub proof fn lemma_direction_code_round_trip()
    ensures
        forall|d: TrafficDirection| spec_direction_from_code(spec_direction_code(d)) == Some(d),
        forall|c: u32|
            spec_direction_from_code(c) is Some ==> spec_direction_code(
                spec_direction_from_code(c)->Some_0,
            ) == c,
{
}

/// One timed traffic operation, as carried from kernel to userspace.
#[derive(Clone, Copy, Debug, PartialEq)]
pub struct TcpEvent {
    /// Thread identifier of the operation.
    pub pid: u32,
    /// Owning process (thread-group) identifier.
    pub tgid: u32,
    /// Bytes transferred; 0 for operations with no byte-length semantics.
    pub len: usize,
    /// Kind of the operation.
    pub direction: TrafficDirection,
    /// Elapsed time between entry and return, in nanoseconds; 0 when the
    /// operation has no natural duration.
    pub duration_ns: u64,
    /// Null-padded process-name snapshot, exactly sixteen bytes.
    pub comm: [u8; 16],
}

/// The owning-process half of a packed process identity: its high half.
pub open spec fn spec_tgid_of(pid_tgid: u64) -> u32 {
    (pid_tgid >> 32) as u32
}

/// The thread half of a packed process identity: its low half.
pub open spec fn spec_pid_of(pid_tgid: u64) -> u32 {
    (pid_tgid & 0xffff_ffff) as u32
}

/// Splits a packed process identity into thread-group and thread halves.
pub fn split_pid_tgid(pid_tgid: u64) -> (r: (u32, u32))
    ensures
        r.0 == spec_tgid_of(pid_tgid),
        r.1 == spec_pid_of(pid_tgid),
{
    (((pid_tgid >> 32) as u32), ((pid_tgid & 0xffff_ffff) as u32))
}

/// Packs thread-group and thread identifiers into one process identity.
pub fn pack_pid_tgid(tgid: u32, pid: u32) -> (r: u64)
    ensures
        spec_tgid_of(r) == tgid,
        spec_pid_of(r) == pid,
{
    let r = ((tgid as u64) << 32) | (pid as u64);
    proof {
        let t = tgid as u64;
        let p = pid as u64;
        assert(t <= 0xffff_ffff && p <= 0xffff_ffff ==> ((t << 32) | p) >> 32 == t
            && ((t << 32) | p) & 0xffff_ffff == p) by (bit_vector);
    }
    r
}

} // verus!
