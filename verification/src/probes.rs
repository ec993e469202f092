//! The entry/return probe handlers: the state machine that pairs the start
//! and completion of a traced operation and decides what, if anything, to
//! emit.
//!
//! Each handler is a pure decision function. The hook machinery hands it the
//! packed process identity, the monotonic clock reading, the traced
//! function's result value and the process-name snapshot; the handler drives
//! one [`CorrelationStore`] and returns the record to push into the ring
//! transport, or nothing.

use vstd::prelude::*;
use crate::event::{spec_pid_of, spec_tgid_of, split_pid_tgid, TcpEvent, TrafficDirection};
use crate::store::CorrelationStore;

verus! {

/// Every start timestamp in the store is no later than `now`: what a
/// monotonic clock guarantees of stamps it handed out earlier.
pub open spec fn stamps_at_most(m: Map<u64, u64>, now: u64) -> bool {
    forall|k: u64| m.contains_key(k) ==> #[trigger] m[k] <= now
}

/// The record a return hook emits for a completed operation.
pub open spec fn spec_emitted(
    pid_tgid: u64,
    len: usize,
    direction: TrafficDirection,
    duration_ns: u64,
    comm: [u8; 16],
) -> TcpEvent {
    TcpEvent {
        pid: spec_pid_of(pid_tgid),
        tgid: spec_tgid_of(pid_tgid),
        len,
        direction,
        duration_ns,
        comm,
    }
}

/// Arms the send state machine: records the operation's start time, or does
/// nothing further when the store is at capacity.
pub fn tcp_sendmsg_entry(store: &mut CorrelationStore, pid_tgid: u64, now: u64)
    requires
        old(store).wf(),
    ensures
        final(store).wf(),
        final(store).spec_capacity() == old(store).spec_capacity(),
        old(store)@.contains_key(pid_tgid) || !old(store).is_full() ==> final(store)@ == old(
            store,
        )@.insert(pid_tgid, now),
        !(old(store)@.contains_key(pid_tgid) || !old(store).is_full()) ==> final(store)@ == old(
            store,
        )@,
{
    let _ = store.insert(pid_tgid, now);
}

/// Arms the receive state machine; same discipline as the send entry hook.
pub fn tcp_recvmsg_entry(store: &mut CorrelationStore, pid_tgid: u64, now: u64)
    requires
        old(store).wf(),
    ensures
        final(store).wf(),
        final(store).spec_capacity() == old(store).spec_capacity(),
        old(store)@.contains_key(pid_tgid) || !old(store).is_full() ==> final(store)@ == old(
            store,
        )@.insert(pid_tgid, now),
        !(old(store)@.contains_key(pid_tgid) || !old(store).is_full()) ==> final(store)@ == old(
            store,
        )@,
{
    let _ = store.insert(pid_tgid, now);
}

/// Arms the accept state machine; same discipline as the send entry hook.
pub fn inet_csk_accept_entry(store: &mut CorrelationStore, pid_tgid: u64, now: u64)
    requires
        old(store).wf(),
    ensures
        final(store).wf(),
        final(store).spec_capacity() == old(store).spec_capacity(),
        old(store)@.contains_key(pid_tgid) || !old(store).is_full() ==> final(store)@ == old(
            store,
        )@.insert(pid_tgid, now),
        !(old(store)@.contains_key(pid_tgid) || !old(store).is_full()) ==> final(store)@ == old(
            store,
        )@,
{
    let _ = store.insert(pid_tgid, now);
}

/// Completes a send or receive operation.
///
/// Looks up and consumes the start time recorded for this operation
/// identity. A record is emitted only when a matching entry was armed and
/// the traced function's result reports bytes actually transferred
/// (`ret > 0`); the result becomes `len` and the elapsed time between the
/// two hook firings becomes `duration_ns`. A missed entry or a
/// failure/zero result emits nothing, and the armed entry, if any, is
/// consumed either way.
pub fn handle_return(
    store: &mut CorrelationStore,
    pid_tgid: u64,
    now: u64,
    ret: i32,
    direction: TrafficDirection,
    comm: [u8; 16],
) -> (ev: Option<TcpEvent>)
    requires
        old(store).wf(),
        stamps_at_most(old(store)@, now),
        direction == TrafficDirection::Egress || direction == TrafficDirection::Ingress,
    ensures
        final(store).wf(),
        final(store).spec_capacity() == old(store).spec_capacity(),
        final(store)@ == old(store)@.remove(pid_tgid),
        old(store)@.contains_key(pid_tgid) && ret > 0 ==> ev == Some(
            spec_emitted(
                pid_tgid,
                ret as usize,
                direction,
                (now - old(store)@[pid_tgid]) as u64,
                comm,
            ),
        ),
        !(old(store)@.contains_key(pid_tgid) && ret > 0) ==> ev is None,
{
    let mut emitted: Option<TcpEvent> = None;
    match store.get(pid_tgid) {
        Some(start_time) => {
            if ret > 0 {
                let duration_ns = now - start_time;
                let (tgid, pid) = split_pid_tgid(pid_tgid);
                emitted = Some(
                    TcpEvent {
                        pid,
                        tgid,
                        len: ret as usize,
                        direction,
                        duration_ns,
                        comm,
                    },
                );
            }
            store.remove(pid_tgid);
        },
        None => {
            proof {
                assert(old(store)@ =~= old(store)@.remove(pid_tgid));
            }
        },
    }
    emitted
}

/// Completes a send: emits only on a result reporting transferred bytes.
pub fn tcp_sendmsg_return(
    store: &mut CorrelationStore,
    pid_tgid: u64,
    now: u64,
    ret: i32,
    comm: [u8; 16],
) -> (ev: Option<TcpEvent>)
    requires
        old(store).wf(),
        stamps_at_most(old(store)@, now),
    ensures
        final(store).wf(),
        final(store).spec_capacity() == old(store).spec_capacity(),
        final(store)@ == old(store)@.remove(pid_tgid),
        old(store)@.contains_key(pid_tgid) && ret > 0 ==> ev == Some(
            spec_emitted(
                pid_tgid,
                ret as usize,
                TrafficDirection::Egress,
                (now - old(store)@[pid_tgid]) as u64,
                comm,
            ),
        ),
        !(old(store)@.contains_key(pid_tgid) && ret > 0) ==> ev is None,
{
    handle_return(store, pid_tgid, now, ret, TrafficDirection::Egress, comm)
}

/// Completes a receive: emits only on a result reporting transferred bytes.
pub fn tcp_recvmsg_return(
    store: &mut CorrelationStore,
    pid_tgid: u64,
    now: u64,
    ret: i32,
    comm: [u8; 16],
) -> (ev: Option<TcpEvent>)
    requires
        old(store).wf(),
        stamps_at_most(old(store)@, now),
    ensures
        final(store).wf(),
        final(store).spec_capacity() == old(store).spec_capacity(),
        final(store)@ == old(store)@.remove(pid_tgid),
        old(store)@.contains_key(pid_tgid) && ret > 0 ==> ev == Some(
            spec_emitted(
                pid_tgid,
                ret as usize,
                TrafficDirection::Ingress,
                (now - old(store)@[pid_tgid]) as u64,
                comm,
            ),
        ),
        !(old(store)@.contains_key(pid_tgid) && ret > 0) ==> ev is None,
{
    handle_return(store, pid_tgid, now, ret, TrafficDirection::Ingress, comm)
}

/// Completes an accept.
///
/// The traced function returns a handle: a null handle reports failure and
/// emits nothing. An accepted connection has no byte-length semantics, so
/// `len` is fixed at zero.
pub fn inet_csk_accept_return(
    store: &mut CorrelationStore,
    pid_tgid: u64,
    now: u64,
    ret: u64,
    comm: [u8; 16],
) -> (ev: Option<TcpEvent>)
    requires
        old(store).wf(),
        stamps_at_most(old(store)@, now),
    ensures
        final(store).wf(),
        final(store).spec_capacity() == old(store).spec_capacity(),
        final(store)@ == old(store)@.remove(pid_tgid),
        old(store)@.contains_key(pid_tgid) && ret != 0 ==> ev == Some(
            spec_emitted(
                pid_tgid,
                0,
                TrafficDirection::Accept,
                (now - old(store)@[pid_tgid]) as u64,
                comm,
            ),
        ),
        !(old(store)@.contains_key(pid_tgid) && ret != 0) ==> ev is None,
{
    let mut emitted: Option<TcpEvent> = None;
    match store.get(pid_tgid) {
        Some(start_time) => {
            if ret != 0 {
                let duration_ns = now - start_time;
                let (tgid, pid) = split_pid_tgid(pid_tgid);
                emitted = Some(
                    TcpEvent {
                        pid,
                        tgid,
                        len: 0,
                        direction: TrafficDirection::Accept,
                        duration_ns,
                        comm,
                    },
                );
            }
        },
        None => {
        },
    }
    store.remove(pid_tgid);
    proof {
        if !old(store)@.contains_key(pid_tgid) {
            assert(old(store)@ =~= old(store)@.remove(pid_tgid));
        }
    }
    emitted
}

/// The retransmit hook: a point-in-time signal with no entry/return pairing.
/// It emits synchronously and unconditionally, with no byte length and no
/// duration, and touches no correlation store.
pub fn tcp_retransmit_skb_entry(pid_tgid: u64, comm: [u8; 16]) -> (ev: TcpEvent)
    ensures
        ev == spec_emitted(pid_tgid, 0, TrafficDirection::Retransmit, 0, comm),
{
    let (tgid, pid) = split_pid_tgid(pid_tgid);
    TcpEvent {
        pid,
        tgid,
        len: 0,
        direction: TrafficDirection::Retransmit,
        duration_ns: 0,
        comm,
    }
}

/// An entry hook that records its start time into a store, followed by the
/// matching return hook with no interfering operation on the same identity
/// in between, emits exactly the wall-clock delta between the two firings:
/// the start time the return hook consumes is the one the entry hook wrote.
pub proof fn lemma_paired_duration(before: Map<u64, u64>, pid_tgid: u64, t_entry: u64, t_return: u64)
    requires
        t_entry <= t_return,
    ensures
        before.insert(pid_tgid, t_entry).contains_key(pid_tgid),
        (t_return - before.insert(pid_tgid, t_entry)[pid_tgid]) as u64 == (t_return
            - t_entry) as u64,
{
}

} // verus!
