use vstd::prelude::*;

use crate::cq::CompletionQueue;
use crate::error::Error;
use crate::wc::{is_known_status, WorkCompletion};
use crate::work::{decodes_to, tag_of, DispatchError, OpKind, State, Step, WorkId, WorkTable};
use crate::wr::{Opcode, RecvRequest, SendFlags, SendRequest, Sge, SEND_SIGNALED};

verus! {

/// Where and with which key a one-sided operation reaches remote memory.
#[derive(Clone, Copy, Debug, PartialEq, Eq, Structural)]
pub struct RemoteAccess {
    pub addr: u64,
    pub length: usize,
    pub rkey: u32,
}

/// The work request that an operation posts.
pub enum WorkRequest {
    Send(SendRequest),
    Recv(RecvRequest),
}

/// Builds the signalled work request of an operation of `kind` under the
/// correlation tag `tag`. Sends, writes and reads go to the send queue; a
/// write or read names the remote range, which it must be given.
pub fn work_request(kind: OpKind, tag: u64, sg_list: Vec<Sge>, remote: Option<RemoteAccess>) -> (r:
    WorkRequest)
    requires
        kind == OpKind::Write || kind == OpKind::Read ==> remote is Some,
    ensures
        kind == OpKind::Recv <==> r is Recv,
        r matches WorkRequest::Recv(rr) ==> rr == (RecvRequest { wr_id: tag, sg_list, next: None }),
        r matches WorkRequest::Send(sr) ==> {
            &&& sr.wr_id == tag
            &&& sr.sg_list == sg_list
            &&& sr.send_flags.bits == SEND_SIGNALED
            &&& sr.next is None
            &&& kind == OpKind::Send ==> sr.opcode == Opcode::Send && sr.remote_addr == 0
                && sr.rkey == 0
            &&& kind == OpKind::Write ==> sr.opcode == Opcode::Write && sr.remote_addr
                == remote->0.addr && sr.rkey == remote->0.rkey
            &&& kind == OpKind::Read ==> sr.opcode == Opcode::Read && sr.remote_addr
                == remote->0.addr && sr.rkey == remote->0.rkey
        },
{
    match kind {
        OpKind::Recv => {
            let mut rr = RecvRequest::zeroed();
            rr.id(tag).sg_list(sg_list);
            WorkRequest::Recv(rr)
        },
        _ => {
            let mut sr = SendRequest::zeroed();
            sr.id(tag).sg_list(sg_list).send_flags(SendFlags { bits: SEND_SIGNALED });
            match kind {
                OpKind::Write => {
                    let ra = remote.unwrap();
                    sr.opcode(Opcode::Write).rdma_remote_addr(ra.addr).rdma_rkey(ra.rkey);
                },
                OpKind::Read => {
                    let ra = remote.unwrap();
                    sr.opcode(Opcode::Read).rdma_remote_addr(ra.addr).rdma_rkey(ra.rkey);
                },
                _ => {
                    sr.opcode(Opcode::Send);
                },
            }
            WorkRequest::Send(sr)
        },
    }
}

/// Takes in one event that a wait on the channel delivered for the armed
/// queue `cq`, acknowledges it, and records the outcome `rearm` of arming
/// the queue again, which must happen before the queue is drained: the
/// count of acknowledged events never passes the count of delivered ones,
/// and on success the queue is armed for the next completion.
pub fn on_channel_event(cq: &mut CompletionQueue, rearm: i32) -> (r: Result<(), Error>)
    requires
        old(cq).wf(),
        old(cq).is_armed(),
        old(cq).consumed() < u64::MAX,
    ensures
        final(cq).wf(),
        final(cq).consumed() == old(cq).consumed() + 1,
        final(cq).acked() == old(cq).acked() + 1,
        final(cq).spec_key() == old(cq).spec_key(),
        final(cq).spec_channel() == old(cq).spec_channel(),
        rearm == 0 ==> r is Ok && final(cq).is_armed(),
        rearm != 0 ==> r == Err::<(), Error>(Error::Os(rearm)) && !final(cq).is_armed(),
{
    cq.record_event();
    cq.ack_cq_events(1);
    cq.req_notify_all(rearm)
}

/// Whether the drain of a queue goes on after a poll that returned
/// `polled` records: it stops at the first empty poll.
pub fn keep_draining(polled: usize) -> (r: bool)
    ensures
        r == (polled > 0),
{
    polled > 0
}

/// The record handle that a completion's tag names.
pub open spec fn tagged(wc: WorkCompletion) -> WorkId {
    choose|id: WorkId| tag_of(id) == wc.wr_id
}

/// Completion `k` of the batch names a record that is running before the
/// batch, in a slot that no earlier completion of the batch named.
pub open spec fn fresh_running<T>(t: WorkTable<T>, wcs: Seq<WorkCompletion>, k: int) -> bool {
    &&& t.is_live(tagged(wcs[k]))
    &&& t.state(tagged(wcs[k])) == State::Running
    &&& forall|a: int| 0 <= a < k ==> (#[trigger] tagged(wcs[a])).index != tagged(wcs[k]).index
}

/// Completion `k` of the batch can be dispatched.
pub open spec fn dispatchable<T>(t: WorkTable<T>, wcs: Seq<WorkCompletion>, k: int) -> bool {
    fresh_running(t, wcs, k) && is_known_status(wcs[k].status)
}

/// The error that stops the batch at completion `k`.
pub open spec fn batch_error<T>(t: WorkTable<T>, wcs: Seq<WorkCompletion>, k: int) -> DispatchError {
    if fresh_running(t, wcs, k) {
        DispatchError::UnknownStatus
    } else {
        DispatchError::UnknownTag
    }
}

/// The waker that the running record of `id` holds.
pub open spec fn running_waker<T>(t: WorkTable<T>, id: WorkId) -> u64 {
    match t.record(id).step {
        Step::Running { waker, .. } => waker,
        _ => 0,
    }
}

/// The record that `wc` names went from running in `before` to completed
/// in `after`, keeping its payload and waker and taking the completion's
/// status, byte count and immediate data.
pub open spec fn completed_by<T>(before: WorkTable<T>, after: WorkTable<T>, wc: WorkCompletion) -> bool {
    let id = tagged(wc);
    &&& after.is_live(id)
    &&& after.record(id).kind == before.record(id).kind
    &&& before.record(id).step matches Step::Running { payload, waker } && (after.record(
        id,
    ).step matches Step::Completed { payload: p, waker: w, status, byte_len, imm_data } && p
        == payload && w == waker && decodes_to(wc.status, status) && byte_len == wc.byte_len
        && imm_data == wc.imm_data)
}

/// The first `k` completions were dispatched: their records are completed,
/// every other slot is as it was.
pub open spec fn dispatched_prefix<T>(
    before: WorkTable<T>,
    after: WorkTable<T>,
    wcs: Seq<WorkCompletion>,
    k: int,
) -> bool {
    &&& after@.len() == before@.len()
    &&& forall|a: int| 0 <= a < k ==> dispatchable(before, wcs, a)
    &&& forall|a: int| 0 <= a < k ==> completed_by(before, after, #[trigger] wcs[a])
    &&& forall|j: int|
        0 <= j < before@.len() && (forall|a: int| 0 <= a < k ==> (#[trigger] tagged(wcs[a])).index != j)
            ==> after@[j] == before@[j]
}

/// Dispatches a batch of drained completions in order, gathering the
/// wakers to wake. The batch succeeds exactly when each completion names a
/// running record that no earlier one named and carries a known status;
/// then every such record is completed and its waker returned, in order.
/// Otherwise the first completion that fails stops the batch with its
/// error, after those before it were dispatched.
pub fn dispatch_batch<T>(table: &mut WorkTable<T>, wcs: &[WorkCompletion]) -> (r: Result<
    Vec<u64>,
    DispatchError,
>)
    requires
        old(table).wf(),
    ensures
        final(table).wf(),
        r is Ok <==> forall|a: int| 0 <= a < wcs@.len() ==> dispatchable(*old(table), wcs@, a),
        r matches Ok(wakers) ==> {
            &&& dispatched_prefix(*old(table), *final(table), wcs@, wcs@.len() as int)
            &&& wakers@.len() == wcs@.len()
            &&& forall|a: int|
                0 <= a < wcs@.len() ==> wakers@[a] == running_waker(*old(table), tagged(#[trigger] wcs@[a]))
        },
        r matches Err(e) ==> exists|k: int|
            0 <= k < wcs@.len() && !dispatchable(*old(table), wcs@, k) && e == batch_error(
                *old(table),
                wcs@,
                k,
            ) && dispatched_prefix(*old(table), *final(table), wcs@, k),
{
    let mut wakers: Vec<u64> = Vec::new();
    let mut i: usize = 0;
    while i < wcs.len()
        invariant
            table.wf(),
            i <= wcs@.len(),
            wakers@.len() == i,
            dispatched_prefix(*old(table), *table, wcs@, i as int),
            forall|a: int|
                0 <= a < i ==> wakers@[a] == running_waker(*old(table), tagged(#[trigger] wcs@[a])),
        decreases wcs@.len() - i,
    {
        let ghost before = *table;
        let wc = &wcs[i];
        let ghost id = tagged(*wc);
        proof {
            if exists|a: int| 0 <= a < i && (#[trigger] tagged(wcs@[a])).index == id.index {
                let a = choose|a: int| 0 <= a < i && (#[trigger] tagged(wcs@[a])).index == id.index;
                assert(completed_by(*old(table), before, wcs@[a]));
                let ida = tagged(wcs@[a]);
                if before.is_live(id) {
                    assert(ida.generation == id.generation);
                    assert(ida == id);
                }
                assert(!fresh_running(*old(table), wcs@, i as int));
            } else {
                if id.index < old(table)@.len() {
                    assert(forall|a: int| 0 <= a < i ==> (#[trigger] tagged(wcs@[a])).index != id.index);
                    assert(before@[id.index as int] == old(table)@[id.index as int]);
                }
                assert(before.is_live(id) == old(table).is_live(id));
            }
        }
        let res = table.complete(wc);
        match res {
            Ok(w) => {
                wakers.push(w);
            },
            Err(e) => {
                proof {
                    assert(!dispatchable(*old(table), wcs@, i as int));
                    assert(e == batch_error(*old(table), wcs@, i as int));
                    assert(dispatched_prefix(*old(table), *table, wcs@, i as int));
                }
                return Err(e);
            },
        }
        proof {
            assert(dispatchable(*old(table), wcs@, i as int));
            assert forall|a: int| 0 <= a < i + 1 implies completed_by(*old(table), *table, #[trigger] wcs@[a]) by {
                if a < i {
                    let ida = tagged(wcs@[a]);
                    assert(ida.index != id.index);
                    assert(table@[ida.index as int] == before@[ida.index as int]);
                    assert(completed_by(*old(table), before, wcs@[a]));
                } else {
                    assert(forall|b: int| 0 <= b < i ==> (#[trigger] tagged(wcs@[b])).index != id.index);
                    assert(before@[id.index as int] == old(table)@[id.index as int]);
                }
            }
            assert forall|j: int|
                0 <= j < old(table)@.len() && (forall|a: int| 0 <= a < i + 1 ==> (#[trigger] tagged(wcs@[a])).index != j)
                    implies table@[j] == old(table)@[j] by {
                assert(tagged(wcs@[i as int]).index != j);
                assert(forall|a: int| 0 <= a < i ==> (#[trigger] tagged(wcs@[a])).index != j);
            }
            assert(wakers@[i as int] == running_waker(*old(table), id));
        }
        i = i + 1;
    }
    proof {
        assert forall|a: int| 0 <= a < wcs@.len() implies dispatchable(*old(table), wcs@, a) by {}
    }
    Ok(wakers)
}

} // verus!
