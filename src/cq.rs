use vstd::prelude::*;

use crate::cc::CompChannel;
use crate::error::{from_errno, Error};
use crate::resource::{appended, has_live_dependent, lists, same_shape, ResourceKind, ResourceTable};

verus! {

/// How a completion queue is to be created.
pub struct CompletionQueueOptions {
    pub cqe: usize,
    pub user_data: usize,
    pub channel: Option<usize>,
}

impl Default for CompletionQueueOptions {
    fn default() -> (r: Self)
        ensures
            r.cqe == 0,
            r.user_data == 0,
            r.channel is None,
    {
        CompletionQueueOptions { cqe: 0, user_data: 0, channel: None }
    }
}

impl CompletionQueueOptions {
    /// Sets the number of completion records the queue holds.
    pub fn cqe(&mut self, cqe: usize) -> (r: &mut Self)
        ensures
            r.cqe == cqe,
            r.user_data == old(self).user_data,
            r.channel == old(self).channel,
            *final(self) == *final(r),
    {
        self.cqe = cqe;
        self
    }

    /// Sets the opaque tag that the queue carries.
    pub fn user_data(&mut self, user_data: usize) -> (r: &mut Self)
        ensures
            r.cqe == old(self).cqe,
            r.user_data == user_data,
            r.channel == old(self).channel,
            *final(self) == *final(r),
    {
        self.user_data = user_data;
        self
    }

    /// Binds the queue to the completion channel `cc`.
    pub fn channel(&mut self, cc: &CompChannel) -> (r: &mut Self)
        ensures
            r.cqe == old(self).cqe,
            r.user_data == old(self).user_data,
            r.channel == Some(cc.spec_key()),
            *final(self) == *final(r),
    {
        self.channel = Some(cc.key());
        self
    }
}

/// A completion queue: a ring of `cqe` completion records, optionally bound
/// to a completion channel. It counts the notification events it consumed
/// and those acknowledged; the acknowledgments never outnumber the events,
/// and all of them are handed to the hardware, at once, when the queue is
/// destroyed.
pub struct CompletionQueue {
    key: usize,
    cqe: usize,
    user_data: usize,
    channel: Option<usize>,
    events_consumed: u64,
    events_acked: u64,
    armed: bool,
    solicited_only: bool,
}

impl CompletionQueue {
    pub closed spec fn spec_key(&self) -> usize {
        self.key
    }

    pub closed spec fn spec_cqe(&self) -> usize {
        self.cqe
    }

    pub closed spec fn spec_user_data(&self) -> usize {
        self.user_data
    }

    pub closed spec fn spec_channel(&self) -> Option<usize> {
        self.channel
    }

    /// Notification events that were delivered for this queue.
    pub closed spec fn consumed(&self) -> u64 {
        self.events_consumed
    }

    /// Notification events acknowledged so far.
    pub closed spec fn acked(&self) -> u64 {
        self.events_acked
    }

    /// Whether the next completion will raise an event.
    pub closed spec fn is_armed(&self) -> bool {
        self.armed
    }

    /// Whether the queue was last armed for solicited completions only.
    pub closed spec fn arms_solicited_only(&self) -> bool {
        self.solicited_only
    }

    /// No more events are acknowledged than were delivered.
    pub open spec fn wf(&self) -> bool {
        self.acked() <= self.consumed()
    }

    /// The default options.
    pub fn options() -> (r: CompletionQueueOptions)
        ensures
            r.cqe == 0,
            r.user_data == 0,
            r.channel is None,
    {
        CompletionQueueOptions::default()
    }

    /// The queue that the creating call returned, bound to no channel and
    /// entered in `graph` with a strong reference to its context `ctx`; its
    /// key is its resource id. A failed creation hands its error back.
    pub fn create(
        graph: &mut ResourceTable,
        ctx: usize,
        created: Result<u64, Error>,
        options: &CompletionQueueOptions,
    ) -> (r: Result<CompletionQueue, Error>)
        requires
            old(graph).wf(),
            old(graph).is_alive(ctx as int),
            options.channel is None,
        ensures
            final(graph).wf(),
            created matches Err(e) ==> (r matches Err(e2) && e2 == e && final(graph)@ == old(graph)@),
            created matches Ok(h) ==> (r matches Ok(q) && q.fresh(options, old(graph)@.len() as int)
                && appended(old(graph)@, final(graph)@, ResourceKind::CompletionQueue, h, seq![ctx])),
    {
        let mut deps: Vec<usize> = Vec::new();
        deps.push(ctx);
        proof {
            assert(deps@ == seq![ctx]);
        }
        match graph.adopt(ResourceKind::CompletionQueue, created, deps) {
            Ok(key) => Ok(CompletionQueue::new(key, options)),
            Err(e) => Err(e),
        }
    }

    /// The queue that the creating call returned, bound to the channel `cc`
    /// that the options name and entered in `graph` with strong references
    /// to its context `ctx` and to the channel; its key is its resource id.
    /// The key enters the channel's back-reference set before the queue is
    /// handed out. A failed creation hands its error back and changes
    /// nothing.
    pub fn create_bound(
        graph: &mut ResourceTable,
        ctx: usize,
        created: Result<u64, Error>,
        options: &CompletionQueueOptions,
        cc: &mut CompChannel,
    ) -> (r: Result<CompletionQueue, Error>)
        requires
            old(graph).wf(),
            old(graph).is_alive(ctx as int),
            old(graph).is_alive(old(cc).spec_key() as int),
            old(cc).wf(),
            options.channel == Some(old(cc).spec_key()),
        ensures
            final(graph).wf(),
            final(cc).wf(),
            final(cc).spec_key() == old(cc).spec_key(),
            created matches Err(e) ==> (r matches Err(e2) && e2 == e && final(graph)@ == old(graph)@
                && final(cc).bound() == old(cc).bound()),
            created matches Ok(h) ==> (r matches Ok(q) && q.fresh(options, old(graph)@.len() as int)
                && appended(
                old(graph)@,
                final(graph)@,
                ResourceKind::CompletionQueue,
                h,
                seq![ctx, old(cc).spec_key()],
            ) && final(cc).bound() == old(cc).bound().insert(q.spec_key())),
    {
        let mut deps: Vec<usize> = Vec::new();
        deps.push(ctx);
        deps.push(cc.key());
        proof {
            assert(deps@ == seq![ctx, old(cc).spec_key()]);
        }
        match graph.adopt(ResourceKind::CompletionQueue, created, deps) {
            Ok(key) => {
                cc.add_cq_ref(key);
                Ok(CompletionQueue::new(key, options))
            },
            Err(e) => Err(e),
        }
    }

    /// A new queue under `key` with the given options.
    pub open spec fn fresh(&self, options: &CompletionQueueOptions, key: int) -> bool {
        &&& self.wf()
        &&& self.spec_key() == key
        &&& self.spec_cqe() == options.cqe
        &&& self.spec_user_data() == options.user_data
        &&& self.spec_channel() == options.channel
        &&& self.consumed() == 0
        &&& self.acked() == 0
        &&& !self.is_armed()
    }

    fn new(key: usize, options: &CompletionQueueOptions) -> (r: CompletionQueue)
        ensures
            r.fresh(options, key as int),
    {
        CompletionQueue {
            key,
            cqe: options.cqe,
            user_data: options.user_data,
            channel: options.channel,
            events_consumed: 0,
            events_acked: 0,
            armed: false,
            solicited_only: false,
        }
    }

    /// The key of this queue.
    pub fn key(&self) -> (r: usize)
        ensures
            r == self.spec_key(),
    {
        self.key
    }

    /// The number of completion records the queue holds.
    pub fn cqe(&self) -> (r: usize)
        ensures
            r == self.spec_cqe(),
    {
        self.cqe
    }

    /// The opaque tag given at creation.
    pub fn user_data(&self) -> (r: usize)
        ensures
            r == self.spec_user_data(),
    {
        self.user_data
    }

    /// The channel the queue is bound to, if any.
    pub fn channel(&self) -> (r: Option<usize>)
        ensures
            r == self.spec_channel(),
    {
        self.channel
    }

    /// Notification events delivered for this queue so far.
    pub fn events_consumed(&self) -> (r: u64)
        ensures
            r == self.consumed(),
    {
        self.events_consumed
    }

    /// Notification events acknowledged so far.
    pub fn events_acked(&self) -> (r: u64)
        ensures
            r == self.acked(),
    {
        self.events_acked
    }

    /// Records that a wait on the channel delivered one event for this
    /// queue. Only an armed queue raises an event, and raising it disarms
    /// the queue.
    pub fn record_event(&mut self)
        requires
            old(self).is_armed(),
            old(self).consumed() < u64::MAX,
        ensures
            !final(self).is_armed(),
            old(self).wf() ==> final(self).wf(),
            final(self).consumed() == old(self).consumed() + 1,
            final(self).acked() == old(self).acked(),
            final(self).spec_key() == old(self).spec_key(),
            final(self).spec_cqe() == old(self).spec_cqe(),
            final(self).spec_user_data() == old(self).spec_user_data(),
            final(self).spec_channel() == old(self).spec_channel(),
    {
        self.events_consumed = self.events_consumed + 1;
        self.armed = false;
    }

    /// Acknowledges `cnt` of the delivered events. Acknowledging more than
    /// were delivered is not admitted.
    pub fn ack_cq_events(&mut self, cnt: u32)
        requires
            old(self).acked() + cnt <= old(self).consumed(),
        ensures
            final(self).is_armed() == old(self).is_armed(),
            final(self).wf(),
            final(self).acked() == old(self).acked() + cnt,
            final(self).consumed() == old(self).consumed(),
            final(self).spec_key() == old(self).spec_key(),
            final(self).spec_cqe() == old(self).spec_cqe(),
            final(self).spec_user_data() == old(self).spec_user_data(),
            final(self).spec_channel() == old(self).spec_channel(),
    {
        self.events_acked = self.events_acked + cnt as u64;
    }

    /// Records the outcome `ret` of arming the queue for its next
    /// completion, of any kind or of solicited ones only. On success the
    /// queue is armed; on failure it is unchanged and the error returned.
    pub fn req_notify(&mut self, solicited_only: bool, ret: i32) -> (r: Result<(), Error>)
        ensures
            ret == 0 ==> r is Ok && final(self).is_armed() && final(self).arms_solicited_only()
                == solicited_only,
            ret != 0 ==> r == Err::<(), Error>(Error::Os(ret)) && final(self).is_armed()
                == old(self).is_armed(),
            final(self).consumed() == old(self).consumed(),
            final(self).acked() == old(self).acked(),
            final(self).spec_key() == old(self).spec_key(),
            final(self).spec_cqe() == old(self).spec_cqe(),
            final(self).spec_user_data() == old(self).spec_user_data(),
            final(self).spec_channel() == old(self).spec_channel(),
    {
        if ret != 0 {
            return Err(from_errno(ret));
        }
        self.armed = true;
        self.solicited_only = solicited_only;
        Ok(())
    }

    /// Records the outcome of arming the queue for any completion.
    pub fn req_notify_all(&mut self, ret: i32) -> (r: Result<(), Error>)
        ensures
            ret == 0 ==> r is Ok && final(self).is_armed(),
            ret != 0 ==> r == Err::<(), Error>(Error::Os(ret)) && final(self).is_armed()
                == old(self).is_armed(),
            final(self).consumed() == old(self).consumed(),
            final(self).acked() == old(self).acked(),
            final(self).spec_key() == old(self).spec_key(),
            final(self).spec_channel() == old(self).spec_channel(),
    {
        self.req_notify(false, ret)
    }

    /// Records the outcome of arming the queue for solicited completions.
    pub fn req_notify_solicited(&mut self, ret: i32) -> (r: Result<(), Error>)
        ensures
            ret == 0 ==> r is Ok && final(self).is_armed(),
            ret != 0 ==> r == Err::<(), Error>(Error::Os(ret)) && final(self).is_armed()
                == old(self).is_armed(),
            final(self).consumed() == old(self).consumed(),
            final(self).acked() == old(self).acked(),
            final(self).spec_key() == old(self).spec_key(),
            final(self).spec_channel() == old(self).spec_channel(),
    {
        self.req_notify(true, ret)
    }

    /// Whether the next completion will raise an event.
    pub fn armed(&self) -> (r: bool)
        ensures
            r == self.is_armed(),
    {
        self.armed
    }

    /// Destroys a queue bound to `cc` once every delivered event has been
    /// acknowledged: its key leaves the channel's back-reference set, exactly
    /// one entry, and the aggregate count to acknowledge is returned.
    pub fn destroy(self, cc: &mut CompChannel) -> (acks: u64)
        requires
            old(cc).wf(),
            self.spec_channel() == Some(old(cc).spec_key()),
            old(cc).bound().contains(self.spec_key()),
            self.acked() == self.consumed(),
        ensures
            acks == self.acked(),
            final(cc).wf(),
            final(cc).spec_key() == old(cc).spec_key(),
            final(cc).bound() == old(cc).bound().remove(self.spec_key()),
            final(cc).bound().len() == old(cc).bound().len() - 1,
    {
        let removed = cc.del_cq_ref(self.key);
        proof {
            assert(removed);
        }
        self.events_acked
    }

    /// Drops the last reference to a bound queue that no live resource
    /// depends on any more, once every delivered event is acknowledged: its
    /// entry in `graph` is destroyed, with whatever that frees in turn, and
    /// its key leaves the channel's back-reference set, exactly one entry.
    /// Returns the aggregate count to acknowledge and the destroyed
    /// resources, dependents first.
    pub fn release_bound(self, graph: &mut ResourceTable, cc: &mut CompChannel) -> (r: (u64, Vec<usize>))
        requires
            old(graph).wf(),
            old(graph).is_alive(self.spec_key() as int),
            old(graph)@[self.spec_key() as int].strong == 1,
            !has_live_dependent(old(graph)@, self.spec_key() as int),
            old(cc).wf(),
            self.spec_channel() == Some(old(cc).spec_key()),
            old(cc).bound().contains(self.spec_key()),
            self.acked() == self.consumed(),
        ensures
            r.0 == self.acked(),
            final(graph).wf(),
            same_shape(old(graph)@, final(graph)@),
            !final(graph).is_alive(self.spec_key() as int),
            lists(r.1@, self.spec_key() as int),
            forall|j: int|
                0 <= j < old(graph)@.len() ==> #[trigger] final(graph)@[j].alive ==> old(graph)@[j].alive,
            forall|j: int|
                0 <= j < old(graph)@.len() ==> ((old(graph)@[j].alive && !(
                #[trigger] final(graph)@[j]).alive) <==> lists(r.1@, j)),
            final(cc).wf(),
            final(cc).spec_key() == old(cc).spec_key(),
            final(cc).bound() == old(cc).bound().remove(self.spec_key()),
            final(cc).bound().len() == old(cc).bound().len() - 1,
    {
        let key = self.key;
        let destroyed = graph.release(key);
        proof {
            let k = key as int;
            if graph@[k].alive {
                assert(graph@[k].strong == 0);
                assert(has_live_dependent(graph@, k));
                let w = choose|w: int|
                    0 <= w < graph@.len() && #[trigger] graph@[w].alive
                        && crate::resource::depends_on(graph@[w], k);
                assert(old(graph)@[w].alive);
                assert(graph@[w].deps@ == old(graph)@[w].deps@);
                assert(crate::resource::depends_on(old(graph)@[w], k));
                assert(has_live_dependent(old(graph)@, k));
            }
        }
        let acks = self.destroy(cc);
        (acks, destroyed)
    }

    /// Destroys a queue bound to no channel once every delivered event has
    /// been acknowledged; returns the aggregate count to acknowledge.
    pub fn destroy_unbound(self) -> (acks: u64)
        requires
            self.spec_channel() is None,
            self.acked() == self.consumed(),
        ensures
            acks == self.acked(),
    {
        self.events_acked
    }

    /// The outcome of polling at most `capacity` records: a negative return
    /// value is the negated error code, any other the number of records.
    pub fn poll_count(ret: i32, capacity: usize) -> (r: Result<usize, Error>)
        requires
            capacity <= i32::MAX,
            ret <= capacity,
        ensures
            ret >= 0 ==> r == Ok::<usize, Error>(ret as usize),
            ret < 0 && ret > i32::MIN ==> r == Err::<usize, Error>(Error::Os(-ret as i32)),
            ret == i32::MIN ==> r == Err::<usize, Error>(Error::Os(i32::MIN)),
            r matches Ok(n) ==> n <= capacity,
    {
        if ret < 0 {
            let errno = if ret == i32::MIN {
                i32::MIN
            } else {
                -ret
            };
            Err(from_errno(errno))
        } else {
            Ok(ret as usize)
        }
    }
}

} // verus!
